//! Off-chain participant of RANDAO random-number campaigns: it watches the
//! contract for new campaigns, decides which are worth joining, and for each
//! one commits a hashed secret, reveals it, reads the resulting random
//! number and claims the bounty.
pub mod api;
pub mod campaign;
pub mod campaign_ids;
pub mod commands;
pub mod config;
pub mod db;
pub mod error;
pub mod keys;
pub mod main_loop;
pub mod retry;
pub mod task;
pub mod text;
pub mod types;
pub mod uint;
pub mod watcher;

pub use config::Config;
pub use keys::{one_eth_key, KeyPair};
pub use task::{TaskMachine, TaskStatus};

use vstd::prelude::*;

verus! {

/// Seconds between blocks.
pub const BLOCK_TIME: u64 = 16;

/// Directory of the campaign progress files.
pub const RANDAO_PATH: &'static str = "/tmp/.randao/campaigns/";

/// Directory of key files.
pub const KEY_PATH: &'static str = "/tmp/.randao/keys/";

} // verus!
