//! Fixed-size byte strings of the chain: hashes and account addresses.
use vstd::prelude::*;

verus! {

/// A 32-byte hash, such as a transaction hash.
#[derive(Clone, Copy, Debug)]
pub struct H256 {
    pub bytes: [u8; 32],
}

/// A 20-byte account address.
#[derive(Clone, Copy, Debug)]
pub struct Address {
    pub bytes: [u8; 20],
}

impl H256 {
    /// The all-zero hash.
    pub fn zero() -> (r: H256)
        ensures
            forall|i: int| 0 <= i < 32 ==> r.bytes@[i] == 0,
    {
        H256 { bytes: [0u8; 32] }
    }
}


/// The outcome of one transfer in a load test.
#[derive(Clone, Debug)]
pub struct TxMetric {
    pub to: Address,
    pub amount: crate::uint::U256,
    pub hash: Option<H256>,
    /// 1 for success, anything else for failure.
    pub status: u64,
    /// Seconds spent waiting for the receipt.
    pub wait: u64,
}

/// The outcomes of the transfers from one account.
#[derive(Clone, Debug)]
pub struct TransferMetrics {
    pub from: Address,
    pub total: u64,
    pub succeed: u64,
    pub txs: Vec<TxMetric>,
}

/// What a node reports about its chain.
#[derive(Debug)]
pub struct NetworkInfo {
    pub chain_id: crate::uint::U256,
    pub block_number: u64,
    pub gas_price: crate::uint::U256,
    pub frc20_code: Option<Vec<u8>>,
}

} // verus!
