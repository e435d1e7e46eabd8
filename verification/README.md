# randao

A RANDAO participant service: it watches a RANDAO contract for new
campaigns, joins those whose terms are worth it, commits a hashed secret
while commits are open, reveals it while reveals are open, then reads the
random number and claims the bounty.

The decisions are a Verus-verified library (`src/`); the program around
them (`app/`) talks to the chain, the file system, Redis and HTTP clients.

## Layout

- `src/task.rs` — one participation as a state machine from progress and
  event to next progress and action, with its laws (reachable states,
  saved progress, window discipline, success condition, the ongoing-campaign
  gauge, crash recovery over whole runs).
- `src/main_loop.rs` — the main loop as a state machine (stop, count, fetch,
  make room, screen, record the id, start the worker, reap), with its laws.
- `src/watcher.rs` — which campaign to examine next (every new one in
  turn), resuming leftover campaigns, capacity, the terms of a self-opened
  campaign.
- `src/campaign.rs` — whether a campaign is worth joining.
- `src/campaign_ids.rs` — the text of the file of started campaign ids.
- `src/retry.rs` — retry counters and waits on the chain.
- `src/config.rs` — campaign records decoded from ABI tokens; configuration.
- `src/keys.rs` — account addresses and keys (secp256k1, Keccak-256, BIP-32/39).
- `src/commands.rs`, `src/api.rs`, `src/error.rs`, `src/db.rs` — command-line
  vocabulary, API results, errors, the Redis handle.
- `src/uint.rs`, `src/text.rs`, `src/types.rs` — 256-bit integers, text, hashes.
- `tests/` — tests of the library.
- `app/` — the service binary.
