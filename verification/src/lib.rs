//! Proof-of-work search for the gas price of a fee-less transaction.
//!
//! A 256-bit candidate is accepted when the largest 256-bit number, divided by
//! the exclusive-or of a session hash and the candidate's Keccak-256 digest,
//! reaches the gas target.
//!
//! - `word`: 256-bit words as big-endian bytes, and their arithmetic.
//! - `difficulty`: the rule that accepts or rejects a candidate.
//! - `pool`: the candidates of one worker and how they change.
//! - `worker`: one step of a worker between two looks at the stop signal.
//! - `miner`: the session hash, the configuration and the coordinator's protocol.
//! - `transaction`: the gas request that carries the gas price found.
//! - `chains`: the table of chains.

pub mod chains;
pub mod difficulty;
pub mod miner;
pub mod pool;
pub mod transaction;
pub mod word;
pub mod worker;
