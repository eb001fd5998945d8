//! Proof-of-replication core of a ledger archiver: segment selection,
//! challenge sampling, segment encryption framing, the turn-driven control
//! loop and the buffers underneath it.

pub mod archiver;
pub mod base58;
pub mod chacha;
pub mod hash;
pub mod json;
pub mod mining;
pub mod packet;
pub mod pinned_vec;
pub mod pubkey;
pub mod repair;
pub mod responder;
pub mod sampling;
pub mod segment;
pub mod signing;
pub mod turn;
