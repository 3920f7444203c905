//! Remote-key Ethereum account backend.
//!
//! The library derives a checksummed account address from a SEC1-encoded
//! public key held by a remote signer, tracks the per-account nonce sequence,
//! encodes legacy transactions, and drives the submission flow as a verified
//! state machine.  All network and signer I/O is performed by the surrounding
//! host code; the library only decides and computes.

pub mod address;
pub mod executor;
pub mod hashing;
pub mod keys;
pub mod nonce;
pub mod relay;
pub mod rlp;
pub mod transaction;
