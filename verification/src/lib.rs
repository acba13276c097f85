//! A toy proof-of-work miner library.
//!
//! Given a mining job with a previous-hash string, the search enumerates
//! nonces from zero and accepts the first one whose SHA-256 digest of
//! (previous hash ++ decimal nonce), rendered as lowercase hex, starts with a
//! required number of `'0'` characters. That prefix test is a deliberate
//! simplification: real mining compares the digest numerically against a
//! target, not textually.

pub mod hashing;
pub mod job;
pub mod search;
pub mod solution;
