//! Consensus-application core: a deterministic state machine driven by a
//! consensus engine through a fixed request/response protocol.
//!
//! The crate verifies the block lifecycle (begin -> deliver* -> end -> commit),
//! the incremental application-state hash, the durable height counter, the
//! request dispatcher and the lane admission policies. Networking, the async
//! server plumbing and file I/O live outside the library.

pub mod cli;
pub mod hashing;
pub mod height;
pub mod dispatch;
pub mod lanes;
pub mod laws;
pub mod lifecycle;
pub mod tx;
