//! A foundational type layer for CAN bus communication on targets without
//! dynamic allocation: identifiers and frames with their validity invariants,
//! and a minimal byte-oriented I/O abstraction with a blocking adapter.

pub mod can;
pub mod io;
