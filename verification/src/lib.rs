//! A boundary layer between a block-chain wallet library and callers that manage
//! memory by hand.
//!
//! Every value that crosses the boundary has one owner, one operation that
//! creates it and one that releases it.  The modules are:
//!
//! * [`types`]: the fixed-width status codes and the plain records that
//!   cross the boundary by value;
//! * [`handle`]: the table that issues, checks and retires opaque handles;
//! * [`random`]: the caller's randomness callback and the record of its runs;
//! * [`bip39`]: the mnemonic codec boundary;
//! * [`block`]: the block and block-header boundary.
//!
//! The wallet library itself (dictionaries, checksums, wire formats, hashing)
//! is not part of this crate: what it computed is handed in as plain values.

pub mod handle;
pub mod random;
pub mod bip39;
pub mod block;
pub mod types;
