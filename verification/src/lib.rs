//! Handshake message family that opens a binary mining-protocol session.
//!
//! A downstream participant (mining device, proxy) and an upstream
//! participant (pool, job provider) first exchange a connection-setup
//! request, answered by either a success or an error message. The crate
//! covers the protocol-identity enumeration and its one-byte wire code,
//! the 32-bit feature-flag semantics, the version-negotiation rule, the
//! three message shapes, and the owned-buffer mirrors that let the two
//! variable-length messages cross a foreign-function boundary and be
//! released exactly once.

pub mod bridge;
pub mod error;
pub mod messages;
pub mod negotiation;
pub mod protocol;
pub mod strings;
