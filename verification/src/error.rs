//! Typed failures of decoding, conversion and capability lookup.

use vstd::prelude::*;

use crate::protocol::Protocol;

verus! {

/// Every failure in this crate is reported as a value of this type;
/// no operation panics or aborts the process.
#[derive(Clone, Copy, Debug, PartialEq, Eq, Structural)]
pub enum Error {
    /// The wire byte matches none of the four reserved protocol codes.
    InvalidProtocolCode(u8),
    /// A bounded string field would hold more than 255 bytes.
    StringTooLong,
    /// Flag compatibility is defined only for the mining identity; asking
    /// for any other identity fails explicitly instead of approving.
    UnimplementedProtocolCheck(Protocol),
}

} // verus!
