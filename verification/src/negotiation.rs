//! Feature-flag bit semantics and the version-negotiation rule.
//!
//! For the mining identity three single-bit features are defined over the
//! 32-bit flag field, under one canonical mapping used by every reader of
//! the field: bit 0 is `requires_standard_job`, bit 1 is
//! `requires_version_rolling`, bit 2 is `requires_work_selection`.

use vstd::prelude::*;

use crate::error::Error;
use crate::protocol::Protocol;

verus! {

/// Whether bit `bit` (counting from the least significant end) of a 32-bit
/// flag field is set.
pub open spec fn spec_flag_bit(flags: u32, bit: u32) -> bool {
    (flags >> bit) & 1u32 == 1u32
}

/// True iff the `requires_standard_job` feature bit (bit 0) is set.
pub fn has_requires_std_job(flags: u32) -> (r: bool)
    ensures
        r == spec_flag_bit(flags, 0),
{
    (flags >> 0u32) & 1u32 == 1u32
}

/// True iff the `requires_version_rolling` feature bit (bit 1) is set.
pub fn has_version_rolling(flags: u32) -> (r: bool)
    ensures
        r == spec_flag_bit(flags, 1),
{
    (flags >> 1u32) & 1u32 == 1u32
}

/// True iff the `requires_work_selection` feature bit (bit 2) is set.
pub fn has_work_selection(flags: u32) -> (r: bool)
    ensures
        r == spec_flag_bit(flags, 2),
{
    (flags >> 2u32) & 1u32 == 1u32
}

/// Mining-identity flag compatibility: for each of work selection (bit 2)
/// and version rolling (bit 1), either the local side does not require the
/// feature or the peer's required set asserts it.
pub open spec fn spec_mining_flags_compatible(available: u32, required: u32) -> bool {
    &&& (!spec_flag_bit(available, 2) || spec_flag_bit(required, 2))
    &&& (!spec_flag_bit(available, 1) || spec_flag_bit(required, 1))
}

/// Checks whether the peer's required flags satisfy what the local side
/// requires. Defined only for the mining identity; every other identity
/// fails explicitly with `UnimplementedProtocolCheck` instead of approving.
pub fn check_flags(protocol: Protocol, available_flags: u32, required_flags: u32) -> (r: Result<
    bool,
    Error,
>)
    ensures
        protocol == Protocol::MiningProtocol ==> r == Ok::<bool, Error>(
            spec_mining_flags_compatible(available_flags, required_flags),
        ),
        protocol != Protocol::MiningProtocol ==> r == Err::<bool, Error>(
            Error::UnimplementedProtocolCheck(protocol),
        ),
{
    match protocol {
        Protocol::MiningProtocol => {
            let requires_work_selection_self = (available_flags >> 2u32) & 1u32 == 1u32;
            let requires_version_rolling_self = (available_flags >> 1u32) & 1u32 == 1u32;
            let requires_work_selection_passed = (required_flags >> 2u32) & 1u32 == 1u32;
            let requires_version_rolling_passed = (required_flags >> 1u32) & 1u32 == 1u32;

            let work_selection = !requires_work_selection_self || requires_work_selection_passed;
            let version_rolling = !requires_version_rolling_self
                || requires_version_rolling_passed;

            Ok(work_selection && version_rolling)
        },
        _ => Err(Error::UnimplementedProtocolCheck(protocol)),
    }
}

/// The negotiated version for two inclusive version ranges: `None` when the
/// ranges are disjoint, otherwise the highest version both sides support,
/// which is the minimum of the two upper bounds.
pub open spec fn spec_select_version(
    self_min: u16,
    self_max: u16,
    peer_min: u16,
    peer_max: u16,
) -> Option<u16> {
    if self_min > peer_max || peer_min > self_max {
        None
    } else if self_max <= peer_max {
        Some(self_max)
    } else {
        Some(peer_max)
    }
}

/// Negotiates a wire-protocol version from the two sides' inclusive ranges,
/// preferring the newest mutually supported version.
pub fn select_version(self_min: u16, self_max: u16, peer_min: u16, peer_max: u16) -> (r: Option<
    u16,
>)
    ensures
        r == spec_select_version(self_min, self_max, peer_min, peer_max),
{
    if self_min > peer_max || peer_min > self_max {
        None
    } else if self_max <= peer_max {
        Some(self_max)
    } else {
        Some(peer_max)
    }
}

/// Law: setting the `requires_standard_job` bit makes its accessor read
/// true and leaves every other bit of the flag field unchanged.
pub proof fn lemma_set_requires_standard_job_bits(flags: u32, bit: u32)
    requires
        1 <= bit < 32,
    ensures
        spec_flag_bit(flags | 1u32, 0),
        spec_flag_bit(flags | 1u32, bit) == spec_flag_bit(flags, bit),
{
    assert(((flags | 1u32) >> 0u32) & 1u32 == 1u32) by (bit_vector);
    assert(1u32 <= bit < 32u32 ==> ((flags | 1u32) >> bit) & 1u32 == (flags >> bit) & 1u32)
        by (bit_vector);
}

} // verus!
