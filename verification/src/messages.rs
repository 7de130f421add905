//! The three handshake message shapes: the connection-setup request and
//! the success and error replies.

use vstd::prelude::*;

use crate::error::Error;
use crate::negotiation::check_flags;
use crate::negotiation::has_requires_std_job;
use crate::negotiation::select_version;
use crate::negotiation::spec_flag_bit;
use crate::negotiation::spec_mining_flags_compatible;
use crate::negotiation::spec_select_version;
use crate::protocol::Protocol;
use crate::strings::Str0255;

verus! {

/// Connection setup (downstream to upstream). The first message of every
/// session: it names the protocol identity, the inclusive range of wire
/// versions the sender supports, the feature flags it asks for, its
/// endpoint, and the device telemetry strings. `vendor` is semantically
/// mandatory (non-empty); the other telemetry strings may be empty when
/// the sender withholds telemetry. `min_version <= max_version` is
/// expected but not enforced; violating it makes negotiation degenerate
/// without crashing.
pub struct SetupConnection<'a> {
    pub protocol: Protocol,
    pub min_version: u16,
    pub max_version: u16,
    pub flags: u32,
    pub endpoint_host: Str0255<'a>,
    pub endpoint_port: u16,
    pub vendor: Str0255<'a>,
    pub hardware_version: Str0255<'a>,
    pub firmware: Str0255<'a>,
    pub device_id: Str0255<'a>,
}

impl<'a> SetupConnection<'a> {
    /// Sets the `requires_standard_job` feature bit (bit 0) of the flag
    /// field; every other field and every other bit stay unchanged.
    pub fn set_requires_standard_job(&mut self)
        ensures
            final(self).flags == old(self).flags | 1u32,
            final(self).protocol == old(self).protocol,
            final(self).min_version == old(self).min_version,
            final(self).max_version == old(self).max_version,
            final(self).endpoint_host == old(self).endpoint_host,
            final(self).endpoint_port == old(self).endpoint_port,
            final(self).vendor == old(self).vendor,
            final(self).hardware_version == old(self).hardware_version,
            final(self).firmware == old(self).firmware,
            final(self).device_id == old(self).device_id,
    {
        self.flags = self.flags | 1u32;
    }

    /// Checks whether the peer's required flags satisfy what the local
    /// side requires; defined only for the mining identity, every other
    /// identity fails with `UnimplementedProtocolCheck`.
    pub fn check_flags(protocol: Protocol, available_flags: u32, required_flags: u32) -> (r:
        Result<bool, Error>)
        ensures
            protocol == Protocol::MiningProtocol ==> r == Ok::<bool, Error>(
                spec_mining_flags_compatible(available_flags, required_flags),
            ),
            protocol != Protocol::MiningProtocol ==> r == Err::<bool, Error>(
                Error::UnimplementedProtocolCheck(protocol),
            ),
    {
        check_flags(protocol, available_flags, required_flags)
    }

    /// Negotiates a version against the peer's inclusive range: `None`
    /// when the ranges are disjoint, otherwise the minimum of the two
    /// upper bounds — the newest version both sides support.
    pub fn get_version(&self, min_version: u16, max_version: u16) -> (r: Option<u16>)
        ensures
            r == spec_select_version(self.min_version, self.max_version, min_version, max_version),
    {
        select_version(self.min_version, self.max_version, min_version, max_version)
    }

    /// True iff this message's flags have the `requires_standard_job`
    /// bit (bit 0) set.
    pub fn requires_standard_job(&self) -> (r: bool)
        ensures
            r == spec_flag_bit(self.flags, 0),
    {
        has_requires_std_job(self.flags)
    }

    /// Encoded size of the message body: the fixed-width fields plus one
    /// length byte and the bytes of each bounded string.
    pub fn get_size(&self) -> (r: usize)
        ensures
            r == 16 + self.endpoint_host@.len() + self.vendor@.len()
                + self.hardware_version@.len() + self.firmware@.len() + self.device_id@.len(),
    {
        self.protocol.get_size() + 2 + 2 + 4 + self.endpoint_host.get_size() + 2
            + self.vendor.get_size() + self.hardware_version.get_size() + self.firmware.get_size()
            + self.device_id.get_size()
    }
}

/// Connection-setup success (upstream to downstream): the single version
/// now binding for the session and the feature flags the upstream grants.
#[derive(Clone, Copy, Debug, PartialEq, Eq, Structural)]
pub struct SetupConnectionSuccess {
    pub used_version: u16,
    pub flags: u32,
}

impl SetupConnectionSuccess {
    /// Encoded size of the message body: a 16-bit version and a 32-bit
    /// flag field.
    pub fn get_size(&self) -> (r: usize)
        ensures
            r == 6,
    {
        2 + 4
    }
}

/// Connection-setup error (upstream to downstream): the subset of
/// requested flags that caused the rejection (or 0 when the failure is
/// unrelated to flags) and a machine-readable error code such as
/// `unsupported-feature-flags`, `unsupported-protocol` or
/// `protocol-version-mismatch`.
pub struct SetupConnectionError<'a> {
    pub flags: u32,
    pub error_code: Str0255<'a>,
}

impl<'a> SetupConnectionError<'a> {
    /// Encoded size of the message body: the 32-bit flag field plus one
    /// length byte and the bytes of the error code.
    pub fn get_size(&self) -> (r: usize)
        ensures
            r == 4 + 1 + self.error_code@.len(),
    {
        4 + self.error_code.get_size()
    }
}

} // verus!
