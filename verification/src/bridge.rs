//! The foreign-ownership bridge: owned-buffer mirrors of the two
//! variable-length messages, for callers on the far side of a
//! foreign-function boundary with no automatic lifetime management.
//!
//! A mirror is created by moving a borrowed message into it (the only
//! path that allocates), read back as a zero-copy borrowed view whose
//! validity is the borrow on the mirror, and destroyed by exactly one
//! release call. Release consumes the mirror, so releasing the same
//! value twice is rejected at compile time, and a borrowed view cannot
//! outlive the mirror it was taken from.

use vstd::prelude::*;

use crate::error::Error;
use crate::messages::SetupConnection;
use crate::messages::SetupConnectionError;
use crate::protocol::Protocol;
use crate::strings::Str0255;

verus! {

/// An independently allocated, foreign-safe byte buffer of any length.
/// The bounded-string constraint is checked only when the buffer is read
/// back as a borrowed view, so a foreign caller can hand over malformed
/// contents without crashing anything.
pub struct CVec {
    data: Vec<u8>,
}

impl View for CVec {
    type V = Seq<u8>;

    closed spec fn view(&self) -> Seq<u8> {
        self.data@
    }
}

fn copy_bytes(s: &[u8]) -> (r: Vec<u8>)
    ensures
        r@ == s@,
{
    let mut v: Vec<u8> = Vec::new();
    let n = s.len();
    let mut i: usize = 0;
    while i < n
        invariant
            i <= n,
            n == s@.len(),
            v@ == s@.subrange(0, i as int),
        decreases n - i,
    {
        v.push(s[i]);
        i = i + 1;
    }
    proof {
        assert(v@ =~= s@);
    }
    v
}

impl CVec {
    /// Allocates a buffer holding a copy of the given bytes.
    pub fn from_bytes(s: &[u8]) -> (r: CVec)
        ensures
            r@ == s@,
    {
        CVec { data: copy_bytes(s) }
    }

    /// Wraps an already-owned byte buffer, of any length.
    pub fn from_vec(data: Vec<u8>) -> (r: CVec)
        ensures
            r@ == data@,
    {
        CVec { data }
    }

    /// The bytes the buffer holds.
    pub fn as_slice(&self) -> (r: &[u8])
        ensures
            r@ == self@,
    {
        self.data.as_slice()
    }

    /// The number of bytes the buffer holds.
    pub fn len(&self) -> (r: usize)
        ensures
            r == self@.len(),
    {
        self.data.len()
    }
}

/// Owned mirror of a connection-setup request: every bounded string of the
/// borrowed message becomes an independently allocated buffer, safe to hand
/// across a foreign-function boundary.
pub struct CSetupConnection {
    pub protocol: Protocol,
    pub min_version: u16,
    pub max_version: u16,
    pub flags: u32,
    pub endpoint_host: CVec,
    pub endpoint_port: u16,
    pub vendor: CVec,
    pub hardware_version: CVec,
    pub firmware: CVec,
    pub device_id: CVec,
}

/// The owned mirror `c` carries exactly the fields of the borrowed
/// connection-setup message `v`, byte for byte.
pub open spec fn spec_mirrors(c: CSetupConnection, v: SetupConnection) -> bool {
    &&& c.protocol == v.protocol
    &&& c.min_version == v.min_version
    &&& c.max_version == v.max_version
    &&& c.flags == v.flags
    &&& c.endpoint_host@ == v.endpoint_host@
    &&& c.endpoint_port == v.endpoint_port
    &&& c.vendor@ == v.vendor@
    &&& c.hardware_version@ == v.hardware_version@
    &&& c.firmware@ == v.firmware@
    &&& c.device_id@ == v.device_id@
}

/// Every buffer of the mirror keeps the 255-byte bound of a bounded
/// string; exactly on these mirrors does reading back succeed.
pub open spec fn spec_mirror_bounded(c: CSetupConnection) -> bool {
    &&& c.endpoint_host@.len() <= 255
    &&& c.vendor@.len() <= 255
    &&& c.hardware_version@.len() <= 255
    &&& c.firmware@.len() <= 255
    &&& c.device_id@.len() <= 255
}

impl CSetupConnection {
    /// Moves a borrowed connection-setup message into an owned mirror,
    /// copying each bounded string into a buffer of its own. Every field
    /// is preserved byte for byte, and every buffer keeps the 255-byte
    /// bound. The mirror must eventually be given to
    /// `free_setup_connection` exactly once.
    pub fn from_rust_rep(v: SetupConnection<'_>) -> (r: Self)
        ensures
            spec_mirrors(r, v),
            spec_mirror_bounded(r),
    {
        CSetupConnection {
            protocol: v.protocol,
            min_version: v.min_version,
            max_version: v.max_version,
            flags: v.flags,
            endpoint_host: CVec::from_bytes(v.endpoint_host.as_bytes()),
            endpoint_port: v.endpoint_port,
            vendor: CVec::from_bytes(v.vendor.as_bytes()),
            hardware_version: CVec::from_bytes(v.hardware_version.as_bytes()),
            firmware: CVec::from_bytes(v.firmware.as_bytes()),
            device_id: CVec::from_bytes(v.device_id.as_bytes()),
        }
    }

    /// Reads the mirror back as a zero-copy borrowed message: each buffer
    /// is reinterpreted as a bounded string without copying, and the
    /// borrowed message lives exactly as long as the borrow on the mirror.
    /// Fails with `StringTooLong`, returning no partial value, when any
    /// buffer breaks the 255-byte bound; every field of a returned message
    /// equals the mirror's, byte for byte.
    pub fn to_rust_rep_mut<'a>(&'a self) -> (r: Result<SetupConnection<'a>, Error>)
        ensures
            r is Ok <==> spec_mirror_bounded(*self),
            r matches Ok(m) ==> spec_mirrors(*self, m),
            r matches Err(e) ==> e == Error::StringTooLong,
    {
        let endpoint_host = match Str0255::try_from_slice(self.endpoint_host.as_slice()) {
            Ok(s) => s,
            Err(e) => {
                return Err(e);
            },
        };
        let vendor = match Str0255::try_from_slice(self.vendor.as_slice()) {
            Ok(s) => s,
            Err(e) => {
                return Err(e);
            },
        };
        let hardware_version = match Str0255::try_from_slice(self.hardware_version.as_slice()) {
            Ok(s) => s,
            Err(e) => {
                return Err(e);
            },
        };
        let firmware = match Str0255::try_from_slice(self.firmware.as_slice()) {
            Ok(s) => s,
            Err(e) => {
                return Err(e);
            },
        };
        let device_id = match Str0255::try_from_slice(self.device_id.as_slice()) {
            Ok(s) => s,
            Err(e) => {
                return Err(e);
            },
        };
        Ok(
            SetupConnection {
                protocol: self.protocol,
                min_version: self.min_version,
                max_version: self.max_version,
                flags: self.flags,
                endpoint_host,
                endpoint_port: self.endpoint_port,
                vendor,
                hardware_version,
                firmware,
                device_id,
            },
        )
    }
}

/// Releases an owned connection-setup mirror, reclaiming every one of its
/// buffers exactly once. Release takes the mirror by value: the value
/// cannot be used again afterwards, so a second release of it is a
/// compile-time impossibility, and every buffer is freed with it.
pub fn free_setup_connection(s: CSetupConnection) {
    let _ = s;
}

/// Owned mirror of a connection-setup error message, safe to hand across a
/// foreign-function boundary.
pub struct CSetupConnectionError {
    flags: u32,
    error_code: CVec,
}

/// The owned mirror `c` carries exactly the fields of the borrowed
/// connection-setup error `v`, byte for byte.
pub open spec fn spec_error_mirrors(c: CSetupConnectionError, v: SetupConnectionError) -> bool {
    &&& c.spec_flags() == v.flags
    &&& c.spec_error_code() == v.error_code@
}

impl CSetupConnectionError {
    /// The flag field the mirror carries.
    pub closed spec fn spec_flags(&self) -> u32 {
        self.flags
    }

    /// The bytes of the error code the mirror carries.
    pub closed spec fn spec_error_code(&self) -> Seq<u8> {
        self.error_code@
    }

    /// Moves a borrowed connection-setup error into an owned mirror,
    /// copying the error code into a buffer of its own. Both fields are
    /// preserved byte for byte. The mirror must eventually be given to
    /// `free_setup_connection_error` exactly once.
    pub fn from_rust_rep(v: SetupConnectionError<'_>) -> (r: Self)
        ensures
            spec_error_mirrors(r, v),
            r.spec_error_code().len() <= 255,
    {
        CSetupConnectionError {
            flags: v.flags,
            error_code: CVec::from_bytes(v.error_code.as_bytes()),
        }
    }

    /// Reads the mirror back as a zero-copy borrowed message, without
    /// copying the error code. Fails with `StringTooLong`, returning no
    /// partial value, when the buffer breaks the 255-byte bound; a
    /// returned message equals the mirror field for field, byte for byte.
    pub fn to_rust_rep_mut<'a>(&'a self) -> (r: Result<SetupConnectionError<'a>, Error>)
        ensures
            r is Ok <==> self.spec_error_code().len() <= 255,
            r matches Ok(m) ==> spec_error_mirrors(*self, m),
            r matches Err(e) ==> e == Error::StringTooLong,
    {
        let error_code = match Str0255::try_from_slice(self.error_code.as_slice()) {
            Ok(s) => s,
            Err(e) => {
                return Err(e);
            },
        };
        Ok(SetupConnectionError { flags: self.flags, error_code })
    }
}

/// Releases an owned connection-setup-error mirror, reclaiming its buffer
/// exactly once. Release takes the mirror by value, so releasing the same
/// value twice is a compile-time impossibility.
pub fn free_setup_connection_error(s: CSetupConnectionError) {
    let _ = s;
}

/// Law: an owned mirror determines the borrowed message byte for byte, so
/// a message moved into a mirror and a message read back from that mirror
/// agree on every field. Together with the conversion contracts — moving
/// in yields a bounded mirror, and reading back succeeds exactly on
/// bounded mirrors — the round trip always succeeds and preserves every
/// field.
pub proof fn lemma_mirror_round_trip(
    c: CSetupConnection,
    v: SetupConnection,
    m: SetupConnection,
)
    requires
        spec_mirrors(c, v),
        spec_mirrors(c, m),
    ensures
        m.protocol == v.protocol,
        m.min_version == v.min_version,
        m.max_version == v.max_version,
        m.flags == v.flags,
        m.endpoint_host@ == v.endpoint_host@,
        m.endpoint_port == v.endpoint_port,
        m.vendor@ == v.vendor@,
        m.hardware_version@ == v.hardware_version@,
        m.firmware@ == v.firmware@,
        m.device_id@ == v.device_id@,
{
}

/// Law: an owned error mirror determines the borrowed error message byte
/// for byte, so a message moved into a mirror and a message read back from
/// that mirror agree on both fields.
pub proof fn lemma_error_mirror_round_trip(
    c: CSetupConnectionError,
    v: SetupConnectionError,
    m: SetupConnectionError,
)
    requires
        spec_error_mirrors(c, v),
        spec_error_mirrors(c, m),
    ensures
        m.flags == v.flags,
        m.error_code@ == v.error_code@,
{
}

} // verus!
