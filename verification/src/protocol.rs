//! The protocol-identity enumeration and its one-byte wire code.

use vstd::prelude::*;

use crate::error::Error;

verus! {

/// Reserved wire code of the mining protocol identity.
pub const MINING_PROTOCOL_DISCRIMINANT: u8 = 0;
/// Reserved wire code of the job-declaration protocol identity.
pub const JOB_DECLARATION_PROTOCOL_DISCRIMINANT: u8 = 1;
/// Reserved wire code of the template-distribution protocol identity.
pub const TEMPLATE_DISTRIBUTION_PROTOCOL_DISCRIMINANT: u8 = 2;
/// Reserved wire code of the job-distribution protocol identity.
pub const JOB_DISTRIBUTION_PROTOCOL_DISCRIMINANT: u8 = 3;

/// The closed set of protocol identities a connection can be set up for.
/// Each identity is isomorphic to one reserved byte code on the wire.
#[derive(Clone, Copy, Debug, PartialEq, Eq, Structural)]
pub enum Protocol {
    MiningProtocol,
    JobDeclarationProtocol,
    TemplateDistributionProtocol,
    JobDistributionProtocol,
}

/// The reserved byte code of a protocol identity.
pub open spec fn spec_protocol_byte(p: Protocol) -> u8 {
    match p {
        Protocol::MiningProtocol => MINING_PROTOCOL_DISCRIMINANT,
        Protocol::JobDeclarationProtocol => JOB_DECLARATION_PROTOCOL_DISCRIMINANT,
        Protocol::TemplateDistributionProtocol => TEMPLATE_DISTRIBUTION_PROTOCOL_DISCRIMINANT,
        Protocol::JobDistributionProtocol => JOB_DISTRIBUTION_PROTOCOL_DISCRIMINANT,
    }
}

/// The protocol identity a byte code stands for, if it is one of the
/// four reserved codes.
pub open spec fn spec_protocol_of_byte(b: u8) -> Option<Protocol> {
    if b == MINING_PROTOCOL_DISCRIMINANT {
        Some(Protocol::MiningProtocol)
    } else if b == JOB_DECLARATION_PROTOCOL_DISCRIMINANT {
        Some(Protocol::JobDeclarationProtocol)
    } else if b == TEMPLATE_DISTRIBUTION_PROTOCOL_DISCRIMINANT {
        Some(Protocol::TemplateDistributionProtocol)
    } else if b == JOB_DISTRIBUTION_PROTOCOL_DISCRIMINANT {
        Some(Protocol::JobDistributionProtocol)
    } else {
        None
    }
}

impl Protocol {
    /// Encodes this identity as its reserved one-byte wire code.
    /// Total, and the exact inverse of `decode` on valid codes.
    pub fn encode(self) -> (r: u8)
        ensures
            r == spec_protocol_byte(self),
    {
        match self {
            Protocol::MiningProtocol => MINING_PROTOCOL_DISCRIMINANT,
            Protocol::JobDeclarationProtocol => JOB_DECLARATION_PROTOCOL_DISCRIMINANT,
            Protocol::TemplateDistributionProtocol => TEMPLATE_DISTRIBUTION_PROTOCOL_DISCRIMINANT,
            Protocol::JobDistributionProtocol => JOB_DISTRIBUTION_PROTOCOL_DISCRIMINANT,
        }
    }

    /// Decodes a wire byte into a protocol identity; any byte outside the
    /// four reserved codes is rejected with `InvalidProtocolCode`.
    pub fn decode(byte: u8) -> (r: Result<Protocol, Error>)
        ensures
            r == (match spec_protocol_of_byte(byte) {
                Some(p) => Ok::<Protocol, Error>(p),
                None => Err::<Protocol, Error>(Error::InvalidProtocolCode(byte)),
            }),
    {
        if byte == MINING_PROTOCOL_DISCRIMINANT {
            Ok(Protocol::MiningProtocol)
        } else if byte == JOB_DECLARATION_PROTOCOL_DISCRIMINANT {
            Ok(Protocol::JobDeclarationProtocol)
        } else if byte == TEMPLATE_DISTRIBUTION_PROTOCOL_DISCRIMINANT {
            Ok(Protocol::TemplateDistributionProtocol)
        } else if byte == JOB_DISTRIBUTION_PROTOCOL_DISCRIMINANT {
            Ok(Protocol::JobDistributionProtocol)
        } else {
            Err(Error::InvalidProtocolCode(byte))
        }
    }

    /// Encoded size of a protocol identity on the wire: exactly one byte.
    pub fn get_size(&self) -> (r: usize)
        ensures
            r == 1,
    {
        1
    }
}

/// Law: decoding the byte an identity encodes to gives back that identity.
pub proof fn lemma_protocol_decode_encode(p: Protocol)
    ensures
        spec_protocol_of_byte(spec_protocol_byte(p)) == Some(p),
{
}

/// Law: a byte that decodes to an identity is exactly that identity's
/// code, and a byte that is no identity's code fails to decode.
pub proof fn lemma_protocol_encode_decode(b: u8)
    ensures
        spec_protocol_of_byte(b) matches Some(p) ==> spec_protocol_byte(p) == b,
        (forall|p: Protocol| spec_protocol_byte(p) != b) ==> spec_protocol_of_byte(b) is None,
{
    if forall|p: Protocol| spec_protocol_byte(p) != b {
        assert(spec_protocol_byte(Protocol::MiningProtocol) != b);
        assert(spec_protocol_byte(Protocol::JobDeclarationProtocol) != b);
        assert(spec_protocol_byte(Protocol::TemplateDistributionProtocol) != b);
        assert(spec_protocol_byte(Protocol::JobDistributionProtocol) != b);
    }
}

} // verus!
