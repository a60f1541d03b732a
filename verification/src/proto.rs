//! Port Control Protocol messages and their wire format.
//!
//! A message starts with a 24-octet header, followed by the data of its
//! opcode. Numbers are big-endian.

use vstd::prelude::*;

pub mod bytes;
pub mod opcode_data;
pub mod request;
pub mod response;

verus! {

/// The protocol version spoken by this client.
#[derive(Debug, Clone, Copy, PartialEq, Eq, Structural)]
pub enum Version {
    /// Port Control Protocol, version 2.
    Pcp,
}

/// The operations this client knows.
#[derive(Debug, Clone, Copy, PartialEq, Eq, Structural)]
pub enum Opcode {
    /// Probes for a gateway; carries no data of its own.
    Announce,
    /// Creates, renews or deletes a mapping.
    Mapping,
}

impl Version {
    /// The version's number on the wire.
    pub open spec fn number(self) -> u8 {
        2
    }

    /// The version's number on the wire.
    pub fn to_u8(self) -> (n: u8)
        ensures
            n == self.number(),
    {
        2
    }

    /// The version with the given number, if this client speaks it.
    pub fn from_u8(n: u8) -> (v: Option<Version>)
        ensures
            v == (if n == 2 { Some(Version::Pcp) } else { None }),
    {
        if n == 2 {
            Some(Version::Pcp)
        } else {
            None
        }
    }
}

impl Opcode {
    /// The opcode's number on the wire.
    pub open spec fn number(self) -> u8 {
        match self {
            Opcode::Announce => 0,
            Opcode::Mapping => 1,
        }
    }

    /// The opcode with the given number, if this client supports it.
    pub open spec fn from_number(n: u8) -> Option<Opcode> {
        if n == 0 {
            Some(Opcode::Announce)
        } else if n == 1 {
            Some(Opcode::Mapping)
        } else {
            None
        }
    }

    /// The opcode's number on the wire.
    pub fn to_u8(self) -> (n: u8)
        ensures
            n == self.number(),
    {
        match self {
            Opcode::Announce => 0,
            Opcode::Mapping => 1,
        }
    }

    /// The opcode with the given number, if this client supports it.
    pub fn from_u8(n: u8) -> (op: Option<Opcode>)
        ensures
            op == Opcode::from_number(n),
    {
        if n == 0 {
            Some(Opcode::Announce)
        } else if n == 1 {
            Some(Opcode::Mapping)
        } else {
            None
        }
    }
}

/// An opcode's number names that opcode and no other.
pub proof fn lemma_opcode_number_round_trip(op: Opcode, n: u8)
    ensures
        Opcode::from_number(op.number()) == Some(op),
        Opcode::from_number(n) matches Some(o) ==> o.number() == n,
{
}

} // verus!
