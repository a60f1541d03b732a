//! Plain-value network addresses.
//!
//! Addresses are held as their octets in network order, so that the wire
//! codec and the mapping logic can reason about them byte by byte.

use vstd::prelude::*;

verus! {

/// An IPv4 address, held as its four octets in network order.
#[derive(Debug, Clone, Copy, PartialEq, Eq)]
pub struct Ipv4 {
    pub octets: [u8; 4],
}

/// An IPv6 address, held as its sixteen octets in network order.
#[derive(Debug, Clone, Copy, PartialEq, Eq)]
pub struct Ipv6 {
    pub octets: [u8; 16],
}

/// An IPv4 address together with a port.
#[derive(Debug, Clone, Copy, PartialEq, Eq)]
pub struct SocketV4 {
    pub ip: Ipv4,
    pub port: u16,
}

/// The sixteen octets of the IPv4-mapped IPv6 address `::ffff:a.b.c.d`.
pub open spec fn mapped_octets(v4: Seq<u8>) -> Seq<u8> {
    seq![0u8, 0u8, 0u8, 0u8, 0u8, 0u8, 0u8, 0u8, 0u8, 0u8, 0xffu8, 0xffu8, v4[0], v4[1], v4[2], v4[3]]
}

/// Whether sixteen octets form an IPv4-mapped IPv6 address.
pub open spec fn is_mapped(v6: Seq<u8>) -> bool {
    &&& forall|i: int| 0 <= i < 10 ==> v6[i] == 0
    &&& v6[10] == 0xff
    &&& v6[11] == 0xff
}

impl Ipv4 {
    /// The address `a.b.c.d`.
    pub fn new(a: u8, b: u8, c: u8, d: u8) -> (ip: Ipv4)
        ensures
            ip.octets@ == seq![a, b, c, d],
    {
        Ipv4 { octets: [a, b, c, d] }
    }

    /// The address `0.0.0.0`.
    pub fn unspecified() -> (ip: Ipv4)
        ensures
            ip.octets@ == seq![0u8, 0u8, 0u8, 0u8],
    {
        Ipv4 { octets: [0, 0, 0, 0] }
    }

    /// Whether two addresses have the same octets.
    pub fn same(&self, other: &Ipv4) -> (eq: bool)
        ensures
            eq <==> self.octets@ == other.octets@,
    {
        let eq = self.octets[0] == other.octets[0] && self.octets[1] == other.octets[1]
            && self.octets[2] == other.octets[2] && self.octets[3] == other.octets[3];
        proof {
            if eq {
                assert(self.octets@ =~= other.octets@);
            }
        }
        eq
    }

    /// The IPv4-mapped IPv6 address `::ffff:a.b.c.d`.
    pub fn to_ipv6_mapped(&self) -> (v6: Ipv6)
        ensures
            v6.octets@ == mapped_octets(self.octets@),
            is_mapped(v6.octets@),
    {
        let o = &self.octets;
        let v6 = Ipv6 { octets: [0, 0, 0, 0, 0, 0, 0, 0, 0, 0, 0xff, 0xff, o[0], o[1], o[2], o[3]] };
        assert(v6.octets@ =~= mapped_octets(self.octets@));
        v6
    }
}

impl Ipv6 {
    /// The IPv4 address inside an IPv4-mapped address, `None` for any other
    /// address.
    pub fn to_ipv4_mapped(&self) -> (v4: Option<Ipv4>)
        ensures
            v4 is Some <==> is_mapped(self.octets@),
            v4 matches Some(ip) ==> ip.octets@ == self.octets@.subrange(12, 16),
    {
        let mut i: usize = 0;
        while i < 10
            invariant
                i <= 10,
                forall|j: int| 0 <= j < i ==> self.octets@[j] == 0,
            decreases 10 - i,
        {
            if self.octets[i] != 0 {
                assert(self.octets@[i as int] != 0);
                return None;
            }
            i += 1;
        }
        if self.octets[10] != 0xff || self.octets[11] != 0xff {
            return None;
        }
        let ip = Ipv4 {
            octets: [self.octets[12], self.octets[13], self.octets[14], self.octets[15]],
        };
        assert(ip.octets@ =~= self.octets@.subrange(12, 16));
        Some(ip)
    }
}

/// Mapping an IPv4 address into IPv6 and back gives the address again.
pub proof fn lemma_mapped_round_trip(v4: Seq<u8>)
    requires
        v4.len() == 4,
    ensures
        is_mapped(mapped_octets(v4)),
        mapped_octets(v4).subrange(12, 16) == v4,
{
    assert(mapped_octets(v4).subrange(12, 16) =~= v4);
}

} // verus!
