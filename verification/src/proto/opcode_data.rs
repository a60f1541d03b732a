//! The data that follows the header, by opcode.

use vstd::prelude::*;
use crate::addr::Ipv6;
use crate::proto::Opcode;
use crate::proto::bytes::{be16, from_be16, push_be16, read_be16};

verus! {

/// Octets taken by the data of a `Map` message.
pub const MAP_DATA_SIZE: usize = 36;

/// The data of a `Map` request or response.
#[derive(Debug, Clone, Copy, PartialEq, Eq)]
pub struct MapData {
    /// Correlates a response with its request and authorises later changes.
    pub nonce: [u8; 12],
    /// IANA protocol number of the mapped traffic.
    pub protocol: u8,
    /// Port on the client side.
    pub local_port: u16,
    /// Port on the gateway's outer side: suggested in a request, assigned in a response.
    pub external_port: u16,
    /// Address on the gateway's outer side: suggested in a request, assigned in a response.
    pub external_address: Ipv6,
}

/// The data of a message, by opcode.
#[derive(Debug, Clone, Copy, PartialEq, Eq)]
pub enum OpcodeData {
    Announce,
    MapData(MapData),
}

/// Returned when the octets after the header do not hold the opcode's data.
#[derive(Debug, Clone, Copy, PartialEq, Eq, Structural)]
pub struct InvalidOpcodeData;

/// What `MapData` holds, as mathematical values.
pub struct MapDataView {
    pub nonce: Seq<u8>,
    pub protocol: u8,
    pub local_port: u16,
    pub external_port: u16,
    pub external_address: Seq<u8>,
}

/// What `OpcodeData` holds, as mathematical values.
pub enum OpcodeDataView {
    Announce,
    MapData(MapDataView),
}

impl MapDataView {
    /// The field lengths that every `MapData` has.
    pub open spec fn wf(self) -> bool {
        self.nonce.len() == 12 && self.external_address.len() == 16
    }

    /// The 36 octets of the data on the wire.
    pub open spec fn wire(self) -> Seq<u8> {
        self.nonce + seq![self.protocol, 0u8, 0u8, 0u8] + be16(self.local_port) + be16(
            self.external_port,
        ) + self.external_address
    }

    /// The data held by the first 36 octets of `s`; `None` if `s` is shorter.
    pub open spec fn parse(s: Seq<u8>) -> Option<MapDataView> {
        if s.len() < 36 {
            None
        } else {
            Some(
                MapDataView {
                    nonce: s.subrange(0, 12),
                    protocol: s[12],
                    local_port: from_be16(s.subrange(16, 18)),
                    external_port: from_be16(s.subrange(18, 20)),
                    external_address: s.subrange(20, 36),
                },
            )
        }
    }
}

impl OpcodeDataView {
    pub open spec fn wf(self) -> bool {
        self matches OpcodeDataView::MapData(m) ==> m.wf()
    }

    /// The opcode this data belongs to.
    pub open spec fn opcode(self) -> Opcode {
        match self {
            OpcodeDataView::Announce => Opcode::Announce,
            OpcodeDataView::MapData(_) => Opcode::Mapping,
        }
    }

    /// The data on the wire: nothing for `Announce`, 36 octets for `Map`.
    pub open spec fn wire(self) -> Seq<u8> {
        match self {
            OpcodeDataView::Announce => Seq::empty(),
            OpcodeDataView::MapData(m) => m.wire(),
        }
    }

    /// The data of `opcode` held by `s`. Octets after the data are options,
    /// which this client does not read.
    pub open spec fn parse(opcode: Opcode, s: Seq<u8>) -> Option<OpcodeDataView> {
        match opcode {
            Opcode::Announce => Some(OpcodeDataView::Announce),
            Opcode::Mapping => match MapDataView::parse(s) {
                Some(m) => Some(OpcodeDataView::MapData(m)),
                None => None,
            },
        }
    }
}

impl View for MapData {
    type V = MapDataView;

    open spec fn view(&self) -> MapDataView {
        MapDataView {
            nonce: self.nonce@,
            protocol: self.protocol,
            local_port: self.local_port,
            external_port: self.external_port,
            external_address: self.external_address.octets@,
        }
    }
}

impl View for OpcodeData {
    type V = OpcodeDataView;

    open spec fn view(&self) -> OpcodeDataView {
        match self {
            OpcodeData::Announce => OpcodeDataView::Announce,
            OpcodeData::MapData(m) => OpcodeDataView::MapData(m@),
        }
    }
}

/// Parsing the wire form of `Map` data gives the data again, whatever follows it.
pub proof fn lemma_map_data_round_trip(m: MapDataView, rest: Seq<u8>)
    requires
        m.wf(),
    ensures
        m.wire().len() == 36,
        MapDataView::parse(m.wire() + rest) == Some(m),
{
    let s = m.wire() + rest;
    crate::proto::bytes::lemma_be16_round_trip(m.local_port);
    crate::proto::bytes::lemma_be16_round_trip(m.external_port);
    assert(s.subrange(0, 12) =~= m.nonce);
    assert(s.subrange(16, 18) =~= be16(m.local_port));
    assert(s.subrange(18, 20) =~= be16(m.external_port));
    assert(s.subrange(20, 36) =~= m.external_address);
    assert(s[12] == m.protocol);
}

/// Parsing the wire form of any opcode's data gives the data again.
pub proof fn lemma_opcode_data_round_trip(d: OpcodeDataView, rest: Seq<u8>)
    requires
        d.wf(),
    ensures
        OpcodeDataView::parse(d.opcode(), d.wire() + rest) == Some(d),
{
    if let OpcodeDataView::MapData(m) = d {
        lemma_map_data_round_trip(m, rest);
    }
}

/// Appends the octets of `src` to `buf`.
pub fn push_all(buf: &mut Vec<u8>, src: &[u8])
    ensures
        final(buf)@ == old(buf)@ + src@,
{
    let mut i: usize = 0;
    while i < src.len()
        invariant
            i <= src@.len(),
            buf@ == old(buf)@ + src@.subrange(0, i as int),
        decreases src@.len() - i,
    {
        buf.push(src[i]);
        i += 1;
        assert(buf@ =~= old(buf)@ + src@.subrange(0, i as int));
    }
    assert(src@.subrange(0, i as int) =~= src@);
}

impl MapData {
    /// Appends the 36 octets of this data to `buf`.
    pub fn encode_into(&self, buf: &mut Vec<u8>)
        ensures
            final(buf)@ == old(buf)@ + self@.wire(),
    {
        push_all(buf, self.nonce.as_slice());
        buf.push(self.protocol);
        buf.push(0);
        buf.push(0);
        buf.push(0);
        push_be16(buf, self.local_port);
        push_be16(buf, self.external_port);
        push_all(buf, self.external_address.octets.as_slice());
        assert(buf@ =~= old(buf)@ + self@.wire());
    }

    /// Reads the data from the first 36 octets of `buf`.
    pub fn decode(buf: &[u8]) -> (r: Result<MapData, InvalidOpcodeData>)
        ensures
            match r {
                Ok(m) => MapDataView::parse(buf@) == Some(m@),
                Err(_) => MapDataView::parse(buf@) is None,
            },
    {
        if buf.len() < MAP_DATA_SIZE {
            return Err(InvalidOpcodeData);
        }
        let nonce: [u8; 12] = [
            buf[0], buf[1], buf[2], buf[3], buf[4], buf[5],
            buf[6], buf[7], buf[8], buf[9], buf[10], buf[11],
        ];
        let octets: [u8; 16] = [
            buf[20], buf[21], buf[22], buf[23], buf[24], buf[25], buf[26], buf[27],
            buf[28], buf[29], buf[30], buf[31], buf[32], buf[33], buf[34], buf[35],
        ];
        let m = MapData {
            nonce,
            protocol: buf[12],
            local_port: read_be16(buf, 16),
            external_port: read_be16(buf, 18),
            external_address: Ipv6 { octets },
        };
        assert(m.nonce@ =~= buf@.subrange(0, 12));
        assert(m.external_address.octets@ =~= buf@.subrange(20, 36));
        Ok(m)
    }
}

impl OpcodeData {
    /// The opcode this data belongs to.
    pub fn opcode(&self) -> (op: Opcode)
        ensures
            op == self@.opcode(),
    {
        match self {
            OpcodeData::Announce => Opcode::Announce,
            OpcodeData::MapData(_) => Opcode::Mapping,
        }
    }

    /// Octets this data takes on the wire.
    pub fn encoded_size(&self) -> (n: usize)
        ensures
            n == (if self@ is Announce { 0int } else { 36int }),
    {
        match self {
            OpcodeData::Announce => 0,
            OpcodeData::MapData(_) => MAP_DATA_SIZE,
        }
    }

    /// Appends the data to `buf`.
    pub fn encode_into(&self, buf: &mut Vec<u8>)
        ensures
            final(buf)@ == old(buf)@ + self@.wire(),
    {
        match self {
            OpcodeData::Announce => {
                assert(buf@ =~= old(buf)@ + self@.wire());
            },
            OpcodeData::MapData(m) => m.encode_into(buf),
        }
    }

    /// Reads the data of `opcode` from `buf`.
    pub fn decode(opcode: Opcode, buf: &[u8]) -> (r: Result<OpcodeData, InvalidOpcodeData>)
        ensures
            match r {
                Ok(d) => OpcodeDataView::parse(opcode, buf@) == Some(d@),
                Err(_) => OpcodeDataView::parse(opcode, buf@) is None,
            },
    {
        match opcode {
            Opcode::Announce => Ok(OpcodeData::Announce),
            Opcode::Mapping => match MapData::decode(buf) {
                Ok(m) => Ok(OpcodeData::MapData(m)),
                Err(e) => Err(e),
            },
        }
    }
}

} // verus!
