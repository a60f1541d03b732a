//! Requests and their encoding.

use vstd::prelude::*;
use crate::addr::{Ipv4, Ipv6, mapped_octets};
use crate::proto::{Opcode, Version};
use crate::proto::bytes::{be32, from_be32, push_be32, read_be32};
use crate::proto::opcode_data::{
    push_all, MapData, MapDataView, OpcodeData, OpcodeDataView,
};
use crate::proto::response::{header_check, DecodeError, HEADER_SIZE, MAX_SIZE, RESPONSE_INDICATOR};

verus! {

/// A request to the gateway.
#[derive(Debug, Clone, Copy, PartialEq, Eq)]
pub struct Request {
    /// The protocol version of the request.
    pub version: Version,
    /// Seconds the mapping is asked to last; zero asks for its deletion.
    pub lifetime_seconds: u32,
    /// The sender's address, an IPv4 address in its IPv4-mapped form.
    pub client_addr: Ipv6,
    /// The data of the request's opcode.
    pub opcode_data: OpcodeData,
}

/// What `Request` holds, as mathematical values.
pub struct RequestView {
    pub version: Version,
    pub lifetime_seconds: u32,
    pub client_addr: Seq<u8>,
    pub opcode_data: OpcodeDataView,
}

impl View for Request {
    type V = RequestView;

    open spec fn view(&self) -> RequestView {
        RequestView {
            version: self.version,
            lifetime_seconds: self.lifetime_seconds,
            client_addr: self.client_addr.octets@,
            opcode_data: self.opcode_data@,
        }
    }
}

impl RequestView {
    pub open spec fn wf(self) -> bool {
        self.client_addr.len() == 16 && self.opcode_data.wf()
    }

    /// The request on the wire.
    pub open spec fn wire(self) -> Seq<u8> {
        seq![self.version.number(), self.opcode_data.opcode().number(), 0u8, 0u8] + be32(
            self.lifetime_seconds,
        ) + self.client_addr + self.opcode_data.wire()
    }

    /// The request held by a datagram, or why it holds none.
    pub open spec fn parse(s: Seq<u8>) -> Result<RequestView, DecodeError> {
        match header_check(s) {
            Err(e) => Err(e),
            Ok(code) => if code >= 128 {
                Err(DecodeError::NotARequest)
            } else {
                match Opcode::from_number(code) {
                    None => Err(DecodeError::UnsupportedOpcode(code)),
                    Some(opcode) => match OpcodeDataView::parse(opcode, s.subrange(24, s.len() as int)) {
                        None => Err(DecodeError::InvalidOpcodeData),
                        Some(opcode_data) => Ok(
                            RequestView {
                                version: Version::Pcp,
                                lifetime_seconds: from_be32(s.subrange(4, 8)),
                                client_addr: s.subrange(8, 24),
                                opcode_data,
                            },
                        ),
                    },
                }
            },
        }
    }

    /// The probe sent from `client_addr`.
    pub open spec fn announce(client_addr: Seq<u8>) -> RequestView {
        RequestView {
            version: Version::Pcp,
            lifetime_seconds: 0,
            client_addr,
            opcode_data: OpcodeDataView::Announce,
        }
    }

    /// The `Map` request for `local_ip:local_port`. A missing preference is
    /// written as port 0 and as the address `0.0.0.0`.
    pub open spec fn mapping(
        nonce: Seq<u8>,
        protocol: u8,
        local_port: u16,
        local_ip: Seq<u8>,
        preferred_external_port: Option<u16>,
        preferred_external_address: Option<Seq<u8>>,
        lifetime_seconds: u32,
    ) -> RequestView {
        RequestView {
            version: Version::Pcp,
            lifetime_seconds,
            client_addr: mapped_octets(local_ip),
            opcode_data: OpcodeDataView::MapData(
                MapDataView {
                    nonce,
                    protocol,
                    local_port,
                    external_port: match preferred_external_port {
                        Some(p) => p,
                        None => 0,
                    },
                    external_address: mapped_octets(
                        match preferred_external_address {
                            Some(a) => a,
                            None => seq![0u8, 0u8, 0u8, 0u8],
                        },
                    ),
                },
            ),
        }
    }
}

/// Decoding the wire form of a request gives the request again: 24 octets
/// for a probe, 60 for a `Map` request.
pub proof fn lemma_request_round_trip(r: RequestView)
    requires
        r.wf(),
    ensures
        r.wire().len() == 24 + r.opcode_data.wire().len(),
        r.wire().len() == (if r.opcode_data is Announce { 24int } else { 60int }),
        RequestView::parse(r.wire()) == Ok::<RequestView, DecodeError>(r),
{
    let s = r.wire();
    crate::proto::bytes::lemma_be32_round_trip(r.lifetime_seconds);
    crate::proto::opcode_data::lemma_opcode_data_round_trip(r.opcode_data, Seq::empty());
    crate::proto::lemma_opcode_number_round_trip(r.opcode_data.opcode(), 0);
    if let OpcodeDataView::MapData(m) = r.opcode_data {
        crate::proto::opcode_data::lemma_map_data_round_trip(m, Seq::empty());
    }
    assert(s.subrange(4, 8) =~= be32(r.lifetime_seconds));
    assert(s.subrange(8, 24) =~= r.client_addr);
    assert(s.subrange(24, s.len() as int) =~= r.opcode_data.wire() + Seq::<u8>::empty());
    assert(s[0] == 2);
    assert(s[1] == r.opcode_data.opcode().number());
}

impl Request {
    /// The probe sent from `client_addr`: an `Announce` request, whose
    /// lifetime is zero.
    pub fn announce(client_addr: Ipv6) -> (req: Request)
        ensures
            req@ == RequestView::announce(client_addr.octets@),
            req@.wf(),
    {
        Request {
            version: Version::Pcp,
            lifetime_seconds: 0,
            client_addr,
            opcode_data: OpcodeData::Announce,
        }
    }

    /// The `Map` request that asks the gateway to forward to
    /// `local_ip:local_port` for `lifetime_seconds`, or, with a lifetime of
    /// zero, to delete that mapping.
    pub fn mapping(
        nonce: [u8; 12],
        protocol: u8,
        local_port: u16,
        local_ip: Ipv4,
        preferred_external_port: Option<u16>,
        preferred_external_address: Option<Ipv4>,
        lifetime_seconds: u32,
    ) -> (req: Request)
        ensures
            req@ == RequestView::mapping(
                nonce@,
                protocol,
                local_port,
                local_ip.octets@,
                preferred_external_port,
                match preferred_external_address {
                    Some(a) => Some(a.octets@),
                    None => None,
                },
                lifetime_seconds,
            ),
            req@.wf(),
    {
        let external_port = match preferred_external_port {
            Some(p) => p,
            None => 0,
        };
        let external_ip = match preferred_external_address {
            Some(a) => a,
            None => Ipv4::unspecified(),
        };
        Request {
            version: Version::Pcp,
            lifetime_seconds,
            client_addr: local_ip.to_ipv6_mapped(),
            opcode_data: OpcodeData::MapData(
                MapData {
                    nonce,
                    protocol,
                    local_port,
                    external_port,
                    external_address: external_ip.to_ipv6_mapped(),
                },
            ),
        }
    }

    /// Writes the request as it goes on the wire: the header, then the data
    /// of its opcode.
    pub fn encode(&self) -> (out: Vec<u8>)
        ensures
            out@ == self@.wire(),
            out@.len() == (if self@.opcode_data is Announce { 24int } else { 60int }),
    {
        let mut buf: Vec<u8> = Vec::new();
        buf.push(self.version.to_u8());
        buf.push(self.opcode_data.opcode().to_u8());
        buf.push(0);
        buf.push(0);
        push_be32(&mut buf, self.lifetime_seconds);
        push_all(&mut buf, self.client_addr.octets.as_slice());
        self.opcode_data.encode_into(&mut buf);
        assert(buf@ =~= self@.wire());
        proof {
            lemma_request_round_trip(self@);
        }
        buf
    }

    /// Reads a request from a datagram, as a gateway does.
    pub fn decode(buf: &[u8]) -> (r: Result<Request, DecodeError>)
        ensures
            match r {
                Ok(req) => RequestView::parse(buf@) == Ok::<RequestView, DecodeError>(req@),
                Err(e) => RequestView::parse(buf@) == Err::<RequestView, DecodeError>(e),
            },
    {
        if buf.len() < HEADER_SIZE {
            return Err(DecodeError::Malformed);
        }
        if buf.len() > MAX_SIZE {
            return Err(DecodeError::Oversized);
        }
        let version = match Version::from_u8(buf[0]) {
            Some(version) => version,
            None => {
                return Err(DecodeError::UnsupportedVersion(buf[0]));
            },
        };
        let code = buf[1];
        if code >= RESPONSE_INDICATOR {
            return Err(DecodeError::NotARequest);
        }
        let opcode = match Opcode::from_u8(code) {
            Some(opcode) => opcode,
            None => {
                return Err(DecodeError::UnsupportedOpcode(code));
            },
        };
        let lifetime_seconds = read_be32(buf, 4);
        let octets: [u8; 16] = [
            buf[8], buf[9], buf[10], buf[11], buf[12], buf[13], buf[14], buf[15],
            buf[16], buf[17], buf[18], buf[19], buf[20], buf[21], buf[22], buf[23],
        ];
        let rest = vstd::slice::slice_subrange(buf, HEADER_SIZE, buf.len());
        match OpcodeData::decode(opcode, rest) {
            Err(_) => Err(DecodeError::InvalidOpcodeData),
            Ok(opcode_data) => {
                let req = Request {
                    version,
                    lifetime_seconds,
                    client_addr: Ipv6 { octets },
                    opcode_data,
                };
                assert(req.client_addr.octets@ =~= buf@.subrange(8, 24));
                Ok(req)
            },
        }
    }
}

} // verus!
