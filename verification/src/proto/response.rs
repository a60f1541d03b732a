//! Responses and their decoding.

use vstd::prelude::*;
use crate::proto::{Opcode, Version};
use crate::proto::bytes::{be32, from_be32, push_be32, push_zeros, read_be32, zeros};
use crate::proto::opcode_data::{OpcodeData, OpcodeDataView};

verus! {

/// Octets taken by the header of a request or a response.
pub const HEADER_SIZE: usize = 24;

/// The largest message the protocol allows, in octets.
pub const MAX_SIZE: usize = 1100;

/// Added to the opcode's number in a response.
pub const RESPONSE_INDICATOR: u8 = 128;

/// The result code of a request that the gateway carried out.
pub const RESULT_SUCCESS: u8 = 0;

/// Why a datagram could not be read as a message.
#[derive(Debug, Clone, Copy, PartialEq, Eq, Structural)]
pub enum DecodeError {
    /// Shorter than a header.
    Malformed,
    /// Longer than the protocol allows.
    Oversized,
    /// The version is not the one this client speaks.
    UnsupportedVersion(u8),
    /// A request where a response was expected.
    NotAResponse,
    /// A response where a request was expected.
    NotARequest,
    /// The opcode is not one this client supports.
    UnsupportedOpcode(u8),
    /// The octets after the header are too few for the opcode's data.
    InvalidOpcodeData,
}

/// A response from the gateway.
#[derive(Debug, Clone, Copy, PartialEq, Eq)]
pub struct Response {
    /// How the gateway judged the request; zero means success.
    pub result_code: u8,
    /// Seconds for which the mapping, or the error, stands.
    pub lifetime_seconds: u32,
    /// Seconds since the gateway last lost its state.
    pub epoch_time: u32,
    /// The data of the response's opcode.
    pub data: OpcodeData,
}

/// What `Response` holds, as mathematical values.
pub struct ResponseView {
    pub result_code: u8,
    pub lifetime_seconds: u32,
    pub epoch_time: u32,
    pub data: OpcodeDataView,
}

impl View for Response {
    type V = ResponseView;

    open spec fn view(&self) -> ResponseView {
        ResponseView {
            result_code: self.result_code,
            lifetime_seconds: self.lifetime_seconds,
            epoch_time: self.epoch_time,
            data: self.data@,
        }
    }
}

/// What the fixed part of a header says, or why it cannot be read: the
/// opcode's number as it stands in the second octet, direction bit included.
pub open spec fn header_check(s: Seq<u8>) -> Result<u8, DecodeError> {
    if s.len() < 24 {
        Err(DecodeError::Malformed)
    } else if s.len() > 1100 {
        Err(DecodeError::Oversized)
    } else if s[0] != 2 {
        Err(DecodeError::UnsupportedVersion(s[0]))
    } else {
        Ok(s[1])
    }
}

impl ResponseView {
    pub open spec fn wf(self) -> bool {
        self.data.wf()
    }

    /// The response on the wire, without options.
    pub open spec fn wire(self) -> Seq<u8> {
        seq![2u8, (128 + self.data.opcode().number()) as u8, 0u8, self.result_code] + be32(
            self.lifetime_seconds,
        ) + be32(self.epoch_time) + zeros(12) + self.data.wire()
    }

    /// The response held by a datagram, or why it holds none.
    pub open spec fn parse(s: Seq<u8>) -> Result<ResponseView, DecodeError> {
        match header_check(s) {
            Err(e) => Err(e),
            Ok(code) => if code < 128 {
                Err(DecodeError::NotAResponse)
            } else {
                match Opcode::from_number((code - 128) as u8) {
                    None => Err(DecodeError::UnsupportedOpcode((code - 128) as u8)),
                    Some(opcode) => match OpcodeDataView::parse(opcode, s.subrange(24, s.len() as int)) {
                        None => Err(DecodeError::InvalidOpcodeData),
                        Some(data) => Ok(
                            ResponseView {
                                result_code: s[3],
                                lifetime_seconds: from_be32(s.subrange(4, 8)),
                                epoch_time: from_be32(s.subrange(8, 12)),
                                data,
                            },
                        ),
                    },
                }
            },
        }
    }
}

/// Decoding the wire form of a response gives the response again.
pub proof fn lemma_response_round_trip(r: ResponseView)
    requires
        r.wf(),
    ensures
        24 <= r.wire().len() <= 60,
        ResponseView::parse(r.wire()) == Ok::<ResponseView, DecodeError>(r),
{
    let s = r.wire();
    crate::proto::bytes::lemma_be32_round_trip(r.lifetime_seconds);
    crate::proto::bytes::lemma_be32_round_trip(r.epoch_time);
    crate::proto::opcode_data::lemma_opcode_data_round_trip(r.data, Seq::empty());
    crate::proto::lemma_opcode_number_round_trip(r.data.opcode(), 0);
    if let OpcodeDataView::MapData(m) = r.data {
        crate::proto::opcode_data::lemma_map_data_round_trip(m, Seq::empty());
    }
    assert(s.subrange(4, 8) =~= be32(r.lifetime_seconds));
    assert(s.subrange(8, 12) =~= be32(r.epoch_time));
    assert(s.subrange(24, s.len() as int) =~= r.data.wire() + Seq::<u8>::empty());
    assert(s[0] == 2);
    assert(s[1] == 128 + r.data.opcode().number());
    assert(s[3] == r.result_code);
}

impl Response {
    /// Whether the gateway reports that it carried the request out.
    pub fn is_success(&self) -> (ok: bool)
        ensures
            ok <==> self.result_code == 0,
    {
        self.result_code == RESULT_SUCCESS
    }

    /// Reads a response from a datagram.
    ///
    /// Fails if the datagram is shorter than a header or longer than the
    /// protocol allows, if its version is not 2, if it is a request, if its
    /// opcode is not supported, or if too few octets follow the header for the
    /// opcode's data. Options after the data are not read.
    pub fn decode(buf: &[u8]) -> (r: Result<Response, DecodeError>)
        ensures
            match r {
                Ok(resp) => ResponseView::parse(buf@) == Ok::<ResponseView, DecodeError>(resp@),
                Err(e) => ResponseView::parse(buf@) == Err::<ResponseView, DecodeError>(e),
            },
    {
        if buf.len() < HEADER_SIZE {
            return Err(DecodeError::Malformed);
        }
        if buf.len() > MAX_SIZE {
            return Err(DecodeError::Oversized);
        }
        if Version::from_u8(buf[0]).is_none() {
            return Err(DecodeError::UnsupportedVersion(buf[0]));
        }
        let code = buf[1];
        if code < RESPONSE_INDICATOR {
            return Err(DecodeError::NotAResponse);
        }
        let number: u8 = code - RESPONSE_INDICATOR;
        let opcode = match Opcode::from_u8(number) {
            Some(opcode) => opcode,
            None => {
                return Err(DecodeError::UnsupportedOpcode(number));
            },
        };
        let result_code = buf[3];
        let lifetime_seconds = read_be32(buf, 4);
        let epoch_time = read_be32(buf, 8);
        let rest = vstd::slice::slice_subrange(buf, HEADER_SIZE, buf.len());
        match OpcodeData::decode(opcode, rest) {
            Err(_) => Err(DecodeError::InvalidOpcodeData),
            Ok(data) => Ok(Response { result_code, lifetime_seconds, epoch_time, data }),
        }
    }

    /// Writes the response as a gateway would send it, without options.
    pub fn encode(&self) -> (out: Vec<u8>)
        ensures
            out@ == self@.wire(),
    {
        let mut buf: Vec<u8> = Vec::new();
        buf.push(2);
        buf.push(RESPONSE_INDICATOR + self.data.opcode().to_u8());
        buf.push(0);
        buf.push(self.result_code);
        push_be32(&mut buf, self.lifetime_seconds);
        push_be32(&mut buf, self.epoch_time);
        push_zeros(&mut buf, 12);
        self.data.encode_into(&mut buf);
        assert(buf@ =~= self@.wire());
        buf
    }
}

} // verus!
