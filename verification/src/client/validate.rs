//! Matching a response to the request it answers.
//!
//! Several requests may be in flight on one socket, and old datagrams may
//! arrive late. A response is taken for the answer to a request only if its
//! opcode is the request's and, for `Map`, if it repeats the request's nonce,
//! protocol and local port.

use vstd::prelude::*;
use crate::proto::opcode_data::{MapData, MapDataView, OpcodeData, OpcodeDataView};
use crate::proto::request::{Request, RequestView};
use crate::proto::response::{Response, ResponseView};

verus! {

pub type ValidateError = ValidateOpcodeDataError;

/// Why a response is not the answer to a request.
#[derive(Debug, Clone, Copy, PartialEq, Eq)]
pub enum ValidateOpcodeDataError {
    /// The response's opcode is not the request's.
    OpcodeMismatch,
    /// The opcodes are both `Map`, but the data differs.
    MapData(ValidateMapDataError),
}

/// The first field in which a `Map` response differs from its request.
#[derive(Debug, Clone, Copy, PartialEq, Eq)]
#[allow(inconsistent_fields)]
pub enum ValidateMapDataError {
    NonceMismatch { expected: [u8; 12], got: [u8; 12] },
    ProtocolMismatch { expected: u8, got: u8 },
    LocalPortMismatch { expected: u16, got: u16 },
}

/// Whether `Map` data of a response repeats what identifies the request.
pub open spec fn map_data_accepts(request: MapDataView, response: MapDataView) -> bool {
    &&& request.nonce == response.nonce
    &&& request.protocol == response.protocol
    &&& request.local_port == response.local_port
}

/// Whether the data of a response answers the data of a request.
pub open spec fn opcode_data_accepts(request: OpcodeDataView, response: OpcodeDataView) -> bool {
    match (request, response) {
        (OpcodeDataView::Announce, OpcodeDataView::Announce) => true,
        (OpcodeDataView::MapData(q), OpcodeDataView::MapData(a)) => map_data_accepts(q, a),
        _ => false,
    }
}

/// Whether `response` is the answer to `request`.
pub open spec fn accepts(request: RequestView, response: ResponseView) -> bool {
    opcode_data_accepts(request.opcode_data, response.data)
}

/// Whether two nonces hold the same octets.
pub fn nonce_eq(a: &[u8; 12], b: &[u8; 12]) -> (eq: bool)
    ensures
        eq <==> a@ == b@,
{
    let mut i: usize = 0;
    while i < 12
        invariant
            i <= 12,
            forall|j: int| 0 <= j < i ==> a@[j] == b@[j],
        decreases 12 - i,
    {
        if a[i] != b[i] {
            assert(a@[i as int] != b@[i as int]);
            return false;
        }
        i += 1;
    }
    assert(a@ =~= b@);
    true
}

/// Checks that `response` is the answer to `request`.
pub fn validate(request: &Request, response: &Response) -> (r: Result<(), ValidateOpcodeDataError>)
    ensures
        r is Ok <==> accepts(request@, response@),
        r matches Err(e) ==> explains(e, request@.opcode_data, response@.data),
{
    validate_opcode_data(&request.opcode_data, &response.data)
}

/// Checks that the data of a response answers the data of a request: the
/// opcodes are the same and, for `Map`, the data passes `validate_map_data`.
pub fn validate_opcode_data(request: &OpcodeData, response: &OpcodeData) -> (r: Result<
    (),
    ValidateOpcodeDataError,
>)
    ensures
        r is Ok <==> opcode_data_accepts(request@, response@),
        r matches Err(e) ==> explains(e, request@, response@),
{
    match (request, response) {
        (OpcodeData::Announce, OpcodeData::Announce) => Ok(()),
        (OpcodeData::MapData(request), OpcodeData::MapData(response)) => {
            match validate_map_data(request, response) {
                Ok(()) => Ok(()),
                Err(e) => Err(ValidateOpcodeDataError::MapData(e)),
            }
        },
        _ => Err(ValidateOpcodeDataError::OpcodeMismatch),
    }
}

/// Whether `e` names the first field, in the order nonce, protocol, local
/// port, in which `response` differs from `request`, with both values.
pub open spec fn is_first_mismatch(
    request: MapDataView,
    response: MapDataView,
    e: ValidateMapDataError,
) -> bool {
    match e {
        ValidateMapDataError::NonceMismatch { expected, got } => {
            &&& request.nonce != response.nonce
            &&& expected@ == request.nonce
            &&& got@ == response.nonce
        },
        ValidateMapDataError::ProtocolMismatch { expected, got } => {
            &&& request.nonce == response.nonce
            &&& request.protocol != response.protocol
            &&& expected == request.protocol
            &&& got == response.protocol
        },
        ValidateMapDataError::LocalPortMismatch { expected, got } => {
            &&& request.nonce == response.nonce
            &&& request.protocol == response.protocol
            &&& request.local_port != response.local_port
            &&& expected == request.local_port
            &&& got == response.local_port
        },
    }
}

/// Whether `e` says why the data of `response` does not answer the data of
/// `request`: that the opcodes differ, or, for two `Map` messages, the first
/// field that differs.
pub open spec fn explains(
    e: ValidateOpcodeDataError,
    request: OpcodeDataView,
    response: OpcodeDataView,
) -> bool {
    match e {
        ValidateOpcodeDataError::OpcodeMismatch => request.opcode() != response.opcode(),
        ValidateOpcodeDataError::MapData(e) => {
            &&& request matches OpcodeDataView::MapData(q)
            &&& response matches OpcodeDataView::MapData(a)
            &&& is_first_mismatch(q, a, e)
        },
    }
}

/// Checks that `Map` data of a response repeats the request's nonce,
/// protocol and local port, and reports the first that differs.
pub fn validate_map_data(request: &MapData, response: &MapData) -> (r: Result<
    (),
    ValidateMapDataError,
>)
    ensures
        r is Ok <==> map_data_accepts(request@, response@),
        r matches Err(e) ==> is_first_mismatch(request@, response@, e),
{
    if !nonce_eq(&request.nonce, &response.nonce) {
        return Err(
            ValidateMapDataError::NonceMismatch { expected: request.nonce, got: response.nonce },
        );
    }
    if request.protocol != response.protocol {
        return Err(
            ValidateMapDataError::ProtocolMismatch {
                expected: request.protocol,
                got: response.protocol,
            },
        );
    }
    if request.local_port != response.local_port {
        return Err(
            ValidateMapDataError::LocalPortMismatch {
                expected: request.local_port,
                got: response.local_port,
            },
        );
    }
    Ok(())
}

/// A `Map` response whose nonce is not the request's is never accepted, and
/// the only error that explains its rejection is a nonce mismatch that holds
/// both nonces.
pub proof fn lemma_foreign_nonce_is_rejected(
    request: RequestView,
    response: ResponseView,
    e: ValidateOpcodeDataError,
)
    requires
        request.opcode_data is MapData,
        response.data is MapData,
        request.opcode_data->MapData_0.nonce != response.data->MapData_0.nonce,
    ensures
        !accepts(request, response),
        explains(e, request.opcode_data, response.data) ==> {
            &&& e matches ValidateOpcodeDataError::MapData(
                ValidateMapDataError::NonceMismatch { expected, got },
            )
            &&& expected@ == request.opcode_data->MapData_0.nonce
            &&& got@ == response.data->MapData_0.nonce
        },
{
}

} // verus!
