//! Talking to a gateway: one exchange, and the operations built from it.
//!
//! The socket is not here. An exchange hands out the datagram to send and is
//! told what the socket reported; whoever owns the socket performs the I/O in
//! between and makes no decision of its own.

use vstd::prelude::*;
use crate::addr::{is_mapped, Ipv4, Ipv6};
use crate::proto::opcode_data::{MapDataView, OpcodeData, OpcodeDataView};
use crate::proto::request::{Request, RequestView};
use crate::proto::response::{DecodeError, Response, ResponseView};

pub mod recv;
pub mod send;
pub mod validate;

pub use self::recv::{recv, Received, RecvError};
pub use self::send::{send, send_outcome, IoFailure, SendError};
pub use self::validate::{
    accepts, explains, validate, validate_map_data, validate_opcode_data, ValidateError,
    ValidateMapDataError, ValidateOpcodeDataError,
};

verus! {

/// The port a gateway listens on.
pub const SERVER_PORT: u16 = 5351;

/// How long to wait for a response, in milliseconds.
pub const RECV_TIMEOUT_MILLIS: u64 = 500;

/// The lifetime to ask for, in seconds.
pub const RECOMMENDED_LIFETIME_SECONDS: u32 = 7200;

/// Why an exchange with the gateway failed.
#[derive(Debug, Clone, PartialEq, Eq)]
pub enum RequestError {
    /// The request did not go out.
    Send(SendError),
    /// No response was received.
    Recv(RecvError),
    /// A response was received that does not answer the request.
    Validate(ValidateError),
    /// The response answers the request but has an opcode the operation cannot use.
    UnexpectedOpcode(ValidateError),
}

/// An exchange whose request has yet to be sent.
#[derive(Debug, Clone, Copy, PartialEq, Eq)]
pub struct Sending {
    pub request: Request,
}

/// An exchange whose request went out and whose response is awaited.
#[derive(Debug, Clone, Copy, PartialEq, Eq)]
pub struct Receiving {
    pub request: Request,
}

/// Whether `r` is what an exchange for `request` ends with when the wait
/// for the response ended with `received`: a failure to receive, a response
/// that is rejected with the reason, or the response that answers `request`.
pub open spec fn concludes(
    request: RequestView,
    received: Received,
    r: Result<Response, RequestError>,
) -> bool {
    match received {
        Received::TimedOut => r == Err::<Response, RequestError>(
            RequestError::Recv(RecvError::Timeout),
        ),
        Received::Failed(failure) => r == Err::<Response, RequestError>(
            RequestError::Recv(RecvError::Recv(failure)),
        ),
        Received::Datagram(datagram) => match ResponseView::parse(datagram@) {
            Err(e) => r == Err::<Response, RequestError>(RequestError::Recv(RecvError::Protocol(e))),
            Ok(response) => if accepts(request, response) {
                r matches Ok(got) && got@ == response
            } else {
                r matches Err(RequestError::Validate(e)) && explains(
                    e,
                    request.opcode_data,
                    response.data,
                )
            },
        },
    }
}

/// Starts an exchange: returns the datagram to send to the gateway, and the
/// exchange that waits to hear how the send went.
pub fn request(req: Request) -> (r: (Sending, Vec<u8>))
    ensures
        r.0.request == req,
        r.1@ == req@.wire(),
{
    let datagram = req.encode();
    (Sending { request: req }, datagram)
}

impl Sending {
    /// Octets of the request's datagram.
    pub open spec fn expected(self) -> usize {
        self.request@.wire().len() as usize
    }

    /// Takes the socket's report of the send. If the whole datagram went
    /// out, the exchange goes on to wait for the response.
    pub fn sent(self, sent: Result<usize, IoFailure>) -> (r: Result<Receiving, RequestError>)
        ensures
            match send_outcome(self.expected(), sent) {
                Ok(_) => r matches Ok(next) && next.request == self.request,
                Err(e) => r == Err::<Receiving, RequestError>(RequestError::Send(e)),
            },
    {
        let expected = self.request.opcode_data.encoded_size() + 24;
        proof {
            crate::proto::request::lemma_request_round_trip(self.request@);
        }
        match send(expected, sent) {
            Ok(()) => Ok(Receiving { request: self.request }),
            Err(e) => Err(RequestError::Send(e)),
        }
    }

    /// Takes the socket's report of the send of a notification, for which no
    /// response is awaited.
    pub fn notified(self, sent: Result<usize, IoFailure>) -> (r: Result<(), SendError>)
        ensures
            r == send_outcome(self.expected(), sent),
    {
        let expected = self.request.opcode_data.encoded_size() + 24;
        proof {
            crate::proto::request::lemma_request_round_trip(self.request@);
        }
        send(expected, sent)
    }
}

impl Receiving {
    /// How long to wait for the response, in milliseconds.
    pub fn timeout_millis(&self) -> (t: u64)
        ensures
            t == RECV_TIMEOUT_MILLIS,
    {
        RECV_TIMEOUT_MILLIS
    }

    /// Takes what the wait for the response ended with. The response is
    /// handed out only if it decodes and answers the request.
    pub fn received(self, received: Received) -> (r: Result<Response, RequestError>)
        ensures
            concludes(self.request@, received, r),
    {
        let response = match recv(received) {
            Ok(response) => response,
            Err(e) => {
                return Err(RequestError::Recv(e));
            },
        };
        match validate(&self.request, &response) {
            Ok(()) => Ok(response),
            Err(e) => Err(RequestError::Validate(e)),
        }
    }
}

/// A mapping that a gateway holds for this client.
#[derive(Debug, Clone, PartialEq, Eq)]
pub struct Mapping {
    /// The caller's name for what the mapping serves.
    pub key: String,
    /// Local address the gateway forwards to.
    pub local_ip: Ipv4,
    /// Local port the gateway forwards to.
    pub local_port: u16,
    /// Address on the gateway's outer side.
    pub external_ip: Ipv4,
    /// Port on the gateway's outer side; never zero.
    pub external_port: u16,
    /// IANA protocol number of the mapped traffic.
    pub protocol: u8,
    /// Seconds the gateway granted.
    pub lifetime_seconds: u32,
    /// The nonce the mapping was made with, needed to change or delete it.
    pub nonce: [u8; 12],
    /// The gateway that holds the mapping.
    pub gateway: crate::addr::SocketV4,
    /// When the lifetime was granted, in seconds on the manager's clock.
    pub granted_at: u64,
    /// Renewals that failed since the lifetime was granted.
    pub renewal_failures: u32,
    /// When to renew the mapping, in seconds on the manager's clock.
    pub renew_at: u64,
}

/// What to ask of the gateway for one mapping.
#[derive(Debug, Clone, Copy, PartialEq, Eq)]
pub struct MappingRequest {
    pub protocol: u8,
    pub local_ip: Ipv4,
    pub local_port: u16,
    /// The external address hoped for, if any.
    pub requested_address: Option<Ipv4>,
    /// The external port hoped for, if any.
    pub requested_port: Option<u16>,
    pub requested_lifetime_seconds: u32,
    pub nonce: [u8; 12],
}

/// What the gateway granted for one mapping.
#[derive(Debug, Clone, Copy, PartialEq, Eq)]
pub struct MappingResponse {
    pub protocol: u8,
    pub local_ip: Ipv4,
    pub local_port: u16,
    pub external_address: Ipv4,
    /// Never zero.
    pub external_port: u16,
    pub lifetime_seconds: u32,
    pub nonce: [u8; 12],
}

/// Why a registration failed.
#[derive(Debug, Clone, PartialEq, Eq)]
pub enum RegisterError {
    /// The exchange with the gateway failed.
    Request(RequestError),
    /// The gateway answered with a result code other than success.
    ResultCode(u8),
    /// The external address granted is not an IPv4 address.
    ExternalIpIsNotV4(Ipv6),
    /// The external port granted is zero.
    ExternalPortIsZero,
}

impl Mapping {
    /// The external port of a mapping is a real port.
    pub open spec fn wf(&self) -> bool {
        self.external_port != 0
    }

    /// When the mapping is to be renewed.
    pub open spec fn lease(&self) -> crate::lease::Lease {
        crate::lease::Lease {
            granted_at: self.granted_at,
            lifetime_seconds: self.lifetime_seconds,
            failures: self.renewal_failures,
            due_at: self.renew_at,
        }
    }
}

impl MappingRequest {
    /// The protocol request that asks for this mapping.
    pub open spec fn request_view(&self) -> RequestView {
        RequestView::mapping(
            self.nonce@,
            self.protocol,
            self.local_port,
            self.local_ip.octets@,
            self.requested_port,
            match self.requested_address {
                Some(a) => Some(a.octets@),
                None => None,
            },
            self.requested_lifetime_seconds,
        )
    }

    /// The protocol request that asks for this mapping.
    pub fn request(&self) -> (req: Request)
        ensures
            req@ == self.request_view(),
    {
        Request::mapping(
            self.nonce,
            self.protocol,
            self.local_port,
            self.local_ip,
            self.requested_port,
            self.requested_address,
            self.requested_lifetime_seconds,
        )
    }
}

/// Whether `r` is what a registration of `req` ends with when the exchange
/// with the gateway ended with `exchanged`.
///
/// A failed exchange fails the registration. Of a response, in this order:
/// it has `Map` data, its result code is success, its external address is an
/// IPv4 address in IPv4-mapped form, and its external port is not zero. The
/// grant then holds what the response says, under the local address asked for.
pub open spec fn register_outcome(
    req: MappingRequest,
    exchanged: Result<Response, RequestError>,
    r: Result<MappingResponse, RegisterError>,
) -> bool {
    match exchanged {
        Err(e) => r == Err::<MappingResponse, RegisterError>(RegisterError::Request(e)),
        Ok(response) => match response.data {
            OpcodeData::Announce => r == Err::<MappingResponse, RegisterError>(
                RegisterError::Request(
                    RequestError::UnexpectedOpcode(ValidateOpcodeDataError::OpcodeMismatch),
                ),
            ),
            OpcodeData::MapData(map) => if response.result_code != 0 {
                r == Err::<MappingResponse, RegisterError>(
                    RegisterError::ResultCode(response.result_code),
                )
            } else if !is_mapped(map.external_address.octets@) {
                r == Err::<MappingResponse, RegisterError>(
                    RegisterError::ExternalIpIsNotV4(map.external_address),
                )
            } else if map.external_port == 0 {
                r == Err::<MappingResponse, RegisterError>(RegisterError::ExternalPortIsZero)
            } else {
                &&& r matches Ok(granted)
                &&& granted.protocol == map.protocol
                &&& granted.local_ip == req.local_ip
                &&& granted.local_port == map.local_port
                &&& granted.external_address.octets@ == map.external_address.octets@.subrange(
                    12,
                    16,
                )
                &&& granted.external_port == map.external_port
                &&& granted.lifetime_seconds == response.lifetime_seconds
                &&& granted.nonce == map.nonce
            },
        },
    }
}

/// Concludes a registration: `exchanged` is what the exchange of
/// `req.request()` with the gateway ended with.
pub fn register(req: &MappingRequest, exchanged: Result<Response, RequestError>) -> (r: Result<
    MappingResponse,
    RegisterError,
>)
    ensures
        register_outcome(*req, exchanged, r),
{
    let response = match exchanged {
        Ok(response) => response,
        Err(e) => {
            return Err(RegisterError::Request(e));
        },
    };
    let map = match response.data {
        OpcodeData::MapData(map) => map,
        OpcodeData::Announce => {
            return Err(
                RegisterError::Request(
                    RequestError::UnexpectedOpcode(ValidateOpcodeDataError::OpcodeMismatch),
                ),
            );
        },
    };
    if !response.is_success() {
        return Err(RegisterError::ResultCode(response.result_code));
    }
    let external_address = match map.external_address.to_ipv4_mapped() {
        Some(ip) => ip,
        None => {
            return Err(RegisterError::ExternalIpIsNotV4(map.external_address));
        },
    };
    if map.external_port == 0 {
        return Err(RegisterError::ExternalPortIsZero);
    }
    Ok(
        MappingResponse {
            protocol: map.protocol,
            local_ip: req.local_ip,
            local_port: map.local_port,
            external_address,
            external_port: map.external_port,
            lifetime_seconds: response.lifetime_seconds,
            nonce: map.nonce,
        },
    )
}

/// The notification that tells the gateway to delete a mapping: a `Map`
/// request with a lifetime of zero and no preference for the external side.
/// No response to it is awaited.
pub fn release(protocol: u8, local_ip: Ipv4, local_port: u16, nonce: [u8; 12]) -> (req: Request)
    ensures
        req@ == RequestView::mapping(
            nonce@,
            protocol,
            local_port,
            local_ip.octets@,
            None,
            None,
            0,
        ),
{
    Request::mapping(nonce, protocol, local_port, local_ip, None, None, 0)
}

/// The request that probes a gateway from `local_ip`.
pub fn probe(local_ip: Ipv4) -> (req: Request)
    ensures
        req@ == RequestView::announce(crate::addr::mapped_octets(local_ip.octets@)),
{
    Request::announce(local_ip.to_ipv6_mapped())
}

/// Concludes a probe: the gateway is there if the exchange of the probe
/// ended with an `Announce` response. Every failure means that it is not.
pub fn is_gateway_available(exchanged: Result<Response, RequestError>) -> (available: bool)
    ensures
        available <==> (exchanged matches Ok(response) && response.data is Announce),
{
    match exchanged {
        Ok(response) => match response.data {
            OpcodeData::Announce => true,
            _ => false,
        },
        Err(_) => false,
    }
}

/// The response of a gateway that echoes a request: it has the request's
/// opcode and, for `Map`, repeats the request's nonce, protocol and local
/// port; the result code, the times and the external side are the gateway's.
pub open spec fn echo(
    request: RequestView,
    result_code: u8,
    lifetime_seconds: u32,
    epoch_time: u32,
    external_port: u16,
    external_address: Seq<u8>,
) -> ResponseView {
    ResponseView {
        result_code,
        lifetime_seconds,
        epoch_time,
        data: match request.opcode_data {
            OpcodeDataView::Announce => OpcodeDataView::Announce,
            OpcodeDataView::MapData(m) => OpcodeDataView::MapData(
                MapDataView { external_port, external_address, ..m },
            ),
        },
    }
}

/// A request survives the wire, and the response of a gateway that echoes it
/// is taken for its answer: the gateway reads from the request's datagram
/// the request that was written, the client reads from the response's
/// datagram the response that was written, the response passes validation,
/// and the exchange ends with that response.
pub proof fn lemma_echo_is_accepted(
    request: RequestView,
    result_code: u8,
    lifetime_seconds: u32,
    epoch_time: u32,
    external_port: u16,
    external_address: Seq<u8>,
    datagram: Vec<u8>,
    r: Result<Response, RequestError>,
)
    requires
        request.wf(),
        external_address.len() == 16,
        datagram@ == echo(
            request,
            result_code,
            lifetime_seconds,
            epoch_time,
            external_port,
            external_address,
        ).wire(),
        concludes(request, Received::Datagram(datagram), r),
    ensures
        ({
            let response = echo(
                request,
                result_code,
                lifetime_seconds,
                epoch_time,
                external_port,
                external_address,
            );
            &&& RequestView::parse(request.wire()) == Ok::<RequestView, DecodeError>(request)
            &&& ResponseView::parse(response.wire()) == Ok::<ResponseView, DecodeError>(response)
            &&& accepts(request, response)
            &&& r matches Ok(got) && got@ == response
        }),
{
    let response = echo(
        request,
        result_code,
        lifetime_seconds,
        epoch_time,
        external_port,
        external_address,
    );
    crate::proto::request::lemma_request_round_trip(request);
    crate::proto::response::lemma_response_round_trip(response);
}

/// A wait that times out ends the exchange with a failure to receive,
/// whatever the request: never with a validation failure, never with a response.
pub proof fn lemma_timeout_is_recv_failure(request: RequestView, r: Result<Response, RequestError>)
    requires
        concludes(request, Received::TimedOut, r),
    ensures
        r == Err::<Response, RequestError>(RequestError::Recv(RecvError::Timeout)),
        !(r is Ok),
        !(r matches Err(RequestError::Validate(_))),
{
}

} // verus!
