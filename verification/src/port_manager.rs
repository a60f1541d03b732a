//! From the forwards a controller asks for to the mappings asked of a gateway.
//!
//! A controller names the forwards of one object as a key and a list of
//! ports with the names of their protocols. The lifecycle manager registers
//! one mapping for each, under that key.

use vstd::prelude::*;
use crate::mapper::Request;
use crate::reconciler::{PortForwardItem, PortForwardMap};

verus! {

/// Why a forward cannot be asked of a gateway.
#[derive(Debug, Clone, Copy, PartialEq, Eq, Structural)]
pub enum ForwardError {
    /// The port of the item at `index` is not between 1 and 65535.
    PortOutOfRange { index: usize, port: i32 },
    /// The protocol of the item at `index` is not one that can be mapped.
    UnknownProtocol { index: usize },
}

impl ForwardError {
    /// Where in the list the item stands that the error is about.
    pub open spec fn index(self) -> usize {
        match self {
            ForwardError::PortOutOfRange { index, .. } => index,
            ForwardError::UnknownProtocol { index } => index,
        }
    }
}

/// The IANA number of the protocol with the given name: 6 for `TCP`, 17 for
/// `UDP`, 132 for `SCTP`.
pub open spec fn protocol_number_of(name: Seq<char>) -> Option<u8> {
    if name == "TCP"@ {
        Some(6u8)
    } else if name == "UDP"@ {
        Some(17u8)
    } else if name == "SCTP"@ {
        Some(132u8)
    } else {
        None
    }
}

/// Whether a number is a port.
pub open spec fn is_port(port: i32) -> bool {
    1 <= port <= 65535
}

/// The mapping to ask for one forward, or why there is none: the gateway's
/// external port is the port routed from, the local port is the port routed to.
pub open spec fn request_of(item: PortForwardItem, index: usize) -> Result<Request, ForwardError> {
    if !is_port(item.from) {
        Err(ForwardError::PortOutOfRange { index, port: item.from })
    } else if !is_port(item.to) {
        Err(ForwardError::PortOutOfRange { index, port: item.to })
    } else {
        match protocol_number_of(item.protocol@) {
            None => Err(ForwardError::UnknownProtocol { index }),
            Some(protocol) => Ok(
                Request {
                    local_port: item.to as u16,
                    external_port: item.from as u16,
                    protocol,
                },
            ),
        }
    }
}

/// The IANA number of the protocol with the given name.
pub fn protocol_number(name: &String) -> (number: Option<u8>)
    ensures
        number == protocol_number_of(name@),
{
    if *name == "TCP".to_owned() {
        Some(6)
    } else if *name == "UDP".to_owned() {
        Some(17)
    } else if *name == "SCTP".to_owned() {
        Some(132)
    } else {
        None
    }
}

/// The mapping to ask for the forward at `index` of a list.
pub fn forward_request(item: &PortForwardItem, index: usize) -> (r: Result<Request, ForwardError>)
    ensures
        r == request_of(*item, index),
{
    if item.from < 1 || item.from > 65535 {
        return Err(ForwardError::PortOutOfRange { index, port: item.from });
    }
    if item.to < 1 || item.to > 65535 {
        return Err(ForwardError::PortOutOfRange { index, port: item.to });
    }
    match protocol_number(&item.protocol) {
        None => Err(ForwardError::UnknownProtocol { index }),
        Some(protocol) => Ok(
            Request { local_port: item.to as u16, external_port: item.from as u16, protocol },
        ),
    }
}

/// The mappings to ask for the forwards of `map`, one for each item in the
/// order of the list; the error of the first item that has none.
pub fn forward_requests(map: &PortForwardMap) -> (r: Result<Vec<Request>, ForwardError>)
    ensures
        match r {
            Ok(requests) => {
                &&& requests@.len() == map.ports@.len()
                &&& forall|i: int|
                    0 <= i < requests@.len() ==> request_of(map.ports@[i], i as usize) == Ok::<
                        Request,
                        ForwardError,
                    >(#[trigger] requests@[i])
            },
            Err(e) => {
                &&& e.index() < map.ports@.len()
                &&& request_of(map.ports@[e.index() as int], e.index()) == Err::<
                    Request,
                    ForwardError,
                >(e)
                &&& forall|j: int|
                    0 <= j < e.index() ==> request_of(#[trigger] map.ports@[j], j as usize) is Ok
            },
        },
{
    let mut requests: Vec<Request> = Vec::new();
    let mut i: usize = 0;
    while i < map.ports.len()
        invariant
            i <= map.ports@.len(),
            requests@.len() == i,
            forall|j: int|
                0 <= j < i ==> request_of(map.ports@[j], j as usize) == Ok::<Request, ForwardError>(
                    #[trigger] requests@[j],
                ),
        decreases map.ports@.len() - i,
    {
        match forward_request(&map.ports[i], i) {
            Ok(request) => {
                requests.push(request);
            },
            Err(e) => {
                proof {
                    assert(request_of(map.ports@[i as int], i) == Err::<Request, ForwardError>(e));
                    assert forall|j: int| 0 <= j < i implies request_of(
                        #[trigger] map.ports@[j],
                        j as usize,
                    ) is Ok by {
                        assert(request_of(map.ports@[j], j as usize) == Ok::<Request, ForwardError>(
                            requests@[j],
                        ));
                    }
                }
                return Err(e);
            },
        }
        i += 1;
    }
    Ok(requests)
}

} // verus!
