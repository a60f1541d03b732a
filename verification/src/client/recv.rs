//! Judging what came back from waiting for a response.

use vstd::prelude::*;
use crate::client::send::IoFailure;
use crate::proto::response::{DecodeError, Response, ResponseView};

verus! {

/// What a bounded wait on the socket ended with.
#[derive(Debug, Clone, PartialEq, Eq)]
pub enum Received {
    /// A datagram arrived in time.
    Datagram(Vec<u8>),
    /// The socket failed.
    Failed(IoFailure),
    /// Nothing arrived within the timeout.
    TimedOut,
}

/// Why no response was received.
#[derive(Debug, Clone, PartialEq, Eq)]
pub enum RecvError {
    /// The socket failed.
    Recv(IoFailure),
    /// Nothing arrived within the timeout.
    Timeout,
    /// A datagram arrived that is not a response.
    Protocol(DecodeError),
}

/// Judges the end of a wait: a datagram that arrived in time is decoded, a
/// timeout, a socket failure and an undecodable datagram are told apart.
pub fn recv(received: Received) -> (r: Result<Response, RecvError>)
    ensures
        match received {
            Received::TimedOut => r == Err::<Response, RecvError>(RecvError::Timeout),
            Received::Failed(failure) => r == Err::<Response, RecvError>(RecvError::Recv(failure)),
            Received::Datagram(datagram) => match ResponseView::parse(datagram@) {
                Ok(response) => r matches Ok(got) && got@ == response,
                Err(e) => r == Err::<Response, RecvError>(RecvError::Protocol(e)),
            },
        },
{
    match received {
        Received::TimedOut => Err(RecvError::Timeout),
        Received::Failed(failure) => Err(RecvError::Recv(failure)),
        Received::Datagram(datagram) => match Response::decode(datagram.as_slice()) {
            Ok(response) => Ok(response),
            Err(e) => Err(RecvError::Protocol(e)),
        },
    }
}

} // verus!
