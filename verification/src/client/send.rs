//! Judging what the socket reported for a datagram handed to it.

use vstd::prelude::*;

verus! {

/// What the socket reported when an operation on it failed.
#[derive(Debug, Clone, PartialEq, Eq)]
pub struct IoFailure {
    /// The operating system's error number, where there is one.
    pub code: Option<i32>,
    /// The failure in words.
    pub message: String,
}

/// Why a request did not go out.
#[derive(Debug, Clone, PartialEq, Eq)]
pub enum SendError {
    /// The socket refused the datagram.
    SendTo(IoFailure),
    /// The socket took fewer octets than the datagram has.
    SizeMismatch { expected: usize, actual: usize },
}

/// What a send ends with, where the socket returned `sent` for a datagram
/// of `expected` octets: the datagram went out only if the socket took all
/// of it.
pub open spec fn send_outcome(expected: usize, sent: Result<usize, IoFailure>) -> Result<
    (),
    SendError,
> {
    match sent {
        Ok(actual) => if actual == expected {
            Ok(())
        } else {
            Err(SendError::SizeMismatch { expected, actual })
        },
        Err(failure) => Err(SendError::SendTo(failure)),
    }
}

/// Judges the report of a send: `sent` is what the socket returned for a
/// datagram of `expected` octets.
pub fn send(expected: usize, sent: Result<usize, IoFailure>) -> (r: Result<(), SendError>)
    ensures
        r == send_outcome(expected, sent),
{
    match sent {
        Err(failure) => Err(SendError::SendTo(failure)),
        Ok(actual) => {
            if actual != expected {
                Err(SendError::SizeMismatch { expected, actual })
            } else {
                Ok(())
            }
        },
    }
}

} // verus!
