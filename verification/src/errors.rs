//! The failure kinds that a handshake session can report.

use vstd::prelude::*;

verus! {

/// Declares `std::io::Error` so that the transport-failure variant below can
/// carry the transport's own error unchanged.  Relies on `std::io::Error`
/// being an ordinary owned error type; nothing about its contents is assumed.
#[verifier::external_type_specification]
#[verifier::external_body]
pub struct ExIoError(std::io::Error);

/// The ways the handshaking process can fail.
///
/// Every validation failure is terminal for its session: none is retried.
#[derive(Debug)]
pub enum HandshakeError {
    /// The protocol requires the first byte of the handshake to be a 3, so
    /// this error is encountered if any other value is in the first byte.
    BadVersionId,
    /// The protocol requires the second set of 4 bytes in the peer's
    /// challenge packet to all be zeroes, so this error is encountered if
    /// any of those bytes is not zero.
    NonZeroedTimeInPacket1,
    /// The peer did not send the same timestamp in its echo packet that we
    /// sent them in our challenge packet.
    IncorrectPeerTime,
    /// The peer did not send back the same random data in its echo packet
    /// that we sent them in our challenge packet.
    IncorrectRandomData,
    /// A handshake handler that already completed a successful handshake was
    /// asked to keep progressing.
    HandshakeAlreadyCompleted,
    /// An I/O error was encountered while reading the input; the underlying
    /// transport error is carried unchanged.
    Io(std::io::Error),
}

impl From<std::io::Error> for HandshakeError {
    fn from(error: std::io::Error) -> (r: Self) {
        HandshakeError::Io(error)
    }
}

impl vstd::std_specs::convert::FromSpecImpl<std::io::Error> for HandshakeError {
    open spec fn obeys_from_spec() -> bool {
        true
    }

    open spec fn from_spec(error: std::io::Error) -> Self {
        HandshakeError::Io(error)
    }
}

impl HandshakeError {
    /// A short description of the failure, for logging and diagnostics.
    pub fn message(&self) -> (r: &'static str)
        ensures
            self is BadVersionId ==> r@ == "First byte of the handshake did not start with a 3"@,
            self is NonZeroedTimeInPacket1 ==> r@
                == "Packet 1's 2nd time field was expected to be empty, but wasn't"@,
            self is IncorrectPeerTime ==> r@ == "Peer did not send the correct time back"@,
            self is IncorrectRandomData ==> r@
                == "Peer did not send the correct random data back"@,
            self is HandshakeAlreadyCompleted ==> r@
                == "Attempted to continue handshake process after completing handshake"@,
            self is Io ==> r@ == "An I/O error occurred while reading the input"@,
    {
        match self {
            HandshakeError::BadVersionId => "First byte of the handshake did not start with a 3",
            HandshakeError::NonZeroedTimeInPacket1 => "Packet 1's 2nd time field was expected to be empty, but wasn't",
            HandshakeError::IncorrectPeerTime => "Peer did not send the correct time back",
            HandshakeError::IncorrectRandomData => "Peer did not send the correct random data back",
            HandshakeError::HandshakeAlreadyCompleted => "Attempted to continue handshake process after completing handshake",
            HandshakeError::Io(_) => "An I/O error occurred while reading the input",
        }
    }
}

} // verus!
