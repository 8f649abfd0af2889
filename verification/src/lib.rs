//! Handshake phase of a streaming-media transport protocol.
//!
//! A session exchanges three pieces of data with its peer: a one-byte
//! protocol version, a challenge packet (timestamp, a zero field, and a
//! block of random payload bytes), and an echo packet proving that the
//! peer received the challenge.  The state machine in [`session`]
//! validates each inbound packet with the codec in [`codec`] and drives
//! the session to a terminal completed or failed result.

use vstd::prelude::*;

pub mod codec;
pub mod errors;
pub mod session;

verus! {

/// Protocol version that the first byte of the handshake must carry.
pub const RTMP_VERSION: u8 = 3;

/// Number of random payload bytes carried by every challenge and echo packet.
pub const RANDOM_PAYLOAD_SIZE: usize = 1536;

/// Encoded size of a challenge packet: 4-byte timestamp, 4-byte zero field, payload.
pub const CHALLENGE_PACKET_SIZE: usize = 8 + RANDOM_PAYLOAD_SIZE;

/// Encoded size of an echo packet: 4-byte echoed timestamp, 4-byte sender timestamp, payload.
pub const ECHO_PACKET_SIZE: usize = 8 + RANDOM_PAYLOAD_SIZE;

} // verus!
