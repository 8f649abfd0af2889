//! Encoding and decoding of the packets exchanged during the handshake.
//!
//! Three packets cross the wire: a single version byte, a challenge packet
//! (big-endian timestamp, a field that must be all zeroes as received, and
//! the random payload), and an echo packet (the peer's timestamp echoed
//! back, the sender's own timestamp, and the peer's payload copied
//! verbatim).  Decoding validates structure only; comparing an echo against
//! previously stored session values is the state machine's job.

use vstd::prelude::*;

use crate::errors::HandshakeError;
use crate::CHALLENGE_PACKET_SIZE;
use crate::ECHO_PACKET_SIZE;
use crate::RTMP_VERSION;

verus! {

/// The big-endian byte image of a 32-bit timestamp.
pub open spec fn spec_u32_to_be_bytes(t: u32) -> Seq<u8> {
    seq![
        ((t >> 24) & 0xff) as u8,
        ((t >> 16) & 0xff) as u8,
        ((t >> 8) & 0xff) as u8,
        (t & 0xff) as u8,
    ]
}

/// The 32-bit timestamp read big-endian from four bytes.
pub open spec fn spec_u32_from_be_bytes(b: Seq<u8>) -> u32
    recommends
        b.len() == 4,
{
    ((b[0] as u32) << 24) | ((b[1] as u32) << 16) | ((b[2] as u32) << 8) | (b[3] as u32)
}

/// The wire image of a challenge packet: timestamp, four zero bytes, payload.
pub open spec fn spec_encode_challenge(time: u32, payload: Seq<u8>) -> Seq<u8> {
    spec_u32_to_be_bytes(time) + seq![0u8, 0u8, 0u8, 0u8] + payload
}

/// The wire image of an echo packet: echoed timestamp, sender timestamp, payload.
pub open spec fn spec_encode_echo(echoed_time: u32, sender_time: u32, payload: Seq<u8>) -> Seq<u8> {
    spec_u32_to_be_bytes(echoed_time) + spec_u32_to_be_bytes(sender_time) + payload
}

/// Whether the zero field of an encoded challenge packet is all zero bytes.
pub open spec fn spec_challenge_zero_field_ok(bytes: Seq<u8>) -> bool
    recommends
        bytes.len() == CHALLENGE_PACKET_SIZE,
{
    forall|i: int| 4 <= i < 8 ==> bytes[i] == 0
}

/// The timestamp field of an encoded challenge packet.
pub open spec fn spec_challenge_time(bytes: Seq<u8>) -> u32
    recommends
        bytes.len() == CHALLENGE_PACKET_SIZE,
{
    spec_u32_from_be_bytes(bytes.subrange(0, 4))
}

/// The payload field of an encoded challenge packet.
pub open spec fn spec_challenge_payload(bytes: Seq<u8>) -> Seq<u8>
    recommends
        bytes.len() == CHALLENGE_PACKET_SIZE,
{
    bytes.subrange(8, bytes.len() as int)
}

/// The echoed-timestamp field of an encoded echo packet.
pub open spec fn spec_echo_echoed_time(bytes: Seq<u8>) -> u32
    recommends
        bytes.len() == ECHO_PACKET_SIZE,
{
    spec_u32_from_be_bytes(bytes.subrange(0, 4))
}

/// The sender-timestamp field of an encoded echo packet.
pub open spec fn spec_echo_sender_time(bytes: Seq<u8>) -> u32
    recommends
        bytes.len() == ECHO_PACKET_SIZE,
{
    spec_u32_from_be_bytes(bytes.subrange(4, 8))
}

/// The payload field of an encoded echo packet.
pub open spec fn spec_echo_payload(bytes: Seq<u8>) -> Seq<u8>
    recommends
        bytes.len() == ECHO_PACKET_SIZE,
{
    bytes.subrange(8, bytes.len() as int)
}

/// A decoded challenge packet.  The zero field is checked during decoding
/// and carried implicitly: a decoded packet always had it all zero.
pub struct ChallengePacket {
    /// The timestamp the peer sent with its challenge.
    pub time: u32,
    /// The random payload the peer sent, to be echoed back to it.
    pub random_data: Vec<u8>,
}

/// A decoded echo packet.  Whether the echoed fields match what this side
/// originally sent is for the state machine to decide.
pub struct EchoPacket {
    /// The timestamp the peer claims to echo from our challenge.
    pub echoed_time: u32,
    /// The timestamp at which the peer generated this echo.
    pub sender_time: u32,
    /// The random data the peer claims to echo from our challenge.
    pub random_data: Vec<u8>,
}

/// Appends the big-endian byte image of `t`.
fn push_u32_be(out: &mut Vec<u8>, t: u32)
    ensures
        final(out)@ == old(out)@ + spec_u32_to_be_bytes(t),
{
    out.push(((t >> 24) & 0xff) as u8);
    out.push(((t >> 16) & 0xff) as u8);
    out.push(((t >> 8) & 0xff) as u8);
    out.push((t & 0xff) as u8);
    assert(out@ =~= old(out)@ + spec_u32_to_be_bytes(t));
}

/// Appends every byte of `src`.
pub(crate) fn push_bytes(out: &mut Vec<u8>, src: &[u8])
    ensures
        final(out)@ == old(out)@ + src@,
{
    let mut i: usize = 0;
    while i < src.len()
        invariant
            i <= src@.len(),
            out@ == old(out)@ + src@.subrange(0, i as int),
        decreases src@.len() - i,
    {
        out.push(src[i]);
        assert(out@ =~= old(out)@ + src@.subrange(0, i + 1));
        i = i + 1;
    }
    assert(out@ =~= old(out)@ + src@);
}

/// Reads the big-endian 32-bit value at `pos`.
fn read_u32_be(b: &[u8], pos: usize) -> (t: u32)
    requires
        pos + 4 <= b@.len(),
    ensures
        t == spec_u32_from_be_bytes(b@.subrange(pos as int, pos + 4)),
{
    let t = ((b[pos] as u32) << 24) | ((b[pos + 1] as u32) << 16) | ((b[pos + 2] as u32) << 8) | (
    b[pos + 3] as u32);
    proof {
        let s = b@.subrange(pos as int, pos + 4);
        assert(s[0] == b@[pos as int]);
        assert(s[1] == b@[pos as int + 1]);
        assert(s[2] == b@[pos as int + 2]);
        assert(s[3] == b@[pos as int + 3]);
    }
    t
}

/// Copies the bytes of `src` in the range `start..end` into a fresh vector.
fn copy_range(src: &[u8], start: usize, end: usize) -> (out: Vec<u8>)
    requires
        start <= end <= src@.len(),
    ensures
        out@ == src@.subrange(start as int, end as int),
{
    let mut out: Vec<u8> = Vec::new();
    let mut i: usize = start;
    while i < end
        invariant
            start <= i <= end <= src@.len(),
            out@ == src@.subrange(start as int, i as int),
        decreases end - i,
    {
        out.push(src[i]);
        assert(out@ =~= src@.subrange(start as int, i + 1));
        i = i + 1;
    }
    out
}

/// Whether two byte strings are equal, byte for byte.
pub fn bytes_equal(a: &[u8], b: &[u8]) -> (r: bool)
    ensures
        r == (a@ == b@),
{
    if a.len() != b.len() {
        return false;
    }
    let mut i: usize = 0;
    while i < a.len()
        invariant
            i <= a@.len(),
            a@.len() == b@.len(),
            forall|j: int| 0 <= j < i ==> a@[j] == b@[j],
        decreases a@.len() - i,
    {
        if a[i] != b[i] {
            return false;
        }
        i = i + 1;
    }
    assert(a@ =~= b@);
    true
}

/// Checks the version byte that opens the peer's side of the handshake.
pub fn decode_version(byte: u8) -> (r: Result<u8, HandshakeError>)
    ensures
        byte == RTMP_VERSION ==> (r matches Ok(v) && v == byte),
        byte != RTMP_VERSION ==> (r matches Err(e) && e is BadVersionId),
{
    if byte == RTMP_VERSION {
        Ok(byte)
    } else {
        Err(HandshakeError::BadVersionId)
    }
}

/// Serializes a challenge packet; the zero field is produced by construction.
pub fn encode_challenge(packet: &ChallengePacket) -> (bytes: Vec<u8>)
    ensures
        bytes@ == spec_encode_challenge(packet.time, packet.random_data@),
{
    let mut out: Vec<u8> = Vec::new();
    push_u32_be(&mut out, packet.time);
    out.push(0);
    out.push(0);
    out.push(0);
    out.push(0);
    push_bytes(&mut out, packet.random_data.as_slice());
    assert(out@ =~= spec_encode_challenge(packet.time, packet.random_data@));
    out
}

/// Serializes an echo packet.
pub fn encode_echo(packet: &EchoPacket) -> (bytes: Vec<u8>)
    ensures
        bytes@ == spec_encode_echo(packet.echoed_time, packet.sender_time, packet.random_data@),
{
    let mut out: Vec<u8> = Vec::new();
    push_u32_be(&mut out, packet.echoed_time);
    push_u32_be(&mut out, packet.sender_time);
    push_bytes(&mut out, packet.random_data.as_slice());
    assert(out@ =~= spec_encode_echo(packet.echoed_time, packet.sender_time, packet.random_data@));
    out
}

/// Parses a challenge packet, rejecting one whose zero field holds any
/// non-zero byte.
pub fn decode_challenge(bytes: &[u8]) -> (r: Result<ChallengePacket, HandshakeError>)
    requires
        bytes@.len() == CHALLENGE_PACKET_SIZE,
    ensures
        spec_challenge_zero_field_ok(bytes@) ==> (r matches Ok(p) && p.time
            == spec_challenge_time(bytes@) && p.random_data@ == spec_challenge_payload(bytes@)),
        !spec_challenge_zero_field_ok(bytes@) ==> (r matches Err(e)
            && e is NonZeroedTimeInPacket1),
{
    if bytes[4] != 0 || bytes[5] != 0 || bytes[6] != 0 || bytes[7] != 0 {
        return Err(HandshakeError::NonZeroedTimeInPacket1);
    }
    let time = read_u32_be(bytes, 0);
    let random_data = copy_range(bytes, 8, CHALLENGE_PACKET_SIZE);
    Ok(ChallengePacket { time, random_data })
}

/// Parses an echo packet.  Parsing alone cannot fail: whether the echoed
/// fields are the expected ones is checked against the session's stored
/// values by the state machine.
pub fn decode_echo(bytes: &[u8]) -> (p: EchoPacket)
    requires
        bytes@.len() == ECHO_PACKET_SIZE,
    ensures
        p.echoed_time == spec_echo_echoed_time(bytes@),
        p.sender_time == spec_echo_sender_time(bytes@),
        p.random_data@ == spec_echo_payload(bytes@),
{
    let echoed_time = read_u32_be(bytes, 0);
    let sender_time = read_u32_be(bytes, 4);
    let random_data = copy_range(bytes, 8, ECHO_PACKET_SIZE);
    EchoPacket { echoed_time, sender_time, random_data }
}

/// Reading four bytes big-endian undoes writing a timestamp big-endian.
pub proof fn lemma_u32_be_round_trip(t: u32)
    ensures
        spec_u32_from_be_bytes(spec_u32_to_be_bytes(t)) == t,
{
    let b = spec_u32_to_be_bytes(t);
    assert((((((t >> 24) & 0xff) as u8) as u32) << 24) | (((((t >> 16) & 0xff) as u8) as u32)
        << 16) | (((((t >> 8) & 0xff) as u8) as u32) << 8) | (((t & 0xff) as u8) as u32) == t)
        by (bit_vector);
}

/// Encoding a challenge packet and decoding the result reproduces the
/// identical timestamp, an all-zero zero field, and the identical payload.
pub proof fn lemma_challenge_round_trip(time: u32, payload: Seq<u8>)
    ensures
        spec_encode_challenge(time, payload).len() == 8 + payload.len(),
        spec_challenge_zero_field_ok(spec_encode_challenge(time, payload)),
        spec_challenge_time(spec_encode_challenge(time, payload)) == time,
        spec_challenge_payload(spec_encode_challenge(time, payload)) == payload,
{
    let bytes = spec_encode_challenge(time, payload);
    assert(bytes.subrange(0, 4) =~= spec_u32_to_be_bytes(time));
    lemma_u32_be_round_trip(time);
    assert(bytes.subrange(8, bytes.len() as int) =~= payload);
}

/// Encoding an echo packet and decoding the result reproduces the identical
/// echoed timestamp, sender timestamp, and payload.
pub proof fn lemma_echo_round_trip(echoed_time: u32, sender_time: u32, payload: Seq<u8>)
    ensures
        spec_encode_echo(echoed_time, sender_time, payload).len() == 8 + payload.len(),
        spec_echo_echoed_time(spec_encode_echo(echoed_time, sender_time, payload)) == echoed_time,
        spec_echo_sender_time(spec_encode_echo(echoed_time, sender_time, payload)) == sender_time,
        spec_echo_payload(spec_encode_echo(echoed_time, sender_time, payload)) == payload,
{
    let bytes = spec_encode_echo(echoed_time, sender_time, payload);
    assert(bytes.subrange(0, 4) =~= spec_u32_to_be_bytes(echoed_time));
    assert(bytes.subrange(4, 8) =~= spec_u32_to_be_bytes(sender_time));
    lemma_u32_be_round_trip(echoed_time);
    lemma_u32_be_round_trip(sender_time);
    assert(bytes.subrange(8, bytes.len() as int) =~= payload);
}

} // verus!
