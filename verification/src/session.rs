//! The handshake state machine.
//!
//! A session is created with the locally generated timestamp and random
//! payload (the time/random source is injected by the caller, so tests can
//! be deterministic) and immediately yields the bytes to send first: the
//! version byte followed by the local challenge packet.  Inbound bytes are
//! then fed to [`HandshakeSession::process`] as they arrive; the session
//! buffers partial packets, validates each complete packet, answers the
//! peer's challenge with an echo, and ends in a terminal completed or
//! failed state.  The caller owns all transport I/O.

use vstd::prelude::*;

use crate::codec::bytes_equal;
use crate::codec::push_bytes;
use crate::codec::decode_challenge;
use crate::codec::decode_echo;
use crate::codec::decode_version;
use crate::codec::encode_challenge;
use crate::codec::encode_echo;
use crate::codec::spec_challenge_payload;
use crate::codec::spec_challenge_time;
use crate::codec::spec_challenge_zero_field_ok;
use crate::codec::spec_echo_echoed_time;
use crate::codec::spec_echo_payload;
use crate::codec::spec_encode_challenge;
use crate::codec::spec_encode_echo;
use crate::codec::ChallengePacket;
use crate::codec::EchoPacket;
use crate::errors::HandshakeError;
use crate::CHALLENGE_PACKET_SIZE;
use crate::ECHO_PACKET_SIZE;
use crate::RANDOM_PAYLOAD_SIZE;
use crate::RTMP_VERSION;

verus! {

/// Which side of the connection this session plays.  Both roles run the
/// same packet sequence; the role is kept for diagnostics.
#[derive(Clone, Copy, Debug, PartialEq, Eq, Structural)]
pub enum PeerRole {
    /// The side that opened the connection.
    Initiator,
    /// The side that accepted the connection.
    Responder,
}

/// The validation failure that drove a session into its failed state.
#[derive(Clone, Copy, Debug, PartialEq, Eq, Structural)]
pub enum FailureReason {
    /// The peer's version byte was not the required constant.
    BadVersionId,
    /// The zero field of the peer's challenge held a non-zero byte.
    NonZeroedTimeInPacket1,
    /// The peer echoed a timestamp other than the one we sent.
    IncorrectPeerTime,
    /// The peer echoed random data other than the bytes we sent.
    IncorrectRandomData,
}

/// Where a session stands in the fixed packet sequence.
#[derive(Clone, Copy, Debug, PartialEq, Eq, Structural)]
pub enum HandshakeState {
    /// Waiting for the peer's version byte and challenge packet.
    AwaitingPeerVersionAndChallenge,
    /// Waiting for the peer's echo packet.
    AwaitingPeerEcho,
    /// Terminal success; no further packet processing is permitted.
    Completed,
    /// Terminal failure; the reason is surfaced again on any further call.
    Failed { reason: FailureReason },
}

/// What one successful `process` call tells the caller's I/O loop.
#[derive(Debug)]
pub enum ProcessResult {
    /// More input is needed; `response_bytes` (possibly empty) must be sent
    /// to the peer first.
    InProgress { response_bytes: Vec<u8> },
    /// The handshake completed.  `response_bytes` must still be sent, and
    /// `remaining_bytes` arrived after the handshake and belong to the next
    /// protocol phase.
    Completed { response_bytes: Vec<u8>, remaining_bytes: Vec<u8> },
}

/// The mathematical model of a session: its state, the buffered inbound
/// bytes, and the locally generated values kept for verifying the echo.
#[verifier::ext_equal]
pub struct SpecSession {
    /// Which side this session plays.
    pub role: PeerRole,
    /// Where the session stands.
    pub state: HandshakeState,
    /// Inbound bytes accumulated until a full packet is available.
    pub buffer: Seq<u8>,
    /// The timestamp this side sent in its challenge.
    pub my_time: u32,
    /// The random payload this side sent in its challenge.
    pub my_payload: Seq<u8>,
}

/// The mathematical model of one `process` call's outcome.
pub enum SpecOutcome {
    /// More input is needed after sending `response`.
    InProgress { response: Seq<u8> },
    /// The handshake completed; `remaining` holds unconsumed input.
    Completed { response: Seq<u8>, remaining: Seq<u8> },
    /// A validation failure ended the session.
    Rejected { reason: FailureReason },
    /// The session had already completed before the call.
    AlreadyDone,
}

/// Whether the error `e` reports the validation failure `reason`.
pub open spec fn error_matches_reason(e: HandshakeError, reason: FailureReason) -> bool {
    match reason {
        FailureReason::BadVersionId => e is BadVersionId,
        FailureReason::NonZeroedTimeInPacket1 => e is NonZeroedTimeInPacket1,
        FailureReason::IncorrectPeerTime => e is IncorrectPeerTime,
        FailureReason::IncorrectRandomData => e is IncorrectRandomData,
    }
}

/// Whether the value `process` returned reports the modelled outcome.
pub open spec fn outcome_matches(r: Result<ProcessResult, HandshakeError>, out: SpecOutcome) -> bool {
    match out {
        SpecOutcome::InProgress { response } => r matches Ok(p) && p matches
            ProcessResult::InProgress { response_bytes } && response_bytes@ == response,
        SpecOutcome::Completed { response, remaining } => r matches Ok(p) && p matches
            ProcessResult::Completed { response_bytes, remaining_bytes } && response_bytes@
            == response && remaining_bytes@ == remaining,
        SpecOutcome::Rejected { reason } => r matches Err(e) && error_matches_reason(e, reason),
        SpecOutcome::AlreadyDone => r matches Err(e) && e is HandshakeAlreadyCompleted,
    }
}

/// The step taken while waiting for the peer's version byte and challenge,
/// once the session's buffer and the new input have been joined into
/// `full`.  The version byte is judged the moment it is there: a wrong one
/// fails the session before any further bytes are consumed or even waited
/// for.  A complete, valid challenge is answered with this side's echo
/// packet, and any remaining bytes are treated at once as the start of the
/// peer's echo.
pub open spec fn spec_step_challenge(s: SpecSession, full: Seq<u8>) -> (SpecSession, SpecOutcome) {
    if full.len() < 1 {
        (
            SpecSession { state: HandshakeState::AwaitingPeerVersionAndChallenge, buffer: full, ..s },
            SpecOutcome::InProgress { response: Seq::empty() },
        )
    } else if full[0] != RTMP_VERSION {
        (
            SpecSession {
                state: HandshakeState::Failed { reason: FailureReason::BadVersionId },
                buffer: full,
                ..s
            },
            SpecOutcome::Rejected { reason: FailureReason::BadVersionId },
        )
    } else if full.len() < 1 + CHALLENGE_PACKET_SIZE {
        (
            SpecSession { state: HandshakeState::AwaitingPeerVersionAndChallenge, buffer: full, ..s },
            SpecOutcome::InProgress { response: Seq::empty() },
        )
    } else {
        let challenge = full.subrange(1, 1 + CHALLENGE_PACKET_SIZE as int);
        if !spec_challenge_zero_field_ok(challenge) {
            (
                SpecSession {
                    state: HandshakeState::Failed { reason: FailureReason::NonZeroedTimeInPacket1 },
                    buffer: full,
                    ..s
                },
                SpecOutcome::Rejected { reason: FailureReason::NonZeroedTimeInPacket1 },
            )
        } else {
            let response = spec_encode_echo(
                spec_challenge_time(challenge),
                s.my_time,
                spec_challenge_payload(challenge),
            );
            let rest = full.subrange(1 + CHALLENGE_PACKET_SIZE as int, full.len() as int);
            spec_step_echo(SpecSession { state: HandshakeState::AwaitingPeerEcho, buffer: rest, ..s }, rest, response)
        }
    }
}

/// The step taken while waiting for the peer's echo, on the joined bytes
/// `full`, with `response` the bytes already owed to the peer from the
/// same call.
pub open spec fn spec_step_echo(s: SpecSession, full: Seq<u8>, response: Seq<u8>) -> (
    SpecSession,
    SpecOutcome,
) {
    if full.len() < ECHO_PACKET_SIZE {
        (
            SpecSession { state: HandshakeState::AwaitingPeerEcho, buffer: full, ..s },
            SpecOutcome::InProgress { response },
        )
    } else {
        let packet = full.subrange(0, ECHO_PACKET_SIZE as int);
        if spec_echo_echoed_time(packet) != s.my_time {
            (
                SpecSession {
                    state: HandshakeState::Failed { reason: FailureReason::IncorrectPeerTime },
                    buffer: full,
                    ..s
                },
                SpecOutcome::Rejected { reason: FailureReason::IncorrectPeerTime },
            )
        } else if spec_echo_payload(packet) != s.my_payload {
            (
                SpecSession {
                    state: HandshakeState::Failed { reason: FailureReason::IncorrectRandomData },
                    buffer: full,
                    ..s
                },
                SpecOutcome::Rejected { reason: FailureReason::IncorrectRandomData },
            )
        } else {
            (
                SpecSession { state: HandshakeState::Completed, buffer: Seq::empty(), ..s },
                SpecOutcome::Completed {
                    response,
                    remaining: full.subrange(ECHO_PACKET_SIZE as int, full.len() as int),
                },
            )
        }
    }
}

/// What one `process` call does: the session after the call and the
/// outcome reported, as a function of the session before the call and the
/// newly arrived bytes.
pub open spec fn spec_process(s: SpecSession, input: Seq<u8>) -> (SpecSession, SpecOutcome) {
    match s.state {
        HandshakeState::Completed => (s, SpecOutcome::AlreadyDone),
        HandshakeState::Failed { reason } => (s, SpecOutcome::Rejected { reason }),
        HandshakeState::AwaitingPeerVersionAndChallenge => spec_step_challenge(s, s.buffer + input),
        HandshakeState::AwaitingPeerEcho => spec_step_echo(s, s.buffer + input, Seq::empty()),
    }
}

/// One handshake attempt's state, scoped to a single connection.
pub struct HandshakeSession {
    role: PeerRole,
    state: HandshakeState,
    buffer: Vec<u8>,
    my_time: u32,
    my_payload: Vec<u8>,
}

impl View for HandshakeSession {
    type V = SpecSession;

    closed spec fn view(&self) -> SpecSession {
        SpecSession {
            role: self.role,
            state: self.state,
            buffer: self.buffer@,
            my_time: self.my_time,
            my_payload: self.my_payload@,
        }
    }
}

/// Builds the error value that reports `reason`.
fn error_of_reason(reason: FailureReason) -> (e: HandshakeError)
    ensures
        error_matches_reason(e, reason),
{
    match reason {
        FailureReason::BadVersionId => HandshakeError::BadVersionId,
        FailureReason::NonZeroedTimeInPacket1 => HandshakeError::NonZeroedTimeInPacket1,
        FailureReason::IncorrectPeerTime => HandshakeError::IncorrectPeerTime,
        FailureReason::IncorrectRandomData => HandshakeError::IncorrectRandomData,
    }
}

impl HandshakeSession {
    /// Starts a session.  The caller injects the time/random source by
    /// passing the locally generated timestamp and random payload; both
    /// are retained unchanged for the session's lifetime so the peer's
    /// echo can be verified against them.  Returns the session together
    /// with the bytes to send first: the version byte followed by the
    /// local challenge packet.
    pub fn new(role: PeerRole, time: u32, random_payload: Vec<u8>) -> (r: (
        HandshakeSession,
        Vec<u8>,
    ))
        requires
            random_payload@.len() == RANDOM_PAYLOAD_SIZE,
        ensures
            r.0@ == (SpecSession {
                role,
                state: HandshakeState::AwaitingPeerVersionAndChallenge,
                buffer: Seq::<u8>::empty(),
                my_time: time,
                my_payload: random_payload@,
            }),
            r.1@ == seq![RTMP_VERSION] + spec_encode_challenge(time, random_payload@),
    {
        let packet = ChallengePacket { time, random_data: random_payload };
        let encoded = encode_challenge(&packet);
        let mut outbound: Vec<u8> = Vec::new();
        outbound.push(RTMP_VERSION);
        push_bytes(&mut outbound, encoded.as_slice());
        assert(outbound@ =~= seq![RTMP_VERSION] + spec_encode_challenge(time, packet.random_data@));
        let session = HandshakeSession {
            role,
            state: HandshakeState::AwaitingPeerVersionAndChallenge,
            buffer: Vec::new(),
            my_time: time,
            my_payload: packet.random_data,
        };
        assert(session@ =~= (SpecSession {
            role,
            state: HandshakeState::AwaitingPeerVersionAndChallenge,
            buffer: Seq::<u8>::empty(),
            my_time: time,
            my_payload: session@.my_payload,
        }));
        (session, outbound)
    }

    /// Where the session stands.
    pub fn state(&self) -> (s: HandshakeState)
        ensures
            s == self@.state,
    {
        self.state
    }

    /// Which side this session plays.
    pub fn role(&self) -> (r: PeerRole)
        ensures
            r == self@.role,
    {
        self.role
    }

    /// The timestamp this side sent in its challenge.
    pub fn local_time(&self) -> (t: u32)
        ensures
            t == self@.my_time,
    {
        self.my_time
    }

    /// The random payload this side sent in its challenge.
    pub fn local_payload(&self) -> (p: &Vec<u8>)
        ensures
            p@ == self@.my_payload,
    {
        &self.my_payload
    }

    /// Feeds newly arrived bytes to the session.  Exactly
    /// [`spec_process`] happens: the peer's version byte is judged as soon
    /// as it arrives, partial packets are buffered and reported as
    /// in-progress, a complete valid challenge is answered with this
    /// side's echo, a complete valid echo completes the handshake, and any
    /// validation failure is terminal.  A challenge and the echo behind it
    /// may arrive joined in one call or split over many.
    pub fn process(&mut self, input: &[u8]) -> (r: Result<ProcessResult, HandshakeError>)
        ensures
            final(self)@ == spec_process(old(self)@, input@).0,
            outcome_matches(r, spec_process(old(self)@, input@).1),
    {
        match self.state {
            HandshakeState::Completed => {
                return Err(HandshakeError::HandshakeAlreadyCompleted);
            },
            HandshakeState::Failed { reason } => {
                return Err(error_of_reason(reason));
            },
            _ => {},
        }
        push_bytes(&mut self.buffer, input);
        let ghost full = old(self)@.buffer + input@;
        assert(self.buffer@ == full);
        let mut response: Vec<u8> = Vec::new();
        if let HandshakeState::AwaitingPeerVersionAndChallenge = self.state {
            if self.buffer.len() < 1 {
                proof {
                    assert(self@ =~= spec_process(old(self)@, input@).0);
                }
                return Ok(ProcessResult::InProgress { response_bytes: response });
            }
            let version = self.buffer[0];
            match decode_version(version) {
                Err(e) => {
                    self.state = HandshakeState::Failed { reason: FailureReason::BadVersionId };
                    proof {
                        assert(self@ =~= spec_process(old(self)@, input@).0);
                    }
                    return Err(e);
                },
                Ok(_) => {},
            }
            if self.buffer.len() < 1 + CHALLENGE_PACKET_SIZE {
                proof {
                    assert(self@ =~= spec_process(old(self)@, input@).0);
                }
                return Ok(ProcessResult::InProgress { response_bytes: response });
            }
            let buf = self.buffer.as_slice();
            let challenge_bytes = &buf[1..1 + CHALLENGE_PACKET_SIZE];
            assert(challenge_bytes@ == full.subrange(1, 1 + CHALLENGE_PACKET_SIZE as int));
            let packet = match decode_challenge(challenge_bytes) {
                Err(e) => {
                    self.state = HandshakeState::Failed {
                        reason: FailureReason::NonZeroedTimeInPacket1,
                    };
                    proof {
                        assert(self@ =~= spec_process(old(self)@, input@).0);
                    }
                    return Err(e);
                },
                Ok(p) => p,
            };
            let echo = EchoPacket {
                echoed_time: packet.time,
                sender_time: self.my_time,
                random_data: packet.random_data,
            };
            response = encode_echo(&echo);
            let tail = self.buffer.split_off(1 + CHALLENGE_PACKET_SIZE);
            self.buffer = tail;
            self.state = HandshakeState::AwaitingPeerEcho;
        }
        if self.buffer.len() < ECHO_PACKET_SIZE {
            proof {
                assert(self@ =~= spec_process(old(self)@, input@).0);
            }
            return Ok(ProcessResult::InProgress { response_bytes: response });
        }
        let buf = self.buffer.as_slice();
        let echo_bytes = &buf[0..ECHO_PACKET_SIZE];
        let echo = decode_echo(echo_bytes);
        if echo.echoed_time != self.my_time {
            self.state = HandshakeState::Failed { reason: FailureReason::IncorrectPeerTime };
            proof {
                assert(self@ =~= spec_process(old(self)@, input@).0);
            }
            return Err(HandshakeError::IncorrectPeerTime);
        }
        if !bytes_equal(echo.random_data.as_slice(), self.my_payload.as_slice()) {
            self.state = HandshakeState::Failed { reason: FailureReason::IncorrectRandomData };
            proof {
                assert(self@ =~= spec_process(old(self)@, input@).0);
            }
            return Err(HandshakeError::IncorrectRandomData);
        }
        let remaining = self.buffer.split_off(ECHO_PACKET_SIZE);
        self.buffer.clear();
        self.state = HandshakeState::Completed;
        proof {
            assert(self@ =~= spec_process(old(self)@, input@).0);
        }
        Ok(ProcessResult::Completed { response_bytes: response, remaining_bytes: remaining })
    }
}

/// A full valid exchange succeeds: a fresh session that is fed its peer's
/// version byte and a well-formed challenge answers with the echo of that
/// challenge and waits for the peer's echo; fed a correct echo of its own
/// timestamp and payload, it then completes.  Completion is reached exactly
/// once: by [`lemma_completed_is_terminal`] no further processing leaves
/// the completed state or re-enters an earlier one.
pub proof fn lemma_valid_exchange_completes(
    s0: SpecSession,
    peer_time: u32,
    peer_payload: Seq<u8>,
    peer_sender_time: u32,
)
    requires
        s0.state is AwaitingPeerVersionAndChallenge,
        s0.buffer.len() == 0,
        s0.my_payload.len() == RANDOM_PAYLOAD_SIZE,
        peer_payload.len() == RANDOM_PAYLOAD_SIZE,
    ensures
        ({
            let first = seq![RTMP_VERSION] + spec_encode_challenge(peer_time, peer_payload);
            let (s1, out1) = spec_process(s0, first);
            let second = spec_encode_echo(s0.my_time, peer_sender_time, s0.my_payload);
            let (s2, out2) = spec_process(s1, second);
            &&& s1.state is AwaitingPeerEcho
            &&& out1 == (SpecOutcome::InProgress {
                response: spec_encode_echo(peer_time, s0.my_time, peer_payload),
            })
            &&& s2.state is Completed
            &&& out2 == (SpecOutcome::Completed {
                response: Seq::<u8>::empty(),
                remaining: Seq::<u8>::empty(),
            })
        }),
{
    let first = seq![RTMP_VERSION] + spec_encode_challenge(peer_time, peer_payload);
    let full = s0.buffer + first;
    assert(full =~= first);
    crate::codec::lemma_challenge_round_trip(peer_time, peer_payload);
    let challenge = full.subrange(1, 1 + CHALLENGE_PACKET_SIZE as int);
    assert(challenge =~= spec_encode_challenge(peer_time, peer_payload));
    let rest = full.subrange(1 + CHALLENGE_PACKET_SIZE as int, full.len() as int);
    assert(rest =~= Seq::<u8>::empty());
    let (s1, out1) = spec_process(s0, first);
    let second = spec_encode_echo(s0.my_time, peer_sender_time, s0.my_payload);
    crate::codec::lemma_echo_round_trip(s0.my_time, peer_sender_time, s0.my_payload);
    let full2 = s1.buffer + second;
    assert(full2 =~= second);
    let packet = full2.subrange(0, ECHO_PACKET_SIZE as int);
    assert(packet =~= second);
    assert(full2.subrange(ECHO_PACKET_SIZE as int, full2.len() as int) =~= Seq::<u8>::empty());
}

/// Once a session has completed, every further call fails with the
/// already-completed outcome and changes nothing of the session.
pub proof fn lemma_completed_is_terminal(s: SpecSession, input: Seq<u8>)
    requires
        s.state is Completed,
    ensures
        spec_process(s, input).0 == s,
        spec_process(s, input).1 is AlreadyDone,
{
}

/// Once a session has failed, every further call surfaces the same
/// failure again and changes nothing of the session.
pub proof fn lemma_failed_is_terminal(s: SpecSession, input: Seq<u8>)
    requires
        s.state is Failed,
    ensures
        spec_process(s, input).0 == s,
        spec_process(s, input).1 == (SpecOutcome::Rejected { reason: s.state->reason }),
{
}

/// The locally generated timestamp and random payload, and the session's
/// role, are immutable for the session's lifetime: no processed input
/// changes them.
pub proof fn lemma_process_preserves_local_values(s: SpecSession, input: Seq<u8>)
    ensures
        spec_process(s, input).0.role == s.role,
        spec_process(s, input).0.my_time == s.my_time,
        spec_process(s, input).0.my_payload == s.my_payload,
{
}

/// A peer version byte other than the required constant is rejected with
/// the version-mismatch failure as soon as it is seen — nothing beyond
/// that one byte need have arrived — and before any of the gathered bytes
/// are consumed.
pub proof fn lemma_bad_version_rejected(s: SpecSession, input: Seq<u8>)
    requires
        s.state is AwaitingPeerVersionAndChallenge,
        s.buffer.len() + input.len() >= 1,
        (s.buffer + input)[0] != RTMP_VERSION,
    ensures
        spec_process(s, input).0.state == (HandshakeState::Failed {
            reason: FailureReason::BadVersionId,
        }),
        spec_process(s, input).0.buffer == s.buffer + input,
        spec_process(s, input).1 == (SpecOutcome::Rejected { reason: FailureReason::BadVersionId }),
{
}

/// A challenge packet whose designated zero field holds any non-zero byte
/// is rejected with the non-zeroed-field failure.
pub proof fn lemma_non_zeroed_challenge_rejected(s: SpecSession, input: Seq<u8>)
    requires
        s.state is AwaitingPeerVersionAndChallenge,
        s.buffer.len() + input.len() >= 1 + CHALLENGE_PACKET_SIZE,
        (s.buffer + input)[0] == RTMP_VERSION,
        !spec_challenge_zero_field_ok(
            (s.buffer + input).subrange(1, 1 + CHALLENGE_PACKET_SIZE as int),
        ),
    ensures
        spec_process(s, input).0.state == (HandshakeState::Failed {
            reason: FailureReason::NonZeroedTimeInPacket1,
        }),
        spec_process(s, input).1 == (SpecOutcome::Rejected {
            reason: FailureReason::NonZeroedTimeInPacket1,
        }),
{
}

/// An echo packet whose echoed timestamp differs from the locally sent
/// timestamp is rejected with the incorrect-time failure, whatever its
/// payload holds.
pub proof fn lemma_incorrect_echo_time_rejected(s: SpecSession, input: Seq<u8>)
    requires
        s.state is AwaitingPeerEcho,
        s.buffer.len() + input.len() >= ECHO_PACKET_SIZE,
        spec_echo_echoed_time((s.buffer + input).subrange(0, ECHO_PACKET_SIZE as int))
            != s.my_time,
    ensures
        spec_process(s, input).0.state == (HandshakeState::Failed {
            reason: FailureReason::IncorrectPeerTime,
        }),
        spec_process(s, input).1 == (SpecOutcome::Rejected {
            reason: FailureReason::IncorrectPeerTime,
        }),
{
}

/// An echo packet that echoes the right timestamp but whose payload
/// differs in as much as one byte from the locally sent payload is
/// rejected with the incorrect-random-data failure.
pub proof fn lemma_incorrect_echo_payload_rejected(s: SpecSession, input: Seq<u8>)
    requires
        s.state is AwaitingPeerEcho,
        s.buffer.len() + input.len() >= ECHO_PACKET_SIZE,
        spec_echo_echoed_time((s.buffer + input).subrange(0, ECHO_PACKET_SIZE as int))
            == s.my_time,
        spec_echo_payload((s.buffer + input).subrange(0, ECHO_PACKET_SIZE as int))
            != s.my_payload,
    ensures
        spec_process(s, input).0.state == (HandshakeState::Failed {
            reason: FailureReason::IncorrectRandomData,
        }),
        spec_process(s, input).1 == (SpecOutcome::Rejected {
            reason: FailureReason::IncorrectRandomData,
        }),
{
}

} // verus!

