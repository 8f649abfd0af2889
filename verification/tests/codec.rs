use rtmp_handshake::codec::bytes_equal;
use rtmp_handshake::codec::decode_challenge;
use rtmp_handshake::codec::decode_echo;
use rtmp_handshake::codec::decode_version;
use rtmp_handshake::codec::encode_challenge;
use rtmp_handshake::codec::encode_echo;
use rtmp_handshake::codec::ChallengePacket;
use rtmp_handshake::codec::EchoPacket;
use rtmp_handshake::errors::HandshakeError;
use rtmp_handshake::CHALLENGE_PACKET_SIZE;
use rtmp_handshake::ECHO_PACKET_SIZE;
use rtmp_handshake::RANDOM_PAYLOAD_SIZE;

#[test]
fn version_byte_three_is_accepted() {
    assert!(matches!(decode_version(3), Ok(3)));
}

#[test]
fn version_byte_other_than_three_is_rejected() {
    assert!(matches!(decode_version(0), Err(HandshakeError::BadVersionId)));
    assert!(matches!(decode_version(6), Err(HandshakeError::BadVersionId)));
    assert!(matches!(decode_version(255), Err(HandshakeError::BadVersionId)));
}

#[test]
fn challenge_encodes_to_exact_bytes() {
    let packet = ChallengePacket { time: 0x01020304, random_data: vec![0xAA; RANDOM_PAYLOAD_SIZE] };
    let bytes = encode_challenge(&packet);
    assert_eq!(bytes.len(), CHALLENGE_PACKET_SIZE);
    assert_eq!(&bytes[0..8], &[0x01, 0x02, 0x03, 0x04, 0x00, 0x00, 0x00, 0x00]);
    assert!(bytes[8..].iter().all(|b| *b == 0xAA));
}

#[test]
fn echo_encodes_to_exact_bytes() {
    let packet = EchoPacket {
        echoed_time: 1000,
        sender_time: 0xDEADBEEF,
        random_data: vec![0x55; RANDOM_PAYLOAD_SIZE],
    };
    let bytes = encode_echo(&packet);
    assert_eq!(bytes.len(), ECHO_PACKET_SIZE);
    assert_eq!(&bytes[0..4], &[0x00, 0x00, 0x03, 0xE8]);
    assert_eq!(&bytes[4..8], &[0xDE, 0xAD, 0xBE, 0xEF]);
    assert!(bytes[8..].iter().all(|b| *b == 0x55));
}

#[test]
fn challenge_round_trips_through_encode_and_decode() {
    let mut payload = vec![0xAA; RANDOM_PAYLOAD_SIZE];
    payload[0] = 1;
    payload[RANDOM_PAYLOAD_SIZE - 1] = 2;
    let packet = ChallengePacket { time: 1000, random_data: payload.clone() };
    let bytes = encode_challenge(&packet);
    let decoded = decode_challenge(&bytes).unwrap();
    assert_eq!(decoded.time, 1000);
    assert_eq!(decoded.random_data, payload);
}

#[test]
fn challenge_with_non_zero_field_is_rejected() {
    let packet = ChallengePacket { time: 1000, random_data: vec![0xAA; RANDOM_PAYLOAD_SIZE] };
    for corrupt_at in 4..8 {
        let mut bytes = encode_challenge(&packet);
        bytes[corrupt_at] = 1;
        assert!(matches!(
            decode_challenge(&bytes),
            Err(HandshakeError::NonZeroedTimeInPacket1)
        ));
    }
}

#[test]
fn echo_decodes_its_three_fields() {
    let packet = EchoPacket {
        echoed_time: 77,
        sender_time: 88,
        random_data: vec![0x11; RANDOM_PAYLOAD_SIZE],
    };
    let bytes = encode_echo(&packet);
    let decoded = decode_echo(&bytes);
    assert_eq!(decoded.echoed_time, 77);
    assert_eq!(decoded.sender_time, 88);
    assert_eq!(decoded.random_data, vec![0x11; RANDOM_PAYLOAD_SIZE]);
}

#[test]
fn bytes_equal_compares_byte_for_byte() {
    assert!(bytes_equal(&[], &[]));
    assert!(bytes_equal(&[1, 2, 3], &[1, 2, 3]));
    assert!(!bytes_equal(&[1, 2, 3], &[1, 2]));
    assert!(!bytes_equal(&[1, 2, 3], &[1, 2, 4]));
}
