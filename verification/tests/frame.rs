use akispace::ipc::frame::{
    const_eq, Frame, FrameReader, FrameType, MouseEvent, Payload, RelativeMouseBatch,
    RelativeMouseResult, HANDSHAKE_ACCEPTED, HEADER_LEN, NONCE_LEN,
};

#[test]
fn test_frame_roundtrip_json() {
    let frame = Frame {
        frame_type: FrameType::Utf8Json,
        payload: Payload::Utf8Json(r#"{"cmd":"ping"}"#.into()),
    };
    let encoded = frame.encode();
    let decoded = Frame::decode(&encoded[..]).unwrap().unwrap();
    assert_eq!(decoded.frame_type, FrameType::Utf8Json);
    match decoded.payload {
        Payload::Utf8Json(s) => assert_eq!(s, r#"{"cmd":"ping"}"#),
        _ => panic!("类型不匹配"),
    }
}

#[test]
fn test_frame_roundtrip_batch() {
    let frame = Frame {
        frame_type: FrameType::RelativeMouseBatch,
        payload: Payload::RelativeMouseBatch(RelativeMouseBatch {
            count: 2,
            first_seq: 100,
            base_ticks: 1000,
            events: vec![
                MouseEvent { dx: 10, dy: 20, rel_ticks: 10 },
                MouseEvent { dx: -5, dy: 15, rel_ticks: 20 },
            ],
        }),
    };
    let encoded = frame.encode();
    let decoded = Frame::decode(&encoded[..]).unwrap().unwrap();
    assert_eq!(decoded.frame_type, FrameType::RelativeMouseBatch);
    match decoded.payload {
        Payload::RelativeMouseBatch(b) => {
            assert_eq!(b.count, 2);
            assert_eq!(b.first_seq, 100);
            assert_eq!(b.base_ticks, 1000);
            assert_eq!(b.events.len(), 2);
        }
        _ => panic!("类型不匹配"),
    }
}

#[test]
fn test_frame_roundtrip_result() {
    let frame = Frame {
        frame_type: FrameType::RelativeMouseResult,
        payload: Payload::RelativeMouseResult(RelativeMouseResult { last_seq: 101, handled: true }),
    };
    let encoded = frame.encode();
    let decoded = Frame::decode(&encoded[..]).unwrap().unwrap();
    assert_eq!(decoded.frame_type, FrameType::RelativeMouseResult);
    match decoded.payload {
        Payload::RelativeMouseResult(r) => {
            assert_eq!(r.last_seq, 101);
            assert!(r.handled);
        }
        _ => panic!("类型不匹配"),
    }
}

#[test]
fn test_frame_roundtrip_handshake() {
    let nonce = [42u8; NONCE_LEN];
    let frame = Frame { frame_type: FrameType::Handshake, payload: Payload::Handshake(nonce) };
    let encoded = frame.encode();
    let decoded = Frame::decode(&encoded[..]).unwrap().unwrap();
    assert_eq!(decoded.frame_type, FrameType::Handshake);
    match decoded.payload {
        Payload::Handshake(n) => assert!(const_eq(&n, &nonce)),
        _ => panic!("类型不匹配"),
    }
}

#[test]
fn test_frame_roundtrip_handshake_ack() {
    let frame = Frame {
        frame_type: FrameType::HandshakeAck,
        payload: Payload::HandshakeAck(HANDSHAKE_ACCEPTED),
    };
    let encoded = frame.encode();
    assert_eq!(encoded.len(), HEADER_LEN + 1, "§3.8：verdict 载荷恒 1 字节");
    let decoded = Frame::decode(&encoded[..]).unwrap().unwrap();
    assert_eq!(decoded.frame_type, FrameType::HandshakeAck);
    match decoded.payload {
        Payload::HandshakeAck(v) => assert_eq!(v, HANDSHAKE_ACCEPTED),
        _ => panic!("类型不匹配"),
    }
}

#[test]
fn test_handshake_ack_rejects_nonce_len() {
    let err = Payload::decode(FrameType::HandshakeAck, &[7u8; NONCE_LEN]).unwrap_err();
    assert!(err.message().contains("verdict 长度错误"));
}

#[test]
fn test_const_eq() {
    assert!(const_eq(b"abc", b"abc"));
    assert!(!const_eq(b"abc", b"abd"));
    assert!(!const_eq(b"abc", b"abcd"));
}

#[test]
fn test_eof_returns_none() {
    let empty: &[u8] = &[];
    let result = Frame::decode(empty).unwrap();
    assert!(result.is_none());
}

#[test]
fn test_bad_frame_drop_continue() {
    let mut bad = vec![100u8, 0, 0, 0, 0x99];
    bad.extend_from_slice(&[0u8; 100]);
    let good = Frame { frame_type: FrameType::Utf8Json, payload: Payload::Utf8Json("ok".into()) }
        .encode();
    let mut combined = bad;
    combined.extend_from_slice(&good);
    let mut reader = FrameReader::new(combined);
    let first = reader.read_frame().unwrap();
    assert!(first.is_none());
    let second = reader.read_frame().unwrap();
    assert!(second.is_some());
}
