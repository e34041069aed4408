use akispace::ipc::frame::{
    decode_body, decode_header, guard_count, guard_payload_len, Frame, FrameError, FrameReader,
    FrameType, FrameWriter, Payload, MAX_PAYLOAD, NONCE_LEN,
};

fn decode_err(bytes: &[u8]) -> FrameError {
    match Frame::decode(bytes) {
        Err(e) => e,
        Ok(_) => panic!("expected an error"),
    }
}

#[test]
fn oversized_header_is_refused() {
    // 2 MiB announced
    assert_eq!(decode_err(&[0, 0, 0x20, 0, 1]), FrameError::PayloadTooLarge);
    assert_eq!(decode_header(&[0, 0, 0x10, 0, 1]).unwrap(), (MAX_PAYLOAD as usize, 1));
    assert_eq!(decode_header(&[1, 0, 0x10, 0, 1]).unwrap_err(), FrameError::PayloadTooLarge);
}

#[test]
fn truncated_payload_is_unexpected_eof() {
    assert_eq!(decode_err(&[10, 0, 0, 0, 1, b'a']), FrameError::UnexpectedEof);
    // fewer than five bytes is a clean end
    assert!(Frame::decode(&[1, 0, 0]).unwrap().is_none());
}

#[test]
fn unknown_type_and_bad_utf8() {
    assert_eq!(decode_err(&[0, 0, 0, 0, 0x99]), FrameError::UnknownFrameType);
    assert_eq!(decode_err(&[1, 0, 0, 0, 1, 0xff]), FrameError::InvalidUtf8);
    assert!(decode_body(6, &[]).is_err());
    assert_eq!(decode_body(5, &[1]).unwrap().frame_type, FrameType::HandshakeAck);
}

#[test]
fn payload_length_errors() {
    assert_eq!(
        Payload::decode(FrameType::RelativeMouseBatch, &[0u8; 5]).unwrap_err(),
        FrameError::BatchTooShort
    );
    let mut one = vec![1u8, 0];
    one.extend_from_slice(&[0u8; 16]);
    assert_eq!(
        Payload::decode(FrameType::RelativeMouseBatch, &one).unwrap_err(),
        FrameError::BatchLengthMismatch
    );
    assert_eq!(
        Payload::decode(FrameType::RelativeMouseResult, &[0u8; 8]).unwrap_err(),
        FrameError::ResultLength
    );
    assert_eq!(Payload::decode(FrameType::Handshake, &[0u8; 5]).unwrap_err(), FrameError::NonceLength);
    assert_eq!(Payload::decode(FrameType::HandshakeAck, &[]).unwrap_err(), FrameError::VerdictLength);
}

#[test]
fn batch_payload_decodes_little_endian() {
    let mut data = vec![1u8, 0];
    data.extend_from_slice(&7u64.to_le_bytes());
    data.extend_from_slice(&(-3i64).to_le_bytes());
    data.extend_from_slice(&(-2i32).to_le_bytes());
    data.extend_from_slice(&5i32.to_le_bytes());
    data.extend_from_slice(&9i64.to_le_bytes());
    match Payload::decode(FrameType::RelativeMouseBatch, &data).unwrap() {
        Payload::RelativeMouseBatch(b) => {
            assert_eq!(b.count, 1);
            assert_eq!(b.first_seq, 7);
            assert_eq!(b.base_ticks, -3);
            assert_eq!(b.events[0].dx, -2);
            assert_eq!(b.events[0].dy, 5);
            assert_eq!(b.events[0].rel_ticks, 9);
        }
        _ => panic!("batch"),
    }
    match Payload::decode(FrameType::RelativeMouseResult, &[2, 1, 0, 0, 0, 0, 0, 0, 0]).unwrap() {
        Payload::RelativeMouseResult(r) => {
            assert_eq!(r.last_seq, 258);
            assert!(!r.handled);
        }
        _ => panic!("result"),
    }
}

#[test]
fn encode_writes_header_then_payload() {
    let f = Frame { frame_type: FrameType::Utf8Json, payload: Payload::Utf8Json("hi".into()) };
    assert_eq!(f.encode(), vec![2, 0, 0, 0, 1, b'h', b'i']);
    let n = [9u8; NONCE_LEN];
    let h = Frame { frame_type: FrameType::Handshake, payload: Payload::Handshake(n) }.encode();
    assert_eq!(h.len(), 5 + NONCE_LEN);
    assert_eq!(&h[..5], &[32, 0, 0, 0, 4]);
}

#[test]
fn error_messages_and_kinds() {
    assert_eq!(FrameError::PayloadTooLarge.message(), "载荷超过 1MB");
    assert_eq!(FrameError::UnknownFrameType.message(), "未知帧类型");
    assert_eq!(FrameError::NonceLength.message(), "Nonce 长度错误");
    assert!(FrameError::BatchTooShort.is_invalid_data());
    assert!(!FrameError::UnexpectedEof.is_invalid_data());
}

#[test]
fn guards_accept_limits() {
    guard_payload_len(MAX_PAYLOAD as usize);
    guard_count(65535);
}

#[test]
fn writer_then_reader_round_trips_several_frames() {
    let mut w = FrameWriter::new(Vec::new());
    w.write_frame(&Frame { frame_type: FrameType::Utf8Json, payload: Payload::Utf8Json("a".into()) })
        .unwrap();
    w.write_frame(&Frame { frame_type: FrameType::HandshakeAck, payload: Payload::HandshakeAck(0) })
        .unwrap();
    let mut r = FrameReader::new(w.into_inner());
    let a = r.read_frame().unwrap().unwrap();
    assert_eq!(a.frame_type, FrameType::Utf8Json);
    let b = r.read_frame().unwrap().unwrap();
    match b.payload {
        Payload::HandshakeAck(v) => assert_eq!(v, 0),
        _ => panic!("ack"),
    }
    assert!(r.read_frame().unwrap().is_none());
}

#[test]
fn reader_resyncs_after_oversized_header() {
    // an oversized header, one skipped byte, then a good frame
    let mut data = vec![0u8, 0, 0x20, 0, 1, 0xAA];
    data.extend_from_slice(
        &Frame { frame_type: FrameType::HandshakeAck, payload: Payload::HandshakeAck(1) }.encode(),
    );
    let mut r = FrameReader::new(data);
    let f = r.read_frame().unwrap().unwrap();
    assert_eq!(f.frame_type, FrameType::HandshakeAck);
}
