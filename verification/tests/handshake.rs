use akispace::ipc::client::{
    after_attempt, as_json, as_mouse_result, classify_ack, handshake_frame, Ack, AttemptOutcome,
    ConnectStep, PipeClient, MAX_RETRIES,
};
use akispace::ipc::client::{
    client_begin, client_step, ClientAction, ClientEnd, ClientEvent, ClientState, RETRY_DELAY_MS,
};
use akispace::ipc::frame::{
    Frame, FrameReader, FrameType, FrameWriter, MouseEvent, Payload, RelativeMouseBatch,
    RelativeMouseResult, HANDSHAKE_ACCEPTED, HANDSHAKE_REJECTED, HEADER_LEN, NONCE_LEN,
};
use akispace::ipc::server::{
    handshake_verdict, listen_retry_delay_ms, on_read_failure, verdict_frame, ListenFailure,
    PipeServer, ReadFailureAction,
};
use akispace::ipc::frame::FrameError;

/// Runs one handshake over an in-memory pipe: the client writes its frame,
/// the server reads and judges it, the client reads the verdict.
fn loopback(expected: Option<[u8; NONCE_LEN]>, client_frame: Frame) -> (bool, Ack, usize) {
    let mut server = PipeServer::new(vec![b"S-1-5-18".to_vec()]);
    if let Some(n) = expected {
        server.set_nonce(n);
    }
    let mut to_server = FrameWriter::new(Vec::new());
    to_server.write_frame(&client_frame).unwrap();
    let mut server_in = FrameReader::new(to_server.into_inner());
    let got = server_in.read_frame().unwrap();
    let outcome = server.verify_handshake(got.as_ref().map(|f| &f.payload));
    let mut to_client = FrameWriter::new(Vec::new());
    to_client.write_frame(&outcome.reply).unwrap();
    let bytes = to_client.into_inner();
    let verdict_len = bytes.len();
    let mut client_in = FrameReader::new(bytes);
    let reply = client_in.read_frame().unwrap();
    let ack = classify_ack(reply.as_ref().map(|f| &f.payload));
    (outcome.accepted, ack, verdict_len)
}

#[test]
fn handshake_loopback_accept_verdict_one_byte() {
    let nonce = [42u8; NONCE_LEN];
    let (server_ok, ack, len) = loopback(Some(nonce), handshake_frame(nonce));
    assert!(server_ok, "正确 nonce：server 必须接受");
    assert_eq!(ack, Ack::Accepted, "正确 nonce：client 必须收到 0x01");
    assert_eq!(len, HEADER_LEN + 1);
}

#[test]
fn handshake_loopback_wrong_nonce_gets_explicit_reject() {
    let (server_ok, ack, _) = loopback(Some([1u8; NONCE_LEN]), handshake_frame([2u8; NONCE_LEN]));
    assert!(!server_ok);
    assert_eq!(ack, Ack::Rejected, "错误 nonce：必须收到 0x00 显式拒绝而非断线");
}

#[test]
fn handshake_lost_peer_is_retryable_not_deadlock() {
    let mut client_in = FrameReader::new(Vec::new());
    let reply = client_in.read_frame().unwrap();
    let ack = classify_ack(reply.as_ref().map(|f| &f.payload));
    assert_eq!(ack, Ack::Lost);
    assert_eq!(after_attempt(0, AttemptOutcome::Handshake(ack)), ConnectStep::RetryAfterDelay);
}

#[test]
fn handshake_accepts_correct_nonce_and_sends_one_byte_verdict() {
    let nonce = [7u8; NONCE_LEN];
    let mut server = PipeServer::new(Vec::new());
    server.set_nonce(nonce);
    let hs = Payload::Handshake(nonce);
    let o = server.verify_handshake(Some(&hs));
    assert!(o.accepted, "正确 nonce 必须接受，且不得互等死锁");
    match o.reply.payload {
        Payload::HandshakeAck(v) => assert_eq!(v, HANDSHAKE_ACCEPTED),
        _ => panic!("verdict"),
    }
}

#[test]
fn handshake_rejects_wrong_nonce_with_verdict() {
    let mut server = PipeServer::new(Vec::new());
    server.set_nonce([1u8; NONCE_LEN]);
    let hs = Payload::Handshake([2u8; NONCE_LEN]);
    let o = server.verify_handshake(Some(&hs));
    assert!(!o.accepted);
    match o.reply.payload {
        Payload::HandshakeAck(v) => {
            assert_eq!(v, HANDSHAKE_REJECTED, "错误 nonce 必须收到显式 0x00 而非断线")
        }
        _ => panic!("verdict"),
    }
}

#[test]
fn handshake_fail_closed_without_expected_nonce() {
    let server = PipeServer::new(Vec::new());
    let hs = Payload::Handshake([3u8; NONCE_LEN]);
    let o = server.verify_handshake(Some(&hs));
    assert!(!o.accepted, "未配置期望 nonce 必须 fail-closed");
    match o.reply.payload {
        Payload::HandshakeAck(v) => assert_eq!(v, HANDSHAKE_REJECTED, "拒绝也要发 verdict"),
        _ => panic!("verdict"),
    }
}

#[test]
fn handshake_rejects_non_handshake_frame() {
    let f = Frame { frame_type: FrameType::Utf8Json, payload: Payload::Utf8Json("x".into()) };
    let (ok, ack, _) = loopback(Some([5u8; NONCE_LEN]), f);
    assert!(!ok);
    assert_eq!(ack, Ack::Rejected);
}

#[test]
fn handshake_silent_client_times_out_without_deadlock() {
    let mut server = PipeServer::new(Vec::new());
    server.set_nonce([9u8; NONCE_LEN]);
    let o = server.verify_handshake(None);
    assert!(!o.accepted, "静默客户端 5s 超时后必须拒绝而非永久卡死单管道实例");
}

#[test]
fn verdict_helpers_agree() {
    let exp = Some([4u8; NONCE_LEN]);
    assert_eq!(handshake_verdict(&exp, Some(&Payload::Handshake([4u8; NONCE_LEN]))), HANDSHAKE_ACCEPTED);
    assert_eq!(handshake_verdict(&exp, Some(&Payload::HandshakeAck(1))), HANDSHAKE_REJECTED);
    assert_eq!(handshake_verdict(&None, Some(&Payload::Handshake([4u8; NONCE_LEN]))), HANDSHAKE_REJECTED);
    let f = verdict_frame(HANDSHAKE_ACCEPTED);
    assert_eq!(f.frame_type, FrameType::HandshakeAck);
    assert_eq!(f.encode().len(), HEADER_LEN + 1);
}

#[test]
fn retry_policy_is_bounded() {
    assert_eq!(after_attempt(0, AttemptOutcome::Handshake(Ack::Accepted)), ConnectStep::Connected);
    assert_eq!(after_attempt(2, AttemptOutcome::Handshake(Ack::Rejected)), ConnectStep::Refused);
    assert_eq!(after_attempt(3, AttemptOutcome::Unreachable), ConnectStep::RetryAfterDelay);
    assert_eq!(after_attempt(MAX_RETRIES - 1, AttemptOutcome::Unreachable), ConnectStep::GiveUp);
    assert_eq!(after_attempt(MAX_RETRIES - 1, AttemptOutcome::Handshake(Ack::Lost)), ConnectStep::GiveUp);
}

#[test]
fn server_replies_to_batch_and_json() {
    let server = PipeServer::new(Vec::new());
    let batch = Payload::RelativeMouseBatch(RelativeMouseBatch {
        count: 3,
        first_seq: 40,
        base_ticks: 0,
        events: vec![MouseEvent { dx: 1, dy: 1, rel_ticks: 0 }; 3],
    });
    let r = server.reply_to(&batch).unwrap();
    assert_eq!(r.frame_type, FrameType::RelativeMouseResult);
    let res = as_mouse_result(&r.payload).unwrap();
    assert_eq!(res.last_seq, 42);
    assert!(res.handled);
    let empty = Payload::RelativeMouseBatch(RelativeMouseBatch {
        count: 0,
        first_seq: 40,
        base_ticks: 0,
        events: vec![],
    });
    let r0 = server.reply_to(&empty).unwrap();
    assert_eq!(as_mouse_result(&r0.payload).unwrap().last_seq, 40);
    let j = server.reply_to(&Payload::Utf8Json("{}".into())).unwrap();
    assert_eq!(as_json(j.payload).unwrap(), "{\"status\":\"ok\"}");
    assert!(server.reply_to(&Payload::HandshakeAck(1)).is_none());
    let rr = Payload::RelativeMouseResult(RelativeMouseResult { last_seq: 1, handled: true });
    assert!(as_json(rr).is_none());
}

#[test]
fn server_whitelist_check() {
    let server = PipeServer::new(vec![b"S-1-5-18".to_vec(), b"S-1-5-21-1".to_vec()]);
    assert!(server.client_sid_authorized(b"S-1-5-18"));
    assert!(server.client_sid_authorized(b"S-1-5-21-1"));
    assert!(!server.client_sid_authorized(b"S-1-5-21-2"));
    assert_eq!(server.allowed_sids().len(), 2);
}

#[test]
fn read_failures_and_listen_delays() {
    assert_eq!(on_read_failure(FrameError::PayloadTooLarge), ReadFailureAction::Disconnect);
    assert_eq!(on_read_failure(FrameError::UnexpectedEof), ReadFailureAction::Disconnect);
    assert_eq!(on_read_failure(FrameError::BatchTooShort), ReadFailureAction::SkipFrame);
    assert_eq!(on_read_failure(FrameError::UnknownFrameType), ReadFailureAction::SkipFrame);
    assert_eq!(listen_retry_delay_ms(ListenFailure::BrokenPipe), 500);
    assert_eq!(listen_retry_delay_ms(ListenFailure::Other), 1000);
}

#[test]
fn client_keeps_nonce_path() {
    let c = PipeClient::new("C:\\nonce\\x.bin".to_string());
    assert_eq!(c.nonce_path(), "C:\\nonce\\x.bin");
    let d = PipeClient::with_default_nonce_dir("C:\\nonce".to_string());
    assert_eq!(d.nonce_path(), "C:\\nonce");
}

/// Drives a client connect: whether a nonce is found, and the outcome of
/// each attempt in turn. Returns the actions taken and how it ended.
fn drive_client(nonce: bool, outcomes: &[AttemptOutcome]) -> (Vec<ClientAction>, ClientEnd) {
    let (mut state, mut action) = client_begin();
    let mut actions = Vec::new();
    let mut next = outcomes.iter();
    loop {
        actions.push(action);
        let event = match action {
            ClientAction::ReadNonce => ClientEvent::NonceRead(nonce),
            ClientAction::OpenAndHandshake => ClientEvent::Attempted(*next.next().unwrap()),
            ClientAction::Pause(_) => ClientEvent::Paused,
            ClientAction::Finish(end) => return (actions, end),
        };
        let (s, a) = client_step(state, event);
        state = s;
        action = a;
    }
}

#[test]
fn client_without_nonce_never_opens_the_pipe() {
    let (actions, end) = drive_client(false, &[]);
    assert_eq!(end, ClientEnd::NoNonce);
    assert_eq!(actions, vec![ClientAction::ReadNonce, ClientAction::Finish(ClientEnd::NoNonce)]);
}

#[test]
fn client_retries_lost_handshakes_and_stops_on_refusal() {
    let lost = AttemptOutcome::Handshake(Ack::Lost);
    let (actions, end) = drive_client(true, &[lost, AttemptOutcome::Unreachable, AttemptOutcome::Handshake(Ack::Accepted)]);
    assert_eq!(end, ClientEnd::Connected);
    assert_eq!(actions[0], ClientAction::ReadNonce);
    assert_eq!(actions[1], ClientAction::OpenAndHandshake);
    assert_eq!(actions[2], ClientAction::Pause(RETRY_DELAY_MS));
    let (actions, end) = drive_client(true, &[lost, AttemptOutcome::Handshake(Ack::Rejected)]);
    assert_eq!(end, ClientEnd::Refused);
    assert_eq!(actions.len(), 5);
    let (actions, end) = drive_client(true, &[lost; 5]);
    assert_eq!(end, ClientEnd::GaveUp);
    let attempts = actions.iter().filter(|a| **a == ClientAction::OpenAndHandshake).count();
    assert_eq!(attempts as u32, MAX_RETRIES);
    assert_eq!(client_step(ClientState::ReadingNonce, ClientEvent::Paused).0, ClientState::ReadingNonce);
}
