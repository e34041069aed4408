//! The main-session side of the pipe: client SID check, nonce handshake
//! verdict (fail-closed) and the data-phase replies.
use vstd::prelude::*;
use crate::ipc::acl::{check_client_sid, sid_listed};
use crate::ipc::frame::{
    const_eq, Frame, FrameError, FrameType, FrameView, Payload, PayloadView, RelativeMouseResult,
    HANDSHAKE_ACCEPTED, HANDSHAKE_REJECTED, NONCE_LEN, well_formed, payload_bytes,
};
use crate::text::owned;

verus! {

/// Pipe name, without the `\\.\pipe\` prefix.
pub const PIPE_NAME: &'static str = "AkiSpace_MouseForward";

/// How long the server waits for the client's handshake frame.
pub const HANDSHAKE_TIMEOUT_MS: u64 = 5000;

/// How long the server tries to deliver its verdict.
pub const VERDICT_TIMEOUT_MS: u64 = 1000;

/// How long a pipe instance waits for a client before it is rebuilt.
pub const ACCEPT_WINDOW_MS: u64 = 2000;

/// The verdict on a handshake: accepted only when a nonce is expected and the
/// client sent a handshake frame carrying exactly that nonce.
pub open spec fn spec_verdict(expected: Option<Seq<u8>>, received: Option<PayloadView>) -> u8 {
    match expected {
        None => HANDSHAKE_REJECTED,
        Some(e) => match received {
            Some(PayloadView::Handshake(n)) => if n == e {
                HANDSHAKE_ACCEPTED
            } else {
                HANDSHAKE_REJECTED
            },
            _ => HANDSHAKE_REJECTED,
        },
    }
}

pub open spec fn nonce_view(n: Option<[u8; NONCE_LEN]>) -> Option<Seq<u8>> {
    match n {
        Some(a) => Some(a@),
        None => None,
    }
}

pub open spec fn received_view(p: Option<&Payload>) -> Option<PayloadView> {
    match p {
        Some(q) => Some(q@),
        None => None,
    }
}

/// The frame that carries a verdict.
pub open spec fn verdict_frame_view(v: u8) -> FrameView {
    FrameView { frame_type: FrameType::HandshakeAck, payload: PayloadView::HandshakeAck(v) }
}

/// The verdict for the handshake frame `received` (`None` when the client
/// closed the pipe, sent garbage or stayed silent past the timeout).
pub fn handshake_verdict(expected: &Option<[u8; NONCE_LEN]>, received: Option<&Payload>) -> (v: u8)
    ensures
        v == spec_verdict(nonce_view(*expected), received_view(received)),
{
    match expected {
        None => HANDSHAKE_REJECTED,
        Some(exp) => match received {
            Some(Payload::Handshake(n)) => {
                if const_eq(n, exp) {
                    HANDSHAKE_ACCEPTED
                } else {
                    HANDSHAKE_REJECTED
                }
            },
            _ => HANDSHAKE_REJECTED,
        },
    }
}

/// The one-byte verdict frame sent on every handshake, accepted or not.
pub fn verdict_frame(verdict: u8) -> (f: Frame)
    ensures
        f@ == verdict_frame_view(verdict),
        well_formed(f@),
{
    Frame { frame_type: FrameType::HandshakeAck, payload: Payload::HandshakeAck(verdict) }
}

/// The outcome of a handshake: whether the connection proceeds, and the
/// verdict frame to send either way.
pub struct HandshakeOutcome {
    pub accepted: bool,
    pub reply: Frame,
}

/// What the data phase does after a frame could not be read.
#[derive(Debug, Clone, Copy, PartialEq, Eq, Structural)]
pub enum ReadFailureAction {
    /// The payload was consumed whole: drop the frame and read the next one.
    SkipFrame,
    /// The frame boundary is lost or the stream ended: close the connection.
    Disconnect,
}

/// A kind of failure while listening for a client.
#[derive(Debug, Clone, Copy, PartialEq, Eq, Structural)]
pub enum ListenFailure {
    TimedOut,
    UnexpectedEof,
    BrokenPipe,
    NotConnected,
    ConnectionReset,
    ConnectionAborted,
    Other,
}

/// Delay before listening again: 500 ms after an I/O-type failure, 1 s otherwise.
pub fn listen_retry_delay_ms(failure: ListenFailure) -> (ms: u64)
    ensures
        ms == if failure == ListenFailure::Other {
            1000u64
        } else {
            500u64
        },
{
    match failure {
        ListenFailure::Other => 1000,
        _ => 500,
    }
}

/// How a data-phase read error is handled: a header over 1 MiB or a
/// truncated stream ends the connection; any other malformed frame is dropped.
pub fn on_read_failure(e: FrameError) -> (a: ReadFailureAction)
    ensures
        a == if e == FrameError::PayloadTooLarge || e == FrameError::UnexpectedEof {
            ReadFailureAction::Disconnect
        } else {
            ReadFailureAction::SkipFrame
        },
{
    match e {
        FrameError::PayloadTooLarge => ReadFailureAction::Disconnect,
        FrameError::UnexpectedEof => ReadFailureAction::Disconnect,
        _ => ReadFailureAction::SkipFrame,
    }
}

/// The last sequence number a batch covers.
pub open spec fn batch_last_seq(first_seq: u64, count: u16) -> int {
    if count == 0 {
        first_seq as int
    } else {
        first_seq + count - 1
    }
}

/// The reply the server sends to a data frame: a handled result for a mouse
/// batch, `{"status":"ok"}` for JSON, nothing for anything else.
pub open spec fn spec_reply(p: PayloadView) -> Option<FrameView> {
    match p {
        PayloadView::RelativeMouseBatch(b) => Some(
            FrameView {
                frame_type: FrameType::RelativeMouseResult,
                payload: PayloadView::RelativeMouseResult(
                    RelativeMouseResult {
                        last_seq: batch_last_seq(b.first_seq, b.count) as u64,
                        handled: true,
                    },
                ),
            },
        ),
        PayloadView::Utf8Json(_) => Some(
            FrameView {
                frame_type: FrameType::Utf8Json,
                payload: PayloadView::Utf8Json("{\"status\":\"ok\"}"@),
            },
        ),
        _ => None,
    }
}

pub open spec fn reply_view(r: Option<Frame>) -> Option<FrameView> {
    match r {
        Some(f) => Some(f@),
        None => None,
    }
}

/// The server end of the pipe.
pub struct PipeServer {
    allowed_sids: Vec<Vec<u8>>,
    expected_nonce: Option<[u8; NONCE_LEN]>,
}

impl PipeServer {
    /// The SIDs allowed to connect.
    pub closed spec fn whitelist(&self) -> Seq<Vec<u8>> {
        self.allowed_sids@
    }

    /// The nonce a client must present, if one was set.
    pub closed spec fn expected(&self) -> Option<Seq<u8>> {
        nonce_view(self.expected_nonce)
    }

    /// A server whose whitelist is fixed before any client is accepted, with
    /// no nonce yet: every handshake is refused until one is set.
    pub fn new(allowed_sids: Vec<Vec<u8>>) -> (s: Self)
        ensures
            s.whitelist() == allowed_sids@,
            s.expected() is None,
    {
        PipeServer { allowed_sids, expected_nonce: None }
    }

    /// Sets the nonce clients must present.
    pub fn set_nonce(&mut self, nonce: [u8; NONCE_LEN])
        ensures
            final(self).expected() == Some(nonce@),
            final(self).whitelist() == old(self).whitelist(),
    {
        self.expected_nonce = Some(nonce);
    }

    pub fn allowed_sids(&self) -> (s: &[Vec<u8>])
        ensures
            s@ == self.whitelist(),
    {
        self.allowed_sids.as_slice()
    }

    /// The runtime check behind the pipe DACL: is the client's SID whitelisted?
    pub fn client_sid_authorized(&self, client_sid: &[u8]) -> (r: bool)
        ensures
            r == sid_listed(self.whitelist(), client_sid@),
    {
        check_client_sid(client_sid, self.allowed_sids.as_slice())
    }

    /// Judges the client's handshake frame (`None`: closed, unreadable or
    /// timed out). The verdict frame is sent whatever the outcome.
    pub fn verify_handshake(&self, received: Option<&Payload>) -> (o: HandshakeOutcome)
        ensures
            o.reply@ == verdict_frame_view(spec_verdict(self.expected(), received_view(received))),
            o.accepted == (spec_verdict(self.expected(), received_view(received))
                == HANDSHAKE_ACCEPTED),
    {
        let v = handshake_verdict(&self.expected_nonce, received);
        HandshakeOutcome { accepted: v == HANDSHAKE_ACCEPTED, reply: verdict_frame(v) }
    }

    /// The reply to a data-phase frame. A batch's last sequence number must
    /// fit in 64 bits.
    pub fn reply_to(&self, payload: &Payload) -> (r: Option<Frame>)
        requires
            payload@ matches PayloadView::RelativeMouseBatch(b) ==> batch_last_seq(
                b.first_seq,
                b.count,
            ) <= u64::MAX,
        ensures
            reply_view(r) == spec_reply(payload@),
    {
        match payload {
            Payload::RelativeMouseBatch(batch) => {
                let last_seq = if batch.count == 0 {
                    batch.first_seq
                } else {
                    batch.first_seq + (batch.count as u64 - 1)
                };
                Some(
                    Frame {
                        frame_type: FrameType::RelativeMouseResult,
                        payload: Payload::RelativeMouseResult(
                            RelativeMouseResult { last_seq, handled: true },
                        ),
                    },
                )
            },
            Payload::Utf8Json(_) => {
                Some(
                    Frame {
                        frame_type: FrameType::Utf8Json,
                        payload: Payload::Utf8Json(owned("{\"status\":\"ok\"}")),
                    },
                )
            },
            _ => None,
        }
    }
}

/// Without a nonce the server refuses every handshake.
pub proof fn lemma_fail_closed(received: Option<PayloadView>)
    ensures
        spec_verdict(None, received) == HANDSHAKE_REJECTED,
{
}

/// With a nonce set, a handshake is accepted exactly when it carries that nonce.
pub proof fn lemma_accepts_only_expected_nonce(expected: Seq<u8>, received: Option<PayloadView>)
    ensures
        (spec_verdict(Some(expected), received) == HANDSHAKE_ACCEPTED) <==> (received
            == Some(PayloadView::Handshake(expected))),
{
}

/// The verdict frame is always a well-formed one-byte frame.
pub proof fn lemma_verdict_frame_one_byte(v: u8)
    ensures
        well_formed(verdict_frame_view(v)),
        payload_bytes(verdict_frame_view(v).payload).len() == 1,
{
}

} // verus!
