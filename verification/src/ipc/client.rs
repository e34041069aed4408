//! The child-session side of the pipe: the handshake it sends, how it reads
//! the server's verdict, and when it retries.
use vstd::prelude::*;
use crate::ipc::frame::{
    Frame, FrameType, FrameView, Payload, PayloadView, RelativeMouseResult, HANDSHAKE_ACCEPTED,
    NONCE_LEN, well_formed,
};
use crate::ipc::server::{received_view, spec_verdict, verdict_frame_view};

verus! {

/// How long the client waits to open the pipe and to send its handshake.
pub const CONNECT_TIMEOUT_MS: u64 = 2000;

/// How long the client waits for the verdict.
pub const ACK_TIMEOUT_MS: u64 = 5000;

/// How long the client waits for a reply to a data frame.
pub const RESPONSE_TIMEOUT_MS: u64 = 5000;

/// Connection attempts before giving up.
pub const MAX_RETRIES: u32 = 5;

/// Pause between connection attempts.
pub const RETRY_DELAY_MS: u64 = 1000;

/// The client's reading of the server's answer to its handshake.
#[derive(Debug, Clone, Copy, PartialEq, Eq, Structural)]
pub enum Ack {
    /// Verdict `0x01`: the connection is handed over.
    Accepted,
    /// Any other verdict byte is an explicit refusal, not worth retrying with the same nonce.
    Rejected,
    /// No verdict (timeout, closed pipe, unexpected frame): worth retrying.
    Lost,
}

pub open spec fn spec_classify(reply: Option<PayloadView>) -> Ack {
    match reply {
        Some(PayloadView::HandshakeAck(v)) => if v == HANDSHAKE_ACCEPTED {
            Ack::Accepted
        } else {
            Ack::Rejected
        },
        _ => Ack::Lost,
    }
}

/// Reads the server's reply to the handshake (`None`: nothing readable arrived in time).
pub fn classify_ack(reply: Option<&Payload>) -> (a: Ack)
    ensures
        a == spec_classify(received_view(reply)),
{
    match reply {
        Some(Payload::HandshakeAck(v)) => {
            if *v == HANDSHAKE_ACCEPTED {
                Ack::Accepted
            } else {
                Ack::Rejected
            }
        },
        _ => Ack::Lost,
    }
}

/// The handshake frame carrying the nonce.
pub fn handshake_frame(nonce: [u8; NONCE_LEN]) -> (f: Frame)
    ensures
        f@ == (FrameView { frame_type: FrameType::Handshake, payload: PayloadView::Handshake(nonce@) }),
        well_formed(f@),
{
    Frame { frame_type: FrameType::Handshake, payload: Payload::Handshake(nonce) }
}

/// What one connection attempt produced.
#[derive(Debug, Clone, Copy, PartialEq, Eq, Structural)]
pub enum AttemptOutcome {
    /// The pipe opened and the handshake ended this way.
    Handshake(Ack),
    /// The pipe could not be opened.
    Unreachable,
}

/// What the client does after an attempt.
#[derive(Debug, Clone, Copy, PartialEq, Eq, Structural)]
pub enum ConnectStep {
    /// The connection is ready.
    Connected,
    /// The server refused the nonce; stop without retrying.
    Refused,
    /// Wait `RETRY_DELAY_MS`, then try again.
    RetryAfterDelay,
    /// All attempts are spent; fail with the last error.
    GiveUp,
}

pub open spec fn spec_after_attempt(attempt: u32, outcome: AttemptOutcome) -> ConnectStep {
    match outcome {
        AttemptOutcome::Handshake(Ack::Accepted) => ConnectStep::Connected,
        AttemptOutcome::Handshake(Ack::Rejected) => ConnectStep::Refused,
        _ => if attempt + 1 < MAX_RETRIES {
            ConnectStep::RetryAfterDelay
        } else {
            ConnectStep::GiveUp
        },
    }
}

/// The retry policy: an accepted handshake connects, an explicit refusal
/// stops at once, anything else is retried after a pause until
/// `MAX_RETRIES` attempts (numbered from 0) have been made.
pub fn after_attempt(attempt: u32, outcome: AttemptOutcome) -> (s: ConnectStep)
    requires
        attempt < MAX_RETRIES,
    ensures
        s == spec_after_attempt(attempt, outcome),
{
    match outcome {
        AttemptOutcome::Handshake(Ack::Accepted) => ConnectStep::Connected,
        AttemptOutcome::Handshake(Ack::Rejected) => ConnectStep::Refused,
        _ => {
            if attempt + 1 < MAX_RETRIES {
                ConnectStep::RetryAfterDelay
            } else {
                ConnectStep::GiveUp
            }
        },
    }
}

/// The result frame a client waits for after sending a batch, skipping others.
pub fn as_mouse_result(p: &Payload) -> (r: Option<RelativeMouseResult>)
    ensures
        r == match p@ {
            PayloadView::RelativeMouseResult(x) => Some(x),
            _ => None::<RelativeMouseResult>,
        },
{
    match p {
        Payload::RelativeMouseResult(x) => Some(*x),
        _ => None,
    }
}

/// The JSON text a client waits for after sending JSON, skipping other frames.
pub fn as_json(p: Payload) -> (r: Option<String>)
    ensures
        match p@ {
            PayloadView::Utf8Json(s) => r matches Some(t) && t@ == s,
            _ => r is None,
        },
{
    match p {
        Payload::Utf8Json(s) => Some(s),
        _ => None,
    }
}

/// The agent-side pipe client; the nonce is read from `nonce_path` (a file,
/// or a directory whose newest nonce file is used).
pub struct PipeClient {
    nonce_path: String,
}

impl PipeClient {
    pub closed spec fn spec_nonce_path(&self) -> Seq<char> {
        self.nonce_path@
    }

    pub fn new(nonce_path: String) -> (c: Self)
        ensures
            c.spec_nonce_path() == nonce_path@,
    {
        PipeClient { nonce_path }
    }

    /// A client reading its nonce from the default nonce directory.
    pub fn with_default_nonce_dir(default_dir: String) -> (c: Self)
        ensures
            c.spec_nonce_path() == default_dir@,
    {
        Self::new(default_dir)
    }

    pub fn nonce_path(&self) -> (p: &str)
        ensures
            p@ == self.spec_nonce_path(),
    {
        self.nonce_path.as_str()
    }
}

/// A client that sends the nonce a server expects is accepted; one that
/// sends any other nonce gets an explicit refusal, never a lost connection.
pub proof fn lemma_handshake_loopback(expected: Seq<u8>, sent: Seq<u8>)
    ensures
        spec_classify(
            Some(
                verdict_frame_view(
                    spec_verdict(Some(expected), Some(PayloadView::Handshake(sent))),
                ).payload,
            ),
        ) == if sent == expected {
            Ack::Accepted
        } else {
            Ack::Rejected
        },
{
}

/// A server without a nonce refuses explicitly whatever the client sends.
pub proof fn lemma_handshake_without_nonce_refused(sent: Option<PayloadView>)
    ensures
        spec_classify(Some(verdict_frame_view(spec_verdict(None, sent)).payload)) == Ack::Rejected,
{
}

/// The client makes at most `MAX_RETRIES` attempts, and never retries after a refusal.
pub proof fn lemma_retry_bounded(attempt: u32, outcome: AttemptOutcome)
    requires
        attempt < MAX_RETRIES,
    ensures
        spec_after_attempt(attempt, outcome) == ConnectStep::RetryAfterDelay ==> attempt + 1
            < MAX_RETRIES,
        outcome == AttemptOutcome::Handshake(Ack::Rejected) ==> spec_after_attempt(attempt, outcome)
            == ConnectStep::Refused,
        attempt + 1 == MAX_RETRIES && spec_after_attempt(attempt, outcome)
            != ConnectStep::Connected && spec_after_attempt(attempt, outcome)
            != ConnectStep::Refused ==> spec_after_attempt(attempt, outcome) == ConnectStep::GiveUp,
{
}

/// How a client connect ends.
#[derive(Debug, Clone, Copy, PartialEq, Eq, Structural)]
pub enum ClientEnd {
    /// The handshake was accepted; the connection is ready.
    Connected,
    /// No nonce could be read: the client refuses to connect at all.
    NoNonce,
    /// The server refused the nonce.
    Refused,
    /// Every attempt failed.
    GaveUp,
}

/// Where a client connect stands.
#[derive(Debug, Clone, Copy, PartialEq, Eq, Structural)]
pub enum ClientState {
    /// Reading (and deleting) the one-time nonce; no pipe is opened yet.
    ReadingNonce,
    /// The nonce is held; making attempt number `attempt` (from 0).
    Attempting { attempt: u32 },
    /// Attempt `attempt` failed; pausing before the next one.
    Pausing { attempt: u32 },
    /// Finished.
    Done(ClientEnd),
}

/// What happened when the last action was carried out.
#[derive(Debug, Clone, Copy, PartialEq, Eq, Structural)]
pub enum ClientEvent {
    /// Reading the nonce succeeded (`true`) or found none.
    NonceRead(bool),
    /// An attempt to open the pipe and pass the handshake ended this way.
    Attempted(AttemptOutcome),
    /// The pause is over.
    Paused,
}

/// What the client does next.
#[derive(Debug, Clone, Copy, PartialEq, Eq, Structural)]
pub enum ClientAction {
    /// Read and delete the nonce file.
    ReadNonce,
    /// Open the pipe and send the handshake with the nonce that was read.
    OpenAndHandshake,
    /// Wait this many milliseconds.
    Pause(u64),
    /// Stop with this end.
    Finish(ClientEnd),
}

pub open spec fn client_action(s: ClientState) -> ClientAction {
    match s {
        ClientState::ReadingNonce => ClientAction::ReadNonce,
        ClientState::Attempting { .. } => ClientAction::OpenAndHandshake,
        ClientState::Pausing { .. } => ClientAction::Pause(RETRY_DELAY_MS),
        ClientState::Done(e) => ClientAction::Finish(e),
    }
}

/// One step of a client connect: the nonce is read before anything else,
/// and without it the client stops (fail closed); then each attempt follows
/// the retry policy of `after_attempt`, with a pause between attempts. An
/// event the state does not wait on changes nothing.
pub open spec fn spec_client_step(s: ClientState, ev: ClientEvent) -> ClientState {
    match (s, ev) {
        (ClientState::ReadingNonce, ClientEvent::NonceRead(ok)) => if ok {
            ClientState::Attempting { attempt: 0 }
        } else {
            ClientState::Done(ClientEnd::NoNonce)
        },
        (ClientState::Attempting { attempt }, ClientEvent::Attempted(o)) => if attempt
            < MAX_RETRIES {
            match spec_after_attempt(attempt, o) {
                ConnectStep::Connected => ClientState::Done(ClientEnd::Connected),
                ConnectStep::Refused => ClientState::Done(ClientEnd::Refused),
                ConnectStep::RetryAfterDelay => ClientState::Pausing { attempt },
                ConnectStep::GiveUp => ClientState::Done(ClientEnd::GaveUp),
            }
        } else {
            ClientState::Done(ClientEnd::GaveUp)
        },
        (ClientState::Pausing { attempt }, ClientEvent::Paused) => if attempt + 1 < MAX_RETRIES {
            ClientState::Attempting { attempt: (attempt + 1) as u32 }
        } else {
            ClientState::Done(ClientEnd::GaveUp)
        },
        _ => s,
    }
}

/// The first state of a client connect and its action.
pub fn client_begin() -> (r: (ClientState, ClientAction))
    ensures
        r.0 == ClientState::ReadingNonce,
        r.1 == client_action(r.0),
{
    (ClientState::ReadingNonce, ClientAction::ReadNonce)
}

/// Advances a client connect by one event: the next state and its action.
pub fn client_step(s: ClientState, ev: ClientEvent) -> (r: (ClientState, ClientAction))
    ensures
        r.0 == spec_client_step(s, ev),
        r.1 == client_action(r.0),
{
    let next = match (s, ev) {
        (ClientState::ReadingNonce, ClientEvent::NonceRead(ok)) => if ok {
            ClientState::Attempting { attempt: 0 }
        } else {
            ClientState::Done(ClientEnd::NoNonce)
        },
        (ClientState::Attempting { attempt }, ClientEvent::Attempted(o)) => if attempt
            < MAX_RETRIES {
            match after_attempt(attempt, o) {
                ConnectStep::Connected => ClientState::Done(ClientEnd::Connected),
                ConnectStep::Refused => ClientState::Done(ClientEnd::Refused),
                ConnectStep::RetryAfterDelay => ClientState::Pausing { attempt },
                ConnectStep::GiveUp => ClientState::Done(ClientEnd::GaveUp),
            }
        } else {
            ClientState::Done(ClientEnd::GaveUp)
        },
        (ClientState::Pausing { attempt }, ClientEvent::Paused) => if attempt < MAX_RETRIES - 1 {
            ClientState::Attempting { attempt: attempt + 1 }
        } else {
            ClientState::Done(ClientEnd::GaveUp)
        },
        _ => s,
    };
    let action = match next {
        ClientState::ReadingNonce => ClientAction::ReadNonce,
        ClientState::Attempting { .. } => ClientAction::OpenAndHandshake,
        ClientState::Pausing { .. } => ClientAction::Pause(RETRY_DELAY_MS),
        ClientState::Done(e) => ClientAction::Finish(e),
    };
    (next, action)
}

/// A client connect fails closed and stays bounded: a pipe is opened (an
/// attempting state) only once a nonce was read, since the only way into
/// the attempts is reading the nonce with success; without a nonce it ends
/// `NoNonce` and never attempts; attempts are numbered below `MAX_RETRIES`;
/// a refusal ends it at once; and a finished connect stays finished.
pub proof fn lemma_client_fails_closed(s: ClientState, ev: ClientEvent)
    ensures
        ({
            let n = spec_client_step(s, ev);
            &&& (n is Attempting && !(s is Attempting || s is Pausing)) ==> s
                == ClientState::ReadingNonce && ev == ClientEvent::NonceRead(true)
            &&& (s == ClientState::ReadingNonce && ev == ClientEvent::NonceRead(false)) ==> n
                == ClientState::Done(ClientEnd::NoNonce)
            &&& (s == ClientState::ReadingNonce) ==> !(n is Pausing) && (n is Attempting ==> n
                == ClientState::Attempting { attempt: 0 })
            &&& s != n ==> (n matches ClientState::Attempting { attempt } ==> attempt < MAX_RETRIES)
            &&& s != n ==> (n matches ClientState::Pausing { attempt } ==> attempt + 1 < MAX_RETRIES)
            &&& s matches ClientState::Attempting { attempt } ==> (attempt < MAX_RETRIES && ev
                == ClientEvent::Attempted(AttemptOutcome::Handshake(Ack::Rejected)) ==> n
                == ClientState::Done(ClientEnd::Refused))
            &&& s is Done ==> n == s
        }),
{
}

} // verus!
