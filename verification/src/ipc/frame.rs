//! The pipe frame protocol: a 5-byte header (payload length as little-endian
//! `u32`, then the frame type) followed by at most 1 MiB of payload.
use vstd::prelude::*;
use crate::ipc::wire::{
    u16_le, u32_le, u64_le, u16_at, u32_at, u64_at, put_u16, put_u32, put_u64, get_u16, get_u32,
    get_u64, lemma_u16_at, lemma_u32_at, lemma_u64_at, lemma_i32_bits, lemma_i64_bits,
};
use crate::text::{owned, string_from_utf8, utf8_bytes};

verus! {

/// Largest payload a frame may carry (1 MiB).
pub const MAX_PAYLOAD: u32 = 1048576;

/// Length of a handshake nonce.
pub const NONCE_LEN: usize = 32;

/// Length of the frame header.
pub const HEADER_LEN: usize = 5;

/// Handshake verdict byte: accepted.
pub const HANDSHAKE_ACCEPTED: u8 = 1;

/// Handshake verdict byte: rejected.
pub const HANDSHAKE_REJECTED: u8 = 0;

/// Largest number of events a mouse batch can declare.
pub const MAX_BATCH_EVENTS: usize = 65535;

/// Fixed part of a mouse batch payload: count, first sequence, base ticks.
pub const BATCH_HEADER_LEN: usize = 18;

/// Encoded size of one mouse event.
pub const EVENT_LEN: usize = 16;

#[derive(Debug, Clone, Copy, PartialEq, Eq, Structural)]
pub enum FrameType {
    Utf8Json,
    RelativeMouseBatch,
    RelativeMouseResult,
    Handshake,
    HandshakeAck,
}

impl FrameType {
    /// The wire code of the frame type.
    pub open spec fn spec_code(self) -> u8 {
        match self {
            FrameType::Utf8Json => 1,
            FrameType::RelativeMouseBatch => 2,
            FrameType::RelativeMouseResult => 3,
            FrameType::Handshake => 4,
            FrameType::HandshakeAck => 5,
        }
    }

    /// The frame type with wire code `v`, if any.
    pub open spec fn spec_from_code(v: u8) -> Option<FrameType> {
        if v == 1 {
            Some(FrameType::Utf8Json)
        } else if v == 2 {
            Some(FrameType::RelativeMouseBatch)
        } else if v == 3 {
            Some(FrameType::RelativeMouseResult)
        } else if v == 4 {
            Some(FrameType::Handshake)
        } else if v == 5 {
            Some(FrameType::HandshakeAck)
        } else {
            None
        }
    }

    pub fn code(&self) -> (c: u8)
        ensures
            c == self.spec_code(),
            *self == FrameType::RelativeMouseBatch <==> c == 2,
            *self == FrameType::RelativeMouseResult <==> c == 3,
    {
        match self {
            FrameType::Utf8Json => 1,
            FrameType::RelativeMouseBatch => 2,
            FrameType::RelativeMouseResult => 3,
            FrameType::Handshake => 4,
            FrameType::HandshakeAck => 5,
        }
    }

    pub fn from_code(v: u8) -> (t: Option<FrameType>)
        ensures
            t == Self::spec_from_code(v),
            t == Some(FrameType::RelativeMouseBatch) <==> v == 2,
            t == Some(FrameType::RelativeMouseResult) <==> v == 3,
    {
        if v == 1 {
            Some(FrameType::Utf8Json)
        } else if v == 2 {
            Some(FrameType::RelativeMouseBatch)
        } else if v == 3 {
            Some(FrameType::RelativeMouseResult)
        } else if v == 4 {
            Some(FrameType::Handshake)
        } else if v == 5 {
            Some(FrameType::HandshakeAck)
        } else {
            None
        }
    }
}

#[derive(Debug, Clone, Copy)]
pub struct MouseEvent {
    pub dx: i32,
    pub dy: i32,
    pub rel_ticks: i64,
}

#[derive(Debug, Clone)]
pub struct RelativeMouseBatch {
    pub count: u16,
    pub first_seq: u64,
    pub base_ticks: i64,
    pub events: Vec<MouseEvent>,
}

pub struct BatchView {
    pub count: u16,
    pub first_seq: u64,
    pub base_ticks: i64,
    pub events: Seq<MouseEvent>,
}

impl View for RelativeMouseBatch {
    type V = BatchView;

    open spec fn view(&self) -> BatchView {
        BatchView {
            count: self.count,
            first_seq: self.first_seq,
            base_ticks: self.base_ticks,
            events: self.events@,
        }
    }
}

#[derive(Debug, Clone, Copy)]
pub struct RelativeMouseResult {
    pub last_seq: u64,
    pub handled: bool,
}

#[derive(Debug, Clone)]
pub enum Payload {
    Utf8Json(String),
    RelativeMouseBatch(RelativeMouseBatch),
    RelativeMouseResult(RelativeMouseResult),
    Handshake([u8; NONCE_LEN]),
    /// The server's answer to a handshake, `HANDSHAKE_ACCEPTED` or `HANDSHAKE_REJECTED`.
    HandshakeAck(u8),
}

pub enum PayloadView {
    Utf8Json(Seq<char>),
    RelativeMouseBatch(BatchView),
    RelativeMouseResult(RelativeMouseResult),
    Handshake(Seq<u8>),
    HandshakeAck(u8),
}

impl View for Payload {
    type V = PayloadView;

    open spec fn view(&self) -> PayloadView {
        match self {
            Payload::Utf8Json(s) => PayloadView::Utf8Json(s@),
            Payload::RelativeMouseBatch(b) => PayloadView::RelativeMouseBatch(b@),
            Payload::RelativeMouseResult(r) => PayloadView::RelativeMouseResult(*r),
            Payload::Handshake(n) => PayloadView::Handshake(n@),
            Payload::HandshakeAck(v) => PayloadView::HandshakeAck(*v),
        }
    }
}

pub struct Frame {
    pub frame_type: FrameType,
    pub payload: Payload,
}

pub struct FrameView {
    pub frame_type: FrameType,
    pub payload: PayloadView,
}

impl View for Frame {
    type V = FrameView;

    open spec fn view(&self) -> FrameView {
        FrameView { frame_type: self.frame_type, payload: self.payload@ }
    }
}

/// Why a frame could not be read.
#[derive(Debug, Clone, Copy, PartialEq, Eq, Structural)]
pub enum FrameError {
    UnknownFrameType,
    PayloadTooLarge,
    UnexpectedEof,
    InvalidUtf8,
    BatchTooShort,
    BatchLengthMismatch,
    ResultLength,
    NonceLength,
    VerdictLength,
}

impl FrameError {
    pub open spec fn spec_message(self) -> Seq<char> {
        match self {
            FrameError::UnknownFrameType => "未知帧类型"@,
            FrameError::PayloadTooLarge => "载荷超过 1MB"@,
            FrameError::UnexpectedEof => "failed to fill whole buffer"@,
            FrameError::InvalidUtf8 => "UTF-8 解码失败"@,
            FrameError::BatchTooShort => "批载荷过短"@,
            FrameError::BatchLengthMismatch => "批载荷长度不匹配"@,
            FrameError::ResultLength => "结果载荷长度错误"@,
            FrameError::NonceLength => "Nonce 长度错误"@,
            FrameError::VerdictLength => "verdict 长度错误"@,
        }
    }

    /// The human-readable description of the error.
    pub fn message(&self) -> (m: String)
        ensures
            m@ == self.spec_message(),
    {
        match self {
            FrameError::UnknownFrameType => owned("未知帧类型"),
            FrameError::PayloadTooLarge => owned("载荷超过 1MB"),
            FrameError::UnexpectedEof => owned("failed to fill whole buffer"),
            FrameError::InvalidUtf8 => owned("UTF-8 解码失败"),
            FrameError::BatchTooShort => owned("批载荷过短"),
            FrameError::BatchLengthMismatch => owned("批载荷长度不匹配"),
            FrameError::ResultLength => owned("结果载荷长度错误"),
            FrameError::NonceLength => owned("Nonce 长度错误"),
            FrameError::VerdictLength => owned("verdict 长度错误"),
        }
    }

    /// Every error but a truncated stream is malformed data.
    pub fn is_invalid_data(&self) -> (r: bool)
        ensures
            r == (*self != FrameError::UnexpectedEof),
    {
        !matches!(self, FrameError::UnexpectedEof)
    }
}

// ---------------------------------------------------------------------------
// Encoding
// ---------------------------------------------------------------------------

pub open spec fn event_bytes(e: MouseEvent) -> Seq<u8> {
    u32_le(e.dx as u32) + u32_le(e.dy as u32) + u64_le(e.rel_ticks as u64)
}

pub open spec fn events_bytes(s: Seq<MouseEvent>) -> Seq<u8>
    decreases s.len(),
{
    if s.len() == 0 {
        Seq::empty()
    } else {
        events_bytes(s.drop_last()) + event_bytes(s.last())
    }
}

pub open spec fn bool_byte(b: bool) -> u8 {
    if b {
        1
    } else {
        0
    }
}

/// The wire bytes of a payload.
pub open spec fn payload_bytes(p: PayloadView) -> Seq<u8> {
    match p {
        PayloadView::Utf8Json(s) => vstd::utf8::encode_utf8(s),
        PayloadView::RelativeMouseBatch(b) => u16_le(b.count) + u64_le(b.first_seq) + u64_le(
            b.base_ticks as u64,
        ) + events_bytes(b.events),
        PayloadView::RelativeMouseResult(r) => u64_le(r.last_seq) + seq![bool_byte(r.handled)],
        PayloadView::Handshake(n) => n,
        PayloadView::HandshakeAck(v) => seq![v],
    }
}

/// The wire bytes of a frame: payload length, type code, payload.
pub open spec fn frame_bytes(f: FrameView) -> Seq<u8> {
    let p = payload_bytes(f.payload);
    u32_le(p.len() as u32) + seq![f.frame_type.spec_code()] + p
}

/// The frame type that matches a payload.
pub open spec fn payload_type(p: PayloadView) -> FrameType {
    match p {
        PayloadView::Utf8Json(_) => FrameType::Utf8Json,
        PayloadView::RelativeMouseBatch(_) => FrameType::RelativeMouseBatch,
        PayloadView::RelativeMouseResult(_) => FrameType::RelativeMouseResult,
        PayloadView::Handshake(_) => FrameType::Handshake,
        PayloadView::HandshakeAck(_) => FrameType::HandshakeAck,
    }
}

/// A frame that a peer can read back: its type matches its payload, a batch
/// declares as many events as it holds, a nonce has 32 bytes, and the payload
/// fits in 1 MiB.
pub open spec fn well_formed(f: FrameView) -> bool {
    &&& f.frame_type == payload_type(f.payload)
    &&& payload_bytes(f.payload).len() <= MAX_PAYLOAD
    &&& (f.payload matches PayloadView::RelativeMouseBatch(b) ==> b.count == b.events.len())
    &&& (f.payload matches PayloadView::Handshake(n) ==> n.len() == NONCE_LEN)
}

proof fn lemma_events_bytes_len(s: Seq<MouseEvent>)
    ensures
        events_bytes(s).len() == 16 * s.len(),
    decreases s.len(),
{
    if s.len() > 0 {
        lemma_events_bytes_len(s.drop_last());
    }
}

proof fn lemma_events_bytes_snoc(s: Seq<MouseEvent>, i: int)
    requires
        0 <= i < s.len(),
    ensures
        events_bytes(s.subrange(0, i + 1)) == events_bytes(s.subrange(0, i)) + event_bytes(s[i]),
{
    assert(s.subrange(0, i + 1).drop_last() =~= s.subrange(0, i));
}

/// Event `i` sits at bytes `16 * i .. 16 * i + 16` of the encoded events.
proof fn lemma_events_bytes_at(s: Seq<MouseEvent>, i: int)
    requires
        0 <= i < s.len(),
    ensures
        events_bytes(s).subrange(16 * i, 16 * i + 16) == event_bytes(s[i]),
    decreases s.len(),
{
    let init = s.drop_last();
    lemma_events_bytes_len(init);
    if i == s.len() - 1 {
        assert(events_bytes(s).subrange(16 * i, 16 * i + 16) =~= event_bytes(s[i]));
    } else {
        lemma_events_bytes_at(init, i);
        assert(events_bytes(s).subrange(16 * i, 16 * i + 16) =~= events_bytes(init).subrange(
            16 * i,
            16 * i + 16,
        ));
    }
}

fn put_event(buf: &mut Vec<u8>, e: &MouseEvent)
    ensures
        final(buf)@ == old(buf)@ + event_bytes(*e),
{
    put_u32(buf, e.dx as u32);
    put_u32(buf, e.dy as u32);
    put_u64(buf, e.rel_ticks as u64);
    assert(final(buf)@ =~= old(buf)@ + event_bytes(*e));
}

impl Payload {
    /// The wire bytes of the payload.
    pub fn encode(&self) -> (bytes: Vec<u8>)
        ensures
            bytes@ == payload_bytes(self@),
    {
        match self {
            Payload::Utf8Json(s) => utf8_bytes(s.as_str()),
            Payload::RelativeMouseBatch(b) => {
                let mut buf: Vec<u8> = Vec::new();
                put_u16(&mut buf, b.count);
                put_u64(&mut buf, b.first_seq);
                put_u64(&mut buf, b.base_ticks as u64);
                let ghost head = buf@;
                let n = b.events.len();
                let mut i: usize = 0;
                while i < n
                    invariant
                        n == b.events@.len(),
                        i <= n,
                        buf@ == head + events_bytes(b.events@.subrange(0, i as int)),
                    decreases n - i,
                {
                    proof {
                        lemma_events_bytes_snoc(b.events@, i as int);
                    }
                    put_event(&mut buf, &b.events[i]);
                    i = i + 1;
                    assert(buf@ =~= head + events_bytes(b.events@.subrange(0, i as int)));
                }
                assert(b.events@.subrange(0, n as int) =~= b.events@);
                assert(buf@ =~= payload_bytes(self@));
                buf
            },
            Payload::RelativeMouseResult(r) => {
                let mut buf: Vec<u8> = Vec::new();
                put_u64(&mut buf, r.last_seq);
                buf.push(if r.handled { 1u8 } else { 0u8 });
                assert(buf@ =~= payload_bytes(self@));
                buf
            },
            Payload::Handshake(n) => {
                let mut buf: Vec<u8> = Vec::new();
                let mut i: usize = 0;
                while i < NONCE_LEN
                    invariant
                        n@.len() == NONCE_LEN,
                        i <= NONCE_LEN,
                        buf@ == n@.subrange(0, i as int),
                    decreases NONCE_LEN - i,
                {
                    buf.push(n[i]);
                    i = i + 1;
                    assert(buf@ =~= n@.subrange(0, i as int));
                }
                assert(buf@ =~= n@);
                buf
            },
            Payload::HandshakeAck(v) => {
                let mut buf: Vec<u8> = Vec::new();
                buf.push(*v);
                assert(buf@ =~= payload_bytes(self@));
                buf
            },
        }
    }
}

/// Stops a payload larger than 1 MiB from being framed; callers pass only lengths that fit.
pub fn guard_payload_len(len: usize)
    requires
        len <= MAX_PAYLOAD,
{
}

/// Stops a batch declaring more than 65535 events; callers pass only counts that fit.
pub fn guard_count(count: usize)
    requires
        count <= MAX_BATCH_EVENTS,
{
}

impl Frame {
    /// The wire bytes of the frame. The payload must fit in 1 MiB.
    pub fn encode(&self) -> (bytes: Vec<u8>)
        requires
            payload_bytes(self.payload@).len() <= MAX_PAYLOAD,
        ensures
            bytes@ == frame_bytes(self@),
    {
        let payload_bytes = self.payload.encode();
        guard_payload_len(payload_bytes.len());
        let mut buf: Vec<u8> = Vec::new();
        put_u32(&mut buf, payload_bytes.len() as u32);
        buf.push(self.frame_type.code());
        let mut i: usize = 0;
        let ghost head = buf@;
        let n = payload_bytes.len();
        while i < n
            invariant
                n == payload_bytes@.len(),
                i <= n,
                buf@ == head + payload_bytes@.subrange(0, i as int),
            decreases n - i,
        {
            buf.push(payload_bytes[i]);
            i = i + 1;
            assert(buf@ =~= head + payload_bytes@.subrange(0, i as int));
        }
        assert(payload_bytes@.subrange(0, n as int) =~= payload_bytes@);
        assert(buf@ =~= frame_bytes(self@));
        buf
    }
}

// ---------------------------------------------------------------------------
// Decoding
// ---------------------------------------------------------------------------

/// The mouse event whose 16 bytes start at `off`.
pub open spec fn event_at(data: Seq<u8>, off: int) -> MouseEvent {
    MouseEvent {
        dx: u32_at(data, off) as i32,
        dy: u32_at(data, off + 4) as i32,
        rel_ticks: u64_at(data, off + 8) as i64,
    }
}

/// What a payload of type `t` decodes to.
pub open spec fn decode_payload(t: FrameType, data: Seq<u8>) -> Result<PayloadView, FrameError> {
    match t {
        FrameType::Utf8Json => if vstd::utf8::valid_utf8(data) {
            Ok(PayloadView::Utf8Json(vstd::utf8::decode_utf8(data)))
        } else {
            Err(FrameError::InvalidUtf8)
        },
        FrameType::RelativeMouseBatch => if data.len() < BATCH_HEADER_LEN {
            Err(FrameError::BatchTooShort)
        } else if data.len() != BATCH_HEADER_LEN + EVENT_LEN * u16_at(data, 0) {
            Err(FrameError::BatchLengthMismatch)
        } else {
            Ok(
                PayloadView::RelativeMouseBatch(
                    BatchView {
                        count: u16_at(data, 0),
                        first_seq: u64_at(data, 2),
                        base_ticks: u64_at(data, 10) as i64,
                        events: Seq::new(
                            u16_at(data, 0) as nat,
                            |i: int| event_at(data, BATCH_HEADER_LEN + EVENT_LEN * i),
                        ),
                    },
                ),
            )
        },
        FrameType::RelativeMouseResult => if data.len() != 9 {
            Err(FrameError::ResultLength)
        } else {
            Ok(
                PayloadView::RelativeMouseResult(
                    RelativeMouseResult { last_seq: u64_at(data, 0), handled: data[8] != 0 },
                ),
            )
        },
        FrameType::Handshake => if data.len() != NONCE_LEN {
            Err(FrameError::NonceLength)
        } else {
            Ok(PayloadView::Handshake(data))
        },
        FrameType::HandshakeAck => if data.len() != 1 {
            Err(FrameError::VerdictLength)
        } else {
            Ok(PayloadView::HandshakeAck(data[0]))
        },
    }
}

pub open spec fn payload_result_view(r: Result<Payload, FrameError>) -> Result<PayloadView, FrameError> {
    match r {
        Ok(p) => Ok(p@),
        Err(e) => Err(e),
    }
}

pub open spec fn frame_result_view(r: Result<Frame, FrameError>) -> Result<FrameView, FrameError> {
    match r {
        Ok(f) => Ok(f@),
        Err(e) => Err(e),
    }
}

pub open spec fn read_result_view(r: Result<Option<Frame>, FrameError>) -> Result<
    Option<FrameView>,
    FrameError,
> {
    match r {
        Ok(Some(f)) => Ok(Some(f@)),
        Ok(None) => Ok(None),
        Err(e) => Err(e),
    }
}

/// What the header `h` announces: payload length and type byte, or the error
/// for a payload larger than 1 MiB.
pub open spec fn decode_header_spec(h: Seq<u8>) -> Result<(usize, u8), FrameError> {
    if u32_at(h, 0) > MAX_PAYLOAD {
        Err(FrameError::PayloadTooLarge)
    } else {
        Ok((u32_at(h, 0) as usize, h[4]))
    }
}

/// The frame made of a type byte and a payload.
pub open spec fn decode_body_spec(type_byte: u8, payload: Seq<u8>) -> Result<FrameView, FrameError> {
    match FrameType::spec_from_code(type_byte) {
        None => Err(FrameError::UnknownFrameType),
        Some(t) => match decode_payload(t, payload) {
            Ok(p) => Ok(FrameView { frame_type: t, payload: p }),
            Err(e) => Err(e),
        },
    }
}

/// Reading one frame from the front of `data`: the outcome, and how many bytes
/// the read consumed. A stream shorter than a header is a clean end; a
/// truncated payload is `UnexpectedEof`; a header over 1 MiB is refused
/// before its payload is read.
pub open spec fn decode_step(data: Seq<u8>) -> (Result<Option<FrameView>, FrameError>, nat) {
    if data.len() < HEADER_LEN {
        (Ok(None), data.len())
    } else {
        match decode_header_spec(data) {
            Err(e) => (Err(e), HEADER_LEN as nat),
            Ok((len, type_byte)) => if data.len() < HEADER_LEN + len {
                (Err(FrameError::UnexpectedEof), data.len())
            } else {
                match decode_body_spec(type_byte, data.subrange(5, 5 + len)) {
                    Ok(f) => (Ok(Some(f)), (HEADER_LEN + len) as nat),
                    Err(e) => (Err(e), (HEADER_LEN + len) as nat),
                }
            },
        }
    }
}

impl Payload {
    /// Decodes a payload of type `frame_type`.
    pub fn decode(frame_type: FrameType, data: &[u8]) -> (res: Result<Payload, FrameError>)
        ensures
            payload_result_view(res) == decode_payload(frame_type, data@),
    {
        match frame_type {
            FrameType::Utf8Json => {
                let bytes = vstd::slice::slice_to_vec(data);
                match string_from_utf8(bytes) {
                    Some(s) => Ok(Payload::Utf8Json(s)),
                    None => Err(FrameError::InvalidUtf8),
                }
            },
            FrameType::RelativeMouseBatch => {
                if data.len() < BATCH_HEADER_LEN {
                    return Err(FrameError::BatchTooShort);
                }
                let count = get_u16(data, 0) as usize;
                let expected = BATCH_HEADER_LEN + count * EVENT_LEN;
                if data.len() != expected {
                    return Err(FrameError::BatchLengthMismatch);
                }
                let first_seq = get_u64(data, 2);
                let base_ticks = get_u64(data, 10) as i64;
                let mut events: Vec<MouseEvent> = Vec::new();
                let mut off: usize = BATCH_HEADER_LEN;
                let mut i: usize = 0;
                while i < count
                    invariant
                        data@.len() == BATCH_HEADER_LEN + EVENT_LEN * count,
                        expected == data@.len(),
                        i <= count,
                        off == BATCH_HEADER_LEN + EVENT_LEN * i,
                        events@ == Seq::new(
                            i as nat,
                            |k: int| event_at(data@, BATCH_HEADER_LEN + EVENT_LEN * k),
                        ),
                    decreases count - i,
                {
                    let dx = get_u32(data, off) as i32;
                    let dy = get_u32(data, off + 4) as i32;
                    let rel_ticks = get_u64(data, off + 8) as i64;
                    events.push(MouseEvent { dx, dy, rel_ticks });
                    off = off + EVENT_LEN;
                    i = i + 1;
                    assert(events@ =~= Seq::new(
                        i as nat,
                        |k: int| event_at(data@, BATCH_HEADER_LEN + EVENT_LEN * k),
                    ));
                }
                Ok(
                    Payload::RelativeMouseBatch(
                        RelativeMouseBatch { count: count as u16, first_seq, base_ticks, events },
                    ),
                )
            },
            FrameType::RelativeMouseResult => {
                if data.len() != 9 {
                    return Err(FrameError::ResultLength);
                }
                let last_seq = get_u64(data, 0);
                let handled = data[8] != 0;
                Ok(Payload::RelativeMouseResult(RelativeMouseResult { last_seq, handled }))
            },
            FrameType::Handshake => {
                if data.len() != NONCE_LEN {
                    return Err(FrameError::NonceLength);
                }
                let mut nonce = [0u8; NONCE_LEN];
                let mut i: usize = 0;
                while i < NONCE_LEN
                    invariant
                        data@.len() == NONCE_LEN,
                        nonce@.len() == NONCE_LEN,
                        i <= NONCE_LEN,
                        forall|k: int| 0 <= k < i ==> nonce@[k] == data@[k],
                    decreases NONCE_LEN - i,
                {
                    nonce[i] = data[i];
                    i = i + 1;
                }
                assert(nonce@ =~= data@);
                Ok(Payload::Handshake(nonce))
            },
            FrameType::HandshakeAck => {
                if data.len() != 1 {
                    return Err(FrameError::VerdictLength);
                }
                Ok(Payload::HandshakeAck(data[0]))
            },
        }
    }
}

/// Reads a frame header: the payload length and the type byte.
pub fn decode_header(header: &[u8]) -> (res: Result<(usize, u8), FrameError>)
    requires
        header@.len() == HEADER_LEN,
    ensures
        res == decode_header_spec(header@),
{
    let len = get_u32(header, 0);
    if len > MAX_PAYLOAD {
        return Err(FrameError::PayloadTooLarge);
    }
    Ok((len as usize, header[4]))
}

/// Builds the frame of type code `type_byte` from its payload bytes.
pub fn decode_body(type_byte: u8, payload: &[u8]) -> (res: Result<Frame, FrameError>)
    ensures
        frame_result_view(res) == decode_body_spec(type_byte, payload@),
{
    match FrameType::from_code(type_byte) {
        None => Err(FrameError::UnknownFrameType),
        Some(frame_type) => match Payload::decode(frame_type, payload) {
            Ok(p) => Ok(Frame { frame_type, payload: p }),
            Err(e) => Err(e),
        },
    }
}

/// Reads one frame from the front of `data`; also returns how many bytes it consumed.
fn decode_prefix(data: &[u8]) -> (res: (Result<Option<Frame>, FrameError>, usize))
    ensures
        read_result_view(res.0) == decode_step(data@).0,
        res.1 == decode_step(data@).1,
{
    let n = data.len();
    if n < HEADER_LEN {
        return (Ok(None), n);
    }
    let header = vstd::slice::slice_subrange(data, 0, HEADER_LEN);
    assert(u32_at(header@, 0) == u32_at(data@, 0));
    match decode_header(header) {
        Err(e) => (Err(e), HEADER_LEN),
        Ok((len, type_byte)) => {
            if n - HEADER_LEN < len {
                return (Err(FrameError::UnexpectedEof), n);
            }
            let body = vstd::slice::slice_subrange(data, HEADER_LEN, HEADER_LEN + len);
            match decode_body(type_byte, body) {
                Ok(f) => (Ok(Some(f)), HEADER_LEN + len),
                Err(e) => (Err(e), HEADER_LEN + len),
            }
        },
    }
}

impl Frame {
    /// Reads one frame from the front of `r`. `Ok(None)` when fewer than
    /// 5 bytes remain.
    pub fn decode(r: &[u8]) -> (res: Result<Option<Frame>, FrameError>)
        ensures
            read_result_view(res) == decode_step(r@).0,
    {
        decode_prefix(r).0
    }
}

/// Constant-time comparison: equal lengths and equal bytes.
pub fn const_eq(a: &[u8], b: &[u8]) -> (r: bool)
    ensures
        r == (a@ == b@),
{
    if a.len() != b.len() {
        return false;
    }
    let n = a.len();
    let mut diff: u8 = 0;
    let mut i: usize = 0;
    while i < n
        invariant
            n == a@.len(),
            n == b@.len(),
            i <= n,
            (diff == 0) <==> (forall|k: int| 0 <= k < i ==> a@[k] == b@[k]),
        decreases n - i,
    {
        let x = a[i];
        let y = b[i];
        let d = diff;
        assert(((d | (x ^ y)) == 0) <==> (d == 0 && x == y)) by (bit_vector);
        diff = diff | (x ^ y);
        i = i + 1;
    }
    if diff == 0 {
        assert(a@ =~= b@);
    }
    diff == 0
}

// ---------------------------------------------------------------------------
// Round trip
// ---------------------------------------------------------------------------

proof fn lemma_code_roundtrip(t: FrameType)
    ensures
        FrameType::spec_from_code(t.spec_code()) == Some(t),
{
}

/// The protocol's fixed type bytes: byte 4 of every encoded frame is 1 for
/// UTF-8 JSON, 2 for a relative mouse batch, 3 for its result, 4 for a
/// handshake and 5 for a handshake verdict; a received type byte maps back
/// to the type with that byte, and no other byte names a type.
pub proof fn lemma_frame_type_bytes(f: FrameView, v: u8)
    ensures
        frame_bytes(f).len() >= 5,
        frame_bytes(f)[4] == 1 <==> f.frame_type == FrameType::Utf8Json,
        frame_bytes(f)[4] == 2 <==> f.frame_type == FrameType::RelativeMouseBatch,
        frame_bytes(f)[4] == 3 <==> f.frame_type == FrameType::RelativeMouseResult,
        frame_bytes(f)[4] == 4 <==> f.frame_type == FrameType::Handshake,
        frame_bytes(f)[4] == 5 <==> f.frame_type == FrameType::HandshakeAck,
        FrameType::spec_from_code(v) == Some(FrameType::Utf8Json) <==> v == 1,
        FrameType::spec_from_code(v) == Some(FrameType::RelativeMouseBatch) <==> v == 2,
        FrameType::spec_from_code(v) == Some(FrameType::RelativeMouseResult) <==> v == 3,
        FrameType::spec_from_code(v) == Some(FrameType::Handshake) <==> v == 4,
        FrameType::spec_from_code(v) == Some(FrameType::HandshakeAck) <==> v == 5,
        FrameType::spec_from_code(v) is None <==> (v == 0 || v > 5),
{
    assert(frame_bytes(f)[4] == f.frame_type.spec_code());
}

proof fn lemma_event_at_encoded(d: Seq<u8>, off: int, e: MouseEvent)
    requires
        0 <= off,
        off + 16 <= d.len(),
        d.subrange(off, off + 16) == event_bytes(e),
    ensures
        event_at(d, off) == e,
{
    let eb = event_bytes(e);
    assert(d.subrange(off, off + 4) =~= eb.subrange(0, 4));
    assert(eb.subrange(0, 4) =~= u32_le(e.dx as u32));
    assert(d.subrange(off + 4, off + 8) =~= eb.subrange(4, 8));
    assert(eb.subrange(4, 8) =~= u32_le(e.dy as u32));
    assert(d.subrange(off + 8, off + 16) =~= eb.subrange(8, 16));
    assert(eb.subrange(8, 16) =~= u64_le(e.rel_ticks as u64));
    lemma_u32_at(d, off, e.dx as u32);
    lemma_u32_at(d, off + 4, e.dy as u32);
    lemma_u64_at(d, off + 8, e.rel_ticks as u64);
    lemma_i32_bits(e.dx);
    lemma_i32_bits(e.dy);
    lemma_i64_bits(e.rel_ticks);
}

/// Decoding the bytes of a payload gives the payload back.
pub proof fn lemma_payload_roundtrip(p: PayloadView)
    requires
        payload_bytes(p).len() <= MAX_PAYLOAD,
        p matches PayloadView::RelativeMouseBatch(b) ==> b.count == b.events.len(),
        p matches PayloadView::Handshake(n) ==> n.len() == NONCE_LEN,
    ensures
        decode_payload(payload_type(p), payload_bytes(p)) == Ok::<PayloadView, FrameError>(p),
{
    let d = payload_bytes(p);
    match p {
        PayloadView::Utf8Json(s) => {
            vstd::utf8::encode_utf8_valid_utf8(s);
            vstd::utf8::encode_utf8_decode_utf8(s);
        },
        PayloadView::RelativeMouseBatch(b) => {
            lemma_events_bytes_len(b.events);
            let evb = events_bytes(b.events);
            assert(d.subrange(0, 2) =~= u16_le(b.count));
            assert(d.subrange(2, 10) =~= u64_le(b.first_seq));
            assert(d.subrange(10, 18) =~= u64_le(b.base_ticks as u64));
            lemma_u16_at(d, 0, b.count);
            lemma_u64_at(d, 2, b.first_seq);
            lemma_u64_at(d, 10, b.base_ticks as u64);
            lemma_i64_bits(b.base_ticks);
            let evs = Seq::new(b.count as nat, |i: int| event_at(d, BATCH_HEADER_LEN + EVENT_LEN * i));
            assert forall|i: int| 0 <= i < b.events.len() implies evs[i] == b.events[i] by {
                lemma_events_bytes_at(b.events, i);
                assert(d.subrange(18 + 16 * i, 18 + 16 * i + 16) =~= evb.subrange(
                    16 * i,
                    16 * i + 16,
                ));
                lemma_event_at_encoded(d, 18 + 16 * i, b.events[i]);
            }
            assert(evs =~= b.events);
        },
        PayloadView::RelativeMouseResult(r) => {
            assert(d.subrange(0, 8) =~= u64_le(r.last_seq));
            lemma_u64_at(d, 0, r.last_seq);
        },
        PayloadView::Handshake(n) => {},
        PayloadView::HandshakeAck(v) => {},
    }
}

/// Reading from a stream that begins with the bytes of a well-formed frame
/// yields that frame and consumes exactly its bytes, whatever follows.
pub proof fn lemma_frame_roundtrip(f: FrameView, rest: Seq<u8>)
    requires
        well_formed(f),
    ensures
        decode_step(frame_bytes(f) + rest) == (
            Ok::<Option<FrameView>, FrameError>(Some(f)),
            frame_bytes(f).len(),
        ),
{
    let p = payload_bytes(f.payload);
    let data = frame_bytes(f) + rest;
    let plen = p.len();
    assert(data.subrange(0, 4) =~= u32_le(plen as u32));
    lemma_u32_at(data, 0, plen as u32);
    assert(data[4] == f.frame_type.spec_code());
    lemma_code_roundtrip(f.frame_type);
    assert(data.subrange(5, 5 + plen as int) =~= p);
    lemma_payload_roundtrip(f.payload);
}

// ---------------------------------------------------------------------------
// Buffered writer and resynchronising reader
// ---------------------------------------------------------------------------

/// Appends whole frames to an output buffer.
pub struct FrameWriter {
    out: Vec<u8>,
}

impl FrameWriter {
    /// The bytes written so far.
    pub closed spec fn written(&self) -> Seq<u8> {
        self.out@
    }

    pub fn new(w: Vec<u8>) -> (writer: Self)
        ensures
            writer.written() == w@,
    {
        FrameWriter { out: w }
    }

    /// Writes the whole frame after what was written before.
    pub fn write_frame(&mut self, frame: &Frame) -> (res: Result<(), FrameError>)
        requires
            payload_bytes(frame.payload@).len() <= MAX_PAYLOAD,
        ensures
            res is Ok,
            final(self).written() == old(self).written() + frame_bytes(frame@),
    {
        let bytes = frame.encode();
        let mut i: usize = 0;
        let n = bytes.len();
        let ghost start = self.out@;
        while i < n
            invariant
                n == bytes@.len(),
                i <= n,
                self.out@ == start + bytes@.subrange(0, i as int),
            decreases n - i,
        {
            self.out.push(bytes[i]);
            i = i + 1;
            assert(self.out@ =~= start + bytes@.subrange(0, i as int));
        }
        assert(bytes@.subrange(0, n as int) =~= bytes@);
        Ok(())
    }

    pub fn into_inner(self) -> (w: Vec<u8>)
        ensures
            w@ == self.written(),
    {
        self.out
    }
}

/// What the reader yields from position `pos` of `data`, and where it stops.
/// A malformed frame whose bytes are all present is dropped and ends the
/// read; a header announcing more than 1 MiB is skipped together with the
/// byte after it and the read resumes there; a truncated stream ends the read.
pub open spec fn reader_step(data: Seq<u8>, pos: nat) -> (Option<FrameView>, nat)
    decreases data.len() - pos,
{
    let (r, n) = decode_step(data.subrange(pos as int, data.len() as int));
    match r {
        Ok(Some(f)) => (Some(f), pos + n),
        Err(FrameError::PayloadTooLarge) => if pos + HEADER_LEN < data.len() {
            reader_step(data, (pos + HEADER_LEN + 1) as nat)
        } else {
            (None, data.len())
        },
        _ => (None, pos + n),
    }
}

pub open spec fn option_frame_view(r: Option<Frame>) -> Option<FrameView> {
    match r {
        Some(f) => Some(f@),
        None => None,
    }
}

/// Reads frames from a byte stream, dropping malformed ones.
pub struct FrameReader {
    inner: Vec<u8>,
    pos: usize,
}

impl FrameReader {
    #[verifier::type_invariant]
    spec fn inv(&self) -> bool {
        self.pos <= self.inner@.len()
    }

    /// The whole stream.
    pub closed spec fn stream(&self) -> Seq<u8> {
        self.inner@
    }

    /// How far the stream has been read.
    pub closed spec fn position(&self) -> nat {
        self.pos as nat
    }

    pub fn new(r: Vec<u8>) -> (reader: Self)
        ensures
            reader.stream() == r@,
            reader.position() == 0,
    {
        FrameReader { inner: r, pos: 0 }
    }

    /// The next frame, or `None` once the stream is exhausted or a malformed
    /// frame was dropped.
    pub fn read_frame(&mut self) -> (res: Result<Option<Frame>, FrameError>)
        ensures
            res is Ok,
            final(self).stream() == old(self).stream(),
            option_frame_view(res.unwrap()) == reader_step(old(self).stream(), old(self).position()).0,
            final(self).position() == reader_step(old(self).stream(), old(self).position()).1,
    {
        proof {
            use_type_invariant(&*self);
        }
        let len = self.inner.len();
        let mut pos = self.pos;
        loop
            invariant
                len == self.inner@.len(),
                self.inner@ == old(self).inner@,
                self.pos == old(self).pos,
                pos <= len,
                reader_step(self.inner@, pos as nat) == reader_step(
                    old(self).inner@,
                    old(self).pos as nat,
                ),
            decreases len - pos,
        {
            let rest = vstd::slice::slice_subrange(self.inner.as_slice(), pos, len);
            let (r, n) = decode_prefix(rest);
            match r {
                Ok(Some(f)) => {
                    self.pos = pos + n;
                    return Ok(Some(f));
                },
                Err(FrameError::PayloadTooLarge) => {
                    if pos + HEADER_LEN < len {
                        pos = pos + HEADER_LEN + 1;
                    } else {
                        self.pos = len;
                        return Ok(None);
                    }
                },
                _ => {
                    self.pos = pos + n;
                    return Ok(None);
                },
            }
        }
    }
}

/// Reading at the start of a written frame gives that frame back and moves
/// past exactly its bytes.
pub proof fn lemma_reader_reads_written_frame(data: Seq<u8>, pos: nat, f: FrameView)
    requires
        well_formed(f),
        pos + frame_bytes(f).len() <= data.len(),
        data.subrange(pos as int, (pos + frame_bytes(f).len()) as int) == frame_bytes(f),
    ensures
        reader_step(data, pos) == (Some(f), pos + frame_bytes(f).len()),
{
    let k = frame_bytes(f).len();
    let rest = data.subrange((pos + k) as int, data.len() as int);
    assert(data.subrange(pos as int, data.len() as int) =~= frame_bytes(f) + rest);
    lemma_frame_roundtrip(f, rest);
}

/// The bytes of several frames written one after another.
pub open spec fn frames_bytes(fs: Seq<FrameView>) -> Seq<u8>
    decreases fs.len(),
{
    if fs.len() == 0 {
        Seq::empty()
    } else {
        frames_bytes(fs.drop_last()) + frame_bytes(fs.last())
    }
}

/// The bytes of the first `j` frames begin the bytes of all of them.
proof fn lemma_frames_bytes_prefix(fs: Seq<FrameView>, j: int)
    requires
        0 <= j <= fs.len(),
    ensures
        frames_bytes(fs.take(j)).len() <= frames_bytes(fs).len(),
        frames_bytes(fs).subrange(0, frames_bytes(fs.take(j)).len() as int) == frames_bytes(
            fs.take(j),
        ),
    decreases fs.len(),
{
    if j == fs.len() {
        assert(fs.take(j) =~= fs);
        assert(frames_bytes(fs).subrange(0, frames_bytes(fs).len() as int) =~= frames_bytes(fs));
    } else {
        let init = fs.drop_last();
        assert(init.take(j) =~= fs.take(j));
        lemma_frames_bytes_prefix(init, j);
        let a = frames_bytes(init);
        let b = frame_bytes(fs.last());
        let k = frames_bytes(fs.take(j)).len() as int;
        assert((a + b).subrange(0, k) =~= a.subrange(0, k));
    }
}

/// Frames written back to back are read back one by one, in order: reading
/// at the end of the first `k` frames gives frame `k` and moves to the end
/// of frame `k`.
pub proof fn lemma_reader_reads_written_frames(fs: Seq<FrameView>, k: int)
    requires
        forall|i: int| 0 <= i < fs.len() ==> well_formed(#[trigger] fs[i]),
        0 <= k < fs.len(),
    ensures
        reader_step(frames_bytes(fs), frames_bytes(fs.take(k)).len()) == (
            Some(fs[k]),
            frames_bytes(fs.take(k + 1)).len(),
        ),
{
    let data = frames_bytes(fs);
    let before = frames_bytes(fs.take(k));
    let upto = frames_bytes(fs.take(k + 1));
    assert(fs.take(k + 1).drop_last() =~= fs.take(k));
    assert(fs.take(k + 1).last() == fs[k]);
    assert(upto == before + frame_bytes(fs[k]));
    lemma_frames_bytes_prefix(fs, k + 1);
    assert(data.subrange(0, upto.len() as int) == upto);
    assert(data.subrange(before.len() as int, upto.len() as int) =~= upto.subrange(
        before.len() as int,
        upto.len() as int,
    ));
    assert(upto.subrange(before.len() as int, upto.len() as int) =~= frame_bytes(fs[k]));
    lemma_reader_reads_written_frame(data, before.len(), fs[k]);
}

/// Reading past every written frame finds nothing more.
pub proof fn lemma_reader_ends_after_written_frames(fs: Seq<FrameView>)
    ensures
        reader_step(frames_bytes(fs), frames_bytes(fs).len()).0 is None,
{
    let data = frames_bytes(fs);
    assert(data.subrange(data.len() as int, data.len() as int) =~= Seq::<u8>::empty());
}

} // verus!
