//! Input replay in the child session: the inputs the agent replays, their
//! numbering and queueing, and the grouping of queued events into
//! `SendInput` calls.
use vstd::prelude::*;
use std::collections::VecDeque;
use crossbeam_channel::{Receiver, SendError, Sender};
use crate::ipc::frame::{MouseEvent, RelativeMouseBatch, RelativeMouseResult};
use crate::text::owned;

verus! {

/// Capacity of the replay queue.
pub const CHANNEL_CAPACITY: usize = 1024;

/// Queued events are flushed once this many milliseconds passed since the last flush.
pub const GROUP_THRESHOLD_MS: u64 = 8;

/// Most events handed to one `SendInput` call.
pub const MAX_GROUP: usize = 64;

pub const MOUSEEVENTF_MOVE: u32 = 0x0001;
pub const MOUSEEVENTF_LEFTDOWN: u32 = 0x0002;
pub const MOUSEEVENTF_LEFTUP: u32 = 0x0004;
pub const MOUSEEVENTF_RIGHTDOWN: u32 = 0x0008;
pub const MOUSEEVENTF_RIGHTUP: u32 = 0x0010;
pub const MOUSEEVENTF_WHEEL: u32 = 0x0800;
pub const KEYEVENTF_KEYUP: u32 = 0x0002;
pub const KEYEVENTF_SCANCODE: u32 = 0x0008;

/// The mouse flag for a button transition.
pub open spec fn spec_button_flags(down: bool, right: bool) -> u32 {
    if right {
        if down {
            MOUSEEVENTF_RIGHTDOWN
        } else {
            MOUSEEVENTF_RIGHTUP
        }
    } else {
        if down {
            MOUSEEVENTF_LEFTDOWN
        } else {
            MOUSEEVENTF_LEFTUP
        }
    }
}

/// The keyboard flags of a scan-code key event.
pub open spec fn spec_key_flags(up: bool) -> u32 {
    if up {
        KEYEVENTF_SCANCODE | KEYEVENTF_KEYUP
    } else {
        KEYEVENTF_SCANCODE
    }
}

/// The mouse flag for a button transition.
pub fn mouse_button_flags(down: bool, right: bool) -> (f: u32)
    ensures
        f == if right {
            if down {
                MOUSEEVENTF_RIGHTDOWN
            } else {
                MOUSEEVENTF_RIGHTUP
            }
        } else {
            if down {
                MOUSEEVENTF_LEFTDOWN
            } else {
                MOUSEEVENTF_LEFTUP
            }
        },
{
    if right {
        if down {
            MOUSEEVENTF_RIGHTDOWN
        } else {
            MOUSEEVENTF_RIGHTUP
        }
    } else {
        if down {
            MOUSEEVENTF_LEFTDOWN
        } else {
            MOUSEEVENTF_LEFTUP
        }
    }
}

/// The keyboard flags of a scan-code key event.
pub fn key_flags(up: bool) -> (f: u32)
    ensures
        f == if up {
            KEYEVENTF_SCANCODE | KEYEVENTF_KEYUP
        } else {
            KEYEVENTF_SCANCODE
        },
{
    if up {
        KEYEVENTF_SCANCODE | KEYEVENTF_KEYUP
    } else {
        KEYEVENTF_SCANCODE
    }
}

/// The `mouseData` of a wheel event: the signed delta, sign-extended to 32 bits.
pub fn wheel_mouse_data(delta: i16) -> (d: u32)
    ensures
        d == delta as u32,
{
    delta as u32
}

/// Whether the worker flushes its queue now: the threshold passed since the
/// last flush, or a full group is waiting.
pub fn should_flush_group(elapsed_ms: u64, pending: usize) -> (r: bool)
    ensures
        r == (elapsed_ms >= GROUP_THRESHOLD_MS || pending >= MAX_GROUP),
{
    elapsed_ms >= GROUP_THRESHOLD_MS || pending >= MAX_GROUP
}

/// How many queued events go into the next `SendInput` call.
pub fn group_size(pending: usize) -> (n: usize)
    ensures
        n == if pending < MAX_GROUP {
            pending
        } else {
            MAX_GROUP
        },
{
    if pending < MAX_GROUP {
        pending
    } else {
        MAX_GROUP
    }
}

/// The sequence number after `seq` (wrapping, as an atomic counter does).
pub fn next_sequence(seq: u64) -> (n: u64)
    ensures
        n == if seq == u64::MAX {
            0u64
        } else {
            (seq + 1) as u64
        },
{
    if seq == u64::MAX {
        0
    } else {
        seq + 1
    }
}

/// One input as `SendInput` takes it.
#[derive(Debug, Clone, Copy, PartialEq, Eq, Structural)]
pub enum ReplayInput {
    Mouse { dx: i32, dy: i32, mouse_data: u32, flags: u32 },
    Keyboard { vk: u16, scan: u16, flags: u32 },
}

/// A numbered, time-stamped input waiting in the replay queue.
#[derive(Debug, Clone, Copy, PartialEq, Eq, Structural)]
pub struct ReplayEvent {
    pub sequence: u64,
    pub timestamp: u64,
    pub input: ReplayInput,
}

/// A relative mouse move.
pub fn mouse_move_input(dx: i32, dy: i32) -> (i: ReplayInput)
    ensures
        i == (ReplayInput::Mouse { dx, dy, mouse_data: 0, flags: MOUSEEVENTF_MOVE }),
{
    ReplayInput::Mouse { dx, dy, mouse_data: 0, flags: MOUSEEVENTF_MOVE }
}

/// A button press or release.
pub fn mouse_button_input(down: bool, right: bool) -> (i: ReplayInput)
    ensures
        i == (ReplayInput::Mouse {
            dx: 0,
            dy: 0,
            mouse_data: 0,
            flags: if right {
                if down {
                    MOUSEEVENTF_RIGHTDOWN
                } else {
                    MOUSEEVENTF_RIGHTUP
                }
            } else {
                if down {
                    MOUSEEVENTF_LEFTDOWN
                } else {
                    MOUSEEVENTF_LEFTUP
                }
            },
        }),
{
    ReplayInput::Mouse { dx: 0, dy: 0, mouse_data: 0, flags: mouse_button_flags(down, right) }
}

/// A wheel turn by `delta`.
pub fn mouse_wheel_input(delta: i16) -> (i: ReplayInput)
    ensures
        i == (ReplayInput::Mouse {
            dx: 0,
            dy: 0,
            mouse_data: delta as u32,
            flags: MOUSEEVENTF_WHEEL,
        }),
{
    ReplayInput::Mouse {
        dx: 0,
        dy: 0,
        mouse_data: wheel_mouse_data(delta),
        flags: MOUSEEVENTF_WHEEL,
    }
}

/// A key press or release by scan code.
pub fn key_input(vk: u16, scan_code: u16, up: bool) -> (i: ReplayInput)
    ensures
        i == (ReplayInput::Keyboard {
            vk,
            scan: scan_code,
            flags: if up {
                KEYEVENTF_SCANCODE | KEYEVENTF_KEYUP
            } else {
                KEYEVENTF_SCANCODE
            },
        }),
{
    ReplayInput::Keyboard { vk, scan: scan_code, flags: key_flags(up) }
}

#[verifier::external_type_specification]
#[verifier::external_body]
#[verifier::reject_recursive_types(T)]
pub struct ExSender<T>(Sender<T>);

#[verifier::external_type_specification]
#[verifier::external_body]
#[verifier::reject_recursive_types(T)]
pub struct ExReceiver<T>(Receiver<T>);

#[verifier::external_type_specification]
#[verifier::external_body]
#[verifier::reject_recursive_types(T)]
pub struct ExSendError<T>(SendError<T>);

/// The events that sender `s` has handed to its channel so far, oldest
/// first: `Sender::send` adds its message here when it returns `Ok`.
pub uninterp spec fn channel_accepted(s: Sender<ReplayEvent>) -> Seq<ReplayEvent>;

/// `crossbeam_channel::bounded(CHANNEL_CAPACITY)`: a new channel holding at
/// most `CHANNEL_CAPACITY` events; its sender has handed it nothing yet.
#[verifier::external_body]
fn replay_channel() -> (ends: (Sender<ReplayEvent>, Receiver<ReplayEvent>))
    ensures
        channel_accepted(ends.0) == Seq::<ReplayEvent>::empty(),
{
    crossbeam_channel::bounded(CHANNEL_CAPACITY)
}

/// `Sender::send`: on `Ok` the channel took `event` (after the last one this
/// sender handed it); on `Err` (the receiving end is gone) it took nothing.
/// It blocks while the channel is full. Whether it succeeds depends on the
/// other thread, so which outcome comes is not stated.
#[verifier::external_body]
fn channel_send(sender: &mut Sender<ReplayEvent>, event: ReplayEvent) -> (r: Result<
    (),
    SendError<ReplayEvent>,
>)
    ensures
        r is Ok ==> channel_accepted(*final(sender)) == channel_accepted(*old(sender)).push(event),
        r is Err ==> channel_accepted(*final(sender)) == channel_accepted(*old(sender)),
{
    sender.send(event)
}

/// The producing side of the replay: numbers inputs from 1 and hands them to
/// the worker while it runs.
pub struct ReplayProducer {
    pub running: bool,
    pub sequence: u64,
    pub sender: Sender<ReplayEvent>,
}

/// What queueing `input` stamped `timestamp` does to a producer: once
/// stopped it is refused with "Runner 已停止" and nothing changes; while
/// running the input takes the next number, and either the channel took the
/// numbered event (`Ok`) or its receiving end is gone ("通道已关闭") and it
/// took nothing.
pub open spec fn enqueued(
    pre: ReplayProducer,
    post: ReplayProducer,
    input: ReplayInput,
    timestamp: u64,
    r: Result<(), String>,
) -> bool {
    &&& post.running == pre.running
    &&& !pre.running ==> (r matches Err(e) && e@ == "Runner 已停止"@ && post.sequence == pre.sequence
        && post.sent() == pre.sent())
    &&& pre.running ==> post.sequence == next_number(pre.sequence)
    &&& pre.running ==> (r matches Err(e) ==> e@ == "通道已关闭"@ && post.sent() == pre.sent())
    &&& pre.running ==> (r is Ok ==> post.sent() == pre.sent().push(
        ReplayEvent { sequence: pre.sequence, timestamp, input },
    ))
}

/// The number after `seq`, wrapping as an atomic counter does.
pub open spec fn next_number(seq: u64) -> u64 {
    if seq == u64::MAX {
        0u64
    } else {
        (seq + 1) as u64
    }
}

impl ReplayProducer {
    /// The events handed to the worker so far, oldest first.
    pub open spec fn sent(&self) -> Seq<ReplayEvent> {
        channel_accepted(self.sender)
    }

    /// A running producer whose first input gets number 1, and the receiving
    /// end for the worker.
    pub fn new() -> (r: (ReplayProducer, Receiver<ReplayEvent>))
        ensures
            r.0.running,
            r.0.sequence == 1,
            r.0.sent() == Seq::<ReplayEvent>::empty(),
    {
        let (sender, receiver) = replay_channel();
        (ReplayProducer { running: true, sequence: 1, sender }, receiver)
    }

    /// Numbers and stamps `input`; refused once the producer is stopped.
    pub fn next_event(&mut self, input: ReplayInput, timestamp: u64) -> (r: Result<
        ReplayEvent,
        String,
    >)
        ensures
            !old(self).running ==> (r matches Err(e) && e@ == "Runner 已停止"@ && final(self).sequence
                == old(self).sequence),
            old(self).running ==> (r == Ok::<ReplayEvent, String>(
                ReplayEvent { sequence: old(self).sequence, timestamp, input },
            ) && final(self).sequence == next_number(old(self).sequence)),
            final(self).running == old(self).running,
            final(self).sender == old(self).sender,
    {
        if !self.running {
            return Err(owned("Runner 已停止"));
        }
        let sequence = self.sequence;
        self.sequence = next_sequence(sequence);
        Ok(ReplayEvent { sequence, timestamp, input })
    }

    /// Queues `input` for replay: refused once stopped, and an error when
    /// the worker's end of the channel is gone.
    pub fn enqueue(&mut self, input: ReplayInput, timestamp: u64) -> (r: Result<(), String>)
        ensures
            enqueued(*old(self), *final(self), input, timestamp, r),
    {
        let event = match self.next_event(input, timestamp) {
            Ok(e) => e,
            Err(e) => return Err(e),
        };
        match channel_send(&mut self.sender, event) {
            Ok(()) => Ok(()),
            Err(_) => Err(owned("通道已关闭")),
        }
    }

    /// Queues a relative move by `(dx, dy)`.
    pub fn send_mouse_move(&mut self, dx: i32, dy: i32, timestamp: u64) -> (r: Result<(), String>)
        ensures
            enqueued(
                *old(self),
                *final(self),
                (ReplayInput::Mouse { dx, dy, mouse_data: 0, flags: MOUSEEVENTF_MOVE }),
                timestamp,
                r,
            ),
    {
        self.enqueue(mouse_move_input(dx, dy), timestamp)
    }

    /// Queues a left or right button press or release.
    pub fn send_mouse_button(&mut self, down: bool, right: bool, timestamp: u64) -> (r: Result<
        (),
        String,
    >)
        ensures
            enqueued(
                *old(self),
                *final(self),
                (ReplayInput::Mouse { dx: 0, dy: 0, mouse_data: 0, flags: spec_button_flags(down, right) }),
                timestamp,
                r,
            ),
    {
        self.enqueue(mouse_button_input(down, right), timestamp)
    }

    /// Queues a wheel turn by `delta`.
    pub fn send_mouse_wheel(&mut self, delta: i16, timestamp: u64) -> (r: Result<(), String>)
        ensures
            enqueued(
                *old(self),
                *final(self),
                (ReplayInput::Mouse { dx: 0, dy: 0, mouse_data: delta as u32, flags: MOUSEEVENTF_WHEEL }),
                timestamp,
                r,
            ),
    {
        self.enqueue(mouse_wheel_input(delta), timestamp)
    }

    /// Queues a scan-code key press or release.
    pub fn send_key(&mut self, vk: u16, scan_code: u16, up: bool, timestamp: u64) -> (r: Result<
        (),
        String,
    >)
        ensures
            enqueued(
                *old(self),
                *final(self),
                (ReplayInput::Keyboard { vk, scan: scan_code, flags: spec_key_flags(up) }),
                timestamp,
                r,
            ),
    {
        self.enqueue(key_input(vk, scan_code, up), timestamp)
    }

    /// Stops accepting inputs.
    pub fn stop(&mut self)
        ensures
            !final(self).running,
            final(self).sequence == old(self).sequence,
    {
        self.running = false;
    }
}

/// The worker's queue of received events, handed to `SendInput` in groups of
/// at most `MAX_GROUP`, oldest first. Two logs record every event pushed and
/// every event handed out in a group.
pub struct ReplayQueue {
    pending: VecDeque<ReplayEvent>,
    pushed: Ghost<Seq<ReplayEvent>>,
    delivered: Ghost<Seq<ReplayEvent>>,
}

impl View for ReplayQueue {
    type V = Seq<ReplayEvent>;

    closed spec fn view(&self) -> Seq<ReplayEvent> {
        self.pending@
    }
}

/// The size of the group taken from a queue of `len` events.
pub open spec fn spec_group_len(len: nat) -> nat {
    if len < MAX_GROUP {
        len
    } else {
        MAX_GROUP as nat
    }
}

/// The events of a list of groups, in order.
pub open spec fn groups_view(groups: Seq<Vec<ReplayEvent>>) -> Seq<Seq<ReplayEvent>> {
    groups.map_values(|g: Vec<ReplayEvent>| g@)
}

impl ReplayQueue {
    /// Every event pushed so far, oldest first.
    pub closed spec fn pushed(&self) -> Seq<ReplayEvent> {
        self.pushed@
    }

    /// Every event handed out in a group so far, in the order handed out.
    pub closed spec fn delivered(&self) -> Seq<ReplayEvent> {
        self.delivered@
    }

    /// What was handed out, followed by what still waits, is what was pushed.
    pub closed spec fn wf(&self) -> bool {
        self.delivered@ + self.pending@ == self.pushed@
    }

    pub fn new() -> (q: Self)
        ensures
            q.wf(),
            q@ == Seq::<ReplayEvent>::empty(),
            q.pushed() == Seq::<ReplayEvent>::empty(),
            q.delivered() == Seq::<ReplayEvent>::empty(),
    {
        let q = ReplayQueue {
            pending: VecDeque::new(),
            pushed: Ghost(Seq::empty()),
            delivered: Ghost(Seq::empty()),
        };
        proof {
            assert(q.delivered@ + q.pending@ =~= q.pushed@);
        }
        q
    }

    pub fn len(&self) -> (n: usize)
        ensures
            n == self@.len(),
    {
        self.pending.len()
    }

    /// Appends a received event.
    pub fn push(&mut self, event: ReplayEvent)
        requires
            old(self).wf(),
        ensures
            final(self).wf(),
            final(self)@ == old(self)@.push(event),
            final(self).pushed() == old(self).pushed().push(event),
            final(self).delivered() == old(self).delivered(),
    {
        self.pending.push_back(event);
        proof {
            self.pushed@ = self.pushed@.push(event);
            assert(self.delivered@ + self.pending@ =~= self.pushed@);
        }
    }

    /// Takes the next group: the oldest events, at most `MAX_GROUP` of them.
    pub fn take_group(&mut self) -> (g: Vec<ReplayEvent>)
        requires
            old(self).wf(),
        ensures
            final(self).wf(),
            g@ == old(self)@.take(spec_group_len(old(self)@.len()) as int),
            final(self)@ == old(self)@.skip(spec_group_len(old(self)@.len()) as int),
            final(self).pushed() == old(self).pushed(),
            final(self).delivered() == old(self).delivered() + g@,
    {
        let ghost start = self.pending@;
        let ghost p0 = self.pushed@;
        let ghost d0 = self.delivered@;
        let mut g: Vec<ReplayEvent> = Vec::new();
        while g.len() < MAX_GROUP
            invariant_except_break
                g.len() <= MAX_GROUP,
                g@ + self.pending@ == start,
                self.pushed@ == p0,
                self.delivered@ == d0,
                d0 + start == p0,
            ensures
                g.len() <= MAX_GROUP,
                g@ + self.pending@ == start,
                self.pushed@ == p0,
                self.delivered@ == d0,
                d0 + start == p0,
                g.len() == MAX_GROUP || self.pending@.len() == 0,
            decreases self.pending@.len(),
        {
            let ghost before = self.pending@;
            match self.pending.pop_front() {
                Some(e) => {
                    proof {
                        assert(g@.push(e) + self.pending@ =~= g@ + before);
                    }
                    g.push(e);
                },
                None => {
                    break;
                },
            }
        }
        proof {
            assert(g@ =~= start.take(spec_group_len(start.len()) as int));
            assert(self.pending@ =~= start.skip(spec_group_len(start.len()) as int));
            self.delivered@ = d0 + g@;
            assert(d0 + g@ + self.pending@ =~= d0 + (g@ + self.pending@));
        }
        g
    }

    /// One step of the running worker after `elapsed_ms` since its last
    /// flush: the next group when the threshold passed or a full group is
    /// waiting (the group may then be empty), otherwise nothing and the
    /// queue as it was.
    pub fn flush_step(&mut self, elapsed_ms: u64) -> (r: Option<Vec<ReplayEvent>>)
        requires
            old(self).wf(),
        ensures
            final(self).wf(),
            r is Some <==> (elapsed_ms >= GROUP_THRESHOLD_MS || old(self)@.len() >= MAX_GROUP),
            r matches Some(g) ==> g@ == old(self)@.take(spec_group_len(old(self)@.len()) as int)
                && final(self)@ == old(self)@.skip(spec_group_len(old(self)@.len()) as int)
                && final(self).delivered() == old(self).delivered() + g@,
            r is None ==> final(self)@ == old(self)@ && final(self).delivered() == old(
                self,
            ).delivered(),
            final(self).pushed() == old(self).pushed(),
    {
        if should_flush_group(elapsed_ms, self.pending.len()) {
            Some(self.take_group())
        } else {
            None
        }
    }

    /// Takes every queued event, group by group; the groups hold the queue's
    /// events in order, none is empty and none holds more than `MAX_GROUP`.
    /// Afterwards every event ever pushed has been handed out.
    pub fn drain_groups(&mut self) -> (groups: Vec<Vec<ReplayEvent>>)
        requires
            old(self).wf(),
        ensures
            final(self).wf(),
            groups_view(groups@).flatten() == old(self)@,
            forall|i: int|
                0 <= i < groups@.len() ==> 0 < (#[trigger] groups@[i])@.len() <= MAX_GROUP,
            final(self)@.len() == 0,
            final(self).pushed() == old(self).pushed(),
            final(self).delivered() == old(self).delivered() + groups_view(groups@).flatten(),
            final(self).delivered() == final(self).pushed(),
    {
        let ghost start = self.pending@;
        let ghost d0 = self.delivered@;
        let mut groups: Vec<Vec<ReplayEvent>> = Vec::new();
        proof {
            assert(groups_view(groups@) =~= Seq::<Seq<ReplayEvent>>::empty());
            assert(d0 + groups_view(groups@).flatten() =~= d0);
        }
        while self.pending.len() > 0
            invariant
                self.wf(),
                self.pushed@ == old(self).pushed@,
                groups_view(groups@).flatten() + self.pending@ == start,
                self.delivered@ == d0 + groups_view(groups@).flatten(),
                forall|i: int|
                    0 <= i < groups@.len() ==> 0 < (#[trigger] groups@[i])@.len() <= MAX_GROUP,
            decreases self.pending@.len(),
        {
            let ghost before = self.pending@;
            let ghost gv = groups_view(groups@);
            let g = self.take_group();
            proof {
                assert(groups_view(groups@.push(g)) =~= gv.push(g@));
                gv.lemma_flatten_push(g@);
                assert(g@ + self.pending@ =~= before);
                assert(gv.flatten() + g@ + self.pending@ =~= gv.flatten() + (g@ + self.pending@));
                assert(d0 + gv.flatten() + g@ =~= d0 + (gv.flatten() + g@));
            }
            groups.push(g);
        }
        proof {
            assert(self.delivered@ + self.pending@ =~= self.delivered@);
        }
        groups
    }
}

/// Every event pushed into a replay queue is handed out exactly once and in
/// push order: the events handed out so far are a prefix of those pushed,
/// the rest still wait in the queue, and once the queue is empty the groups
/// handed out hold exactly the pushed events.
pub proof fn lemma_queue_delivers_in_order(q: &ReplayQueue)
    requires
        q.wf(),
    ensures
        q.delivered() + q@ == q.pushed(),
        q.delivered().len() <= q.pushed().len(),
        q.delivered() == q.pushed().take(q.delivered().len() as int),
        q@ == q.pushed().skip(q.delivered().len() as int),
        q@.len() == 0 ==> q.delivered() == q.pushed(),
{
    let d = q.delivered();
    let p = q.pending@;
    assert((d + p).take(d.len() as int) =~= d);
    assert((d + p).skip(d.len() as int) =~= p);
    assert(q@.len() == 0 ==> d + p =~= d);
}

/// The agent's answer to a replayed batch: handled, up to sequence number
/// `first_seq + count - 1`, computed left to right in 64 bits (so the sum
/// must fit and must not be zero).
pub fn batch_result(batch: &RelativeMouseBatch) -> (r: RelativeMouseResult)
    requires
        1 <= batch.first_seq + batch.count <= u64::MAX,
    ensures
        r.last_seq == batch.first_seq + batch.count - 1,
        r.handled,
{
    RelativeMouseResult { last_seq: batch.first_seq + batch.count as u64 - 1, handled: true }
}

/// The inputs a received batch is replayed as: one relative move per event, in order.
pub fn batch_moves(batch: &RelativeMouseBatch) -> (moves: Vec<ReplayInput>)
    ensures
        moves@.len() == batch.events@.len(),
        forall|i: int|
            0 <= i < moves@.len() ==> moves@[i] == (ReplayInput::Mouse {
                dx: (#[trigger] batch.events@[i]).dx,
                dy: batch.events@[i].dy,
                mouse_data: 0,
                flags: MOUSEEVENTF_MOVE,
            }),
{
    let mut moves: Vec<ReplayInput> = Vec::new();
    let n = batch.events.len();
    let mut i: usize = 0;
    while i < n
        invariant
            n == batch.events@.len(),
            i <= n,
            moves@.len() == i,
            forall|k: int|
                0 <= k < i ==> moves@[k] == (ReplayInput::Mouse {
                    dx: (#[trigger] batch.events@[k]).dx,
                    dy: batch.events@[k].dy,
                    mouse_data: 0,
                    flags: MOUSEEVENTF_MOVE,
                }),
        decreases n - i,
    {
        let e: &MouseEvent = &batch.events[i];
        moves.push(mouse_move_input(e.dx, e.dy));
        i = i + 1;
    }
    moves
}

} // verus!
