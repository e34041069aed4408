//! Relative mouse batching on the main-session side.
use vstd::prelude::*;
use crate::input::replay::next_sequence;
use crate::ipc::frame::{BatchView, MouseEvent, RelativeMouseBatch};

verus! {

/// Flush period of the batcher.
pub const FLUSH_INTERVAL_MS: u64 = 10;

/// Bound on the accumulated motion along each axis.
pub const CLAMP_LIMIT: i32 = 4096;

/// Period of the Alt-key and focus poll.
pub const POLL_INTERVAL_MS: u64 = 5;

pub open spec fn spec_sign(v: int) -> i32 {
    if v > 0 {
        1i32
    } else if v < 0 {
        -1i32
    } else {
        0i32
    }
}

pub open spec fn spec_clamp(v: int) -> int {
    if v < -CLAMP_LIMIT {
        -CLAMP_LIMIT as int
    } else if v > CLAMP_LIMIT {
        CLAMP_LIMIT as int
    } else {
        v
    }
}

/// The frame a flushed batch `b` is forwarded as: one event carrying the whole
/// motion, numbered by the batch's first sample and based at its tick.
pub open spec fn forwarded_batch(v: BatchView, b: BatchState) -> bool {
    &&& v.count == 1
    &&& v.first_seq == b.sequence
    &&& v.base_ticks == b.base_ticks as i64
    &&& v.events == seq![MouseEvent { dx: b.dx, dy: b.dy, rel_ticks: 0 }]
}

/// A delta the batcher accepts without overflow.
pub open spec fn delta_in_range(d: i32) -> bool {
    i32::MIN + CLAMP_LIMIT <= d <= i32::MAX - CLAMP_LIMIT
}

/// Accumulated relative motion waiting to be flushed.
pub struct BatchState {
    pub dx: i32,
    pub dy: i32,
    pub sequence: u64,
    pub base_ticks: u64,
    pub last_flush_ms: u64,
    pub last_dx_sign: i32,
    pub last_dy_sign: i32,
}

impl BatchState {
    /// Both axes within the clamp bound and both remembered signs in {-1, 0, 1}.
    pub open spec fn wf(&self) -> bool {
        &&& -CLAMP_LIMIT <= self.dx <= CLAMP_LIMIT
        &&& -CLAMP_LIMIT <= self.dy <= CLAMP_LIMIT
        &&& -1 <= self.last_dx_sign <= 1
        &&& -1 <= self.last_dy_sign <= 1
    }

    /// 10 ms passed since the last flush (a clock that went back counts as no
    /// time passed), or motion `(dx, dy)` turns in a new direction along either axis.
    pub open spec fn flush_due(&self, dx: i32, dy: i32, now_ms: u64) -> bool {
        (if now_ms >= self.last_flush_ms {
            now_ms - self.last_flush_ms
        } else {
            0
        }) >= FLUSH_INTERVAL_MS || (spec_sign(dx as int) != 0 && spec_sign(dx as int)
            != self.last_dx_sign) || (spec_sign(dy as int) != 0 && spec_sign(dy as int)
            != self.last_dy_sign)
    }

    /// Nothing accumulated and nothing remembered.
    pub open spec fn is_empty_at(&self, now_ms: u64) -> bool {
        &&& self.dx == 0
        &&& self.dy == 0
        &&& self.sequence == 0
        &&& self.base_ticks == 0
        &&& self.last_flush_ms == now_ms
        &&& self.last_dx_sign == 0
        &&& self.last_dy_sign == 0
    }

    pub fn new(now_ms: u64) -> (s: Self)
        ensures
            s.wf(),
            s.is_empty_at(now_ms),
    {
        BatchState {
            dx: 0,
            dy: 0,
            sequence: 0,
            base_ticks: 0,
            last_flush_ms: now_ms,
            last_dx_sign: 0,
            last_dy_sign: 0,
        }
    }

    pub fn sign(v: i32) -> (s: i32)
        ensures
            s == spec_sign(v as int),
    {
        if v > 0 {
            1
        } else if v < 0 {
            -1
        } else {
            0
        }
    }

    pub fn clamp(v: i32) -> (c: i32)
        ensures
            c == spec_clamp(v as int),
    {
        if v < -CLAMP_LIMIT {
            -CLAMP_LIMIT
        } else if v > CLAMP_LIMIT {
            CLAMP_LIMIT
        } else {
            v
        }
    }

    /// Flush when 10 ms passed since the last flush (a clock that went back
    /// counts as no time passed), or when motion turns in a new direction
    /// along either axis.
    pub fn should_flush(&self, dx: i32, dy: i32, now_ms: u64) -> (r: bool)
        ensures
            r == self.flush_due(dx, dy, now_ms),
    {
        let elapsed = if now_ms >= self.last_flush_ms {
            now_ms - self.last_flush_ms
        } else {
            0
        };
        if elapsed >= FLUSH_INTERVAL_MS {
            return true;
        }
        let dx_sign = Self::sign(dx);
        let dy_sign = Self::sign(dy);
        if dx_sign != 0 && dx_sign != self.last_dx_sign {
            return true;
        }
        if dy_sign != 0 && dy_sign != self.last_dy_sign {
            return true;
        }
        false
    }

    /// Adds a motion sample; the first sample since a flush sets the batch's
    /// sequence number and base ticks.
    pub fn accumulate(&mut self, dx: i32, dy: i32, sequence: u64, base_ticks: u64)
        requires
            old(self).wf(),
            delta_in_range(dx),
            delta_in_range(dy),
        ensures
            final(self).wf(),
            final(self).dx == spec_clamp(old(self).dx + dx),
            final(self).dy == spec_clamp(old(self).dy + dy),
            final(self).sequence == if old(self).sequence == 0 {
                sequence
            } else {
                old(self).sequence
            },
            final(self).base_ticks == if old(self).sequence == 0 {
                base_ticks
            } else {
                old(self).base_ticks
            },
            final(self).last_dx_sign == if dx != 0 {
                spec_sign(dx as int)
            } else {
                old(self).last_dx_sign
            },
            final(self).last_dy_sign == if dy != 0 {
                spec_sign(dy as int)
            } else {
                old(self).last_dy_sign
            },
            final(self).last_flush_ms == old(self).last_flush_ms,
    {
        self.dx = Self::clamp(self.dx + dx);
        self.dy = Self::clamp(self.dy + dy);
        if self.sequence == 0 {
            self.sequence = sequence;
            self.base_ticks = base_ticks;
        }
        if dx != 0 {
            self.last_dx_sign = Self::sign(dx);
        }
        if dy != 0 {
            self.last_dy_sign = Self::sign(dy);
        }
    }

    /// Takes the accumulated motion `(dx, dy, sequence, base_ticks)` and
    /// resets the batch; `None`, leaving the state as it was, when there is
    /// no motion.
    pub fn take_batch(&mut self, now_ms: u64) -> (b: Option<(i32, i32, u64, u64)>)
        requires
            old(self).wf(),
        ensures
            final(self).wf(),
            old(self).dx == 0 && old(self).dy == 0 ==> b is None && *final(self) == *old(self),
            !(old(self).dx == 0 && old(self).dy == 0) ==> b == Some(
                (old(self).dx, old(self).dy, old(self).sequence, old(self).base_ticks),
            ) && final(self).is_empty_at(now_ms),
    {
        if self.dx == 0 && self.dy == 0 {
            return None;
        }
        let batch = (self.dx, self.dy, self.sequence, self.base_ticks);
        self.dx = 0;
        self.dy = 0;
        self.sequence = 0;
        self.base_ticks = 0;
        self.last_flush_ms = now_ms;
        self.last_dx_sign = 0;
        self.last_dy_sign = 0;
        Some(batch)
    }
}

/// The forwarder's decision state: the batch, the sequence counter, and the
/// latest Alt-key and focus poll.
pub struct MouseForwarder {
    running: bool,
    batch: BatchState,
    next_seq: u64,
    last_sample_ticks: u64,
    alt_pressed: bool,
    focus_lost: bool,
}

impl MouseForwarder {
    pub closed spec fn is_running(&self) -> bool {
        self.running
    }

    pub closed spec fn pending(&self) -> BatchState {
        self.batch
    }

    /// The number the next mouse sample gets.
    pub closed spec fn next_number(&self) -> u64 {
        self.next_seq
    }

    pub closed spec fn suppressed(&self) -> bool {
        self.alt_pressed || self.focus_lost
    }

    pub closed spec fn wf(&self) -> bool {
        self.batch.wf()
    }

    /// A running forwarder with an empty batch; sequence numbers start at 1.
    pub fn new(now_ms: u64) -> (f: Self)
        ensures
            f.wf(),
            f.is_running(),
            f.pending().is_empty_at(now_ms),
            f.next_number() == 1,
            !f.suppressed(),
    {
        MouseForwarder {
            running: true,
            batch: BatchState::new(now_ms),
            next_seq: 1,
            last_sample_ticks: 0,
            alt_pressed: false,
            focus_lost: false,
        }
    }

    /// Records the latest poll of the Alt key and of foreground focus.
    pub fn on_poll(&mut self, alt_pressed: bool, focus_lost: bool)
        ensures
            final(self).suppressed() == (alt_pressed || focus_lost),
            final(self).pending() == old(self).pending(),
            final(self).next_number() == old(self).next_number(),
            final(self).is_running() == old(self).is_running(),
            final(self).wf() == old(self).wf(),
    {
        self.alt_pressed = alt_pressed;
        self.focus_lost = focus_lost;
    }

    /// Adds a raw mouse sample to the batch, numbering it.
    pub fn on_mouse_sample(&mut self, x: i32, y: i32, timestamp: u64)
        requires
            old(self).wf(),
            delta_in_range(x),
            delta_in_range(y),
        ensures
            final(self).wf(),
            final(self).pending().dx == spec_clamp(old(self).pending().dx + x),
            final(self).pending().dy == spec_clamp(old(self).pending().dy + y),
            final(self).pending().sequence == if old(self).pending().sequence == 0 {
                old(self).next_number()
            } else {
                old(self).pending().sequence
            },
            final(self).pending().base_ticks == if old(self).pending().sequence == 0 {
                timestamp
            } else {
                old(self).pending().base_ticks
            },
            final(self).next_number() == if old(self).next_number() == u64::MAX {
                0u64
            } else {
                (old(self).next_number() + 1) as u64
            },
            final(self).suppressed() == old(self).suppressed(),
            final(self).is_running() == old(self).is_running(),
    {
        let seq = self.next_seq;
        self.batch.accumulate(x, y, seq, timestamp);
        self.next_seq = next_sequence(seq);
        self.last_sample_ticks = timestamp;
    }

    /// One flush tick: the batch to forward to the agent now, if any. While
    /// Alt is held or focus is elsewhere the batch is drained but nothing is
    /// forwarded.
    pub fn on_flush_tick(&mut self, now_ms: u64) -> (m: Option<RelativeMouseBatch>)
        requires
            old(self).wf(),
        ensures
            final(self).wf(),
            ({
                let b = old(self).pending();
                let taken = b.flush_due(b.dx, b.dy, now_ms) && !(b.dx == 0 && b.dy == 0);
                &&& (m is Some <==> taken && !old(self).suppressed())
                &&& (m matches Some(batch) ==> forwarded_batch(batch@, b))
                &&& taken ==> final(self).pending().is_empty_at(now_ms)
                &&& !taken ==> final(self).pending() == b
            }),
            final(self).suppressed() == old(self).suppressed(),
            final(self).is_running() == old(self).is_running(),
            final(self).next_number() == old(self).next_number(),
    {
        let flush = self.batch.should_flush(self.batch.dx, self.batch.dy, now_ms);
        if !flush {
            return None;
        }
        match self.batch.take_batch(now_ms) {
            Some((dx, dy, seq, base)) => {
                if self.alt_pressed || self.focus_lost {
                    None
                } else {
                    let mut events: Vec<MouseEvent> = Vec::new();
                    events.push(MouseEvent { dx, dy, rel_ticks: 0 });
                    Some(RelativeMouseBatch { count: 1, first_seq: seq, base_ticks: base as i64, events })
                }
            },
            None => None,
        }
    }

    /// Stops the forwarder; the caller stops the raw-input monitor.
    pub fn stop(&mut self)
        ensures
            !final(self).is_running(),
            final(self).pending() == old(self).pending(),
            final(self).next_number() == old(self).next_number(),
            final(self).suppressed() == old(self).suppressed(),
            final(self).wf() == old(self).wf(),
    {
        self.running = false;
    }

    pub fn running(&self) -> (r: bool)
        ensures
            r == self.is_running(),
    {
        self.running
    }
}

} // verus!
