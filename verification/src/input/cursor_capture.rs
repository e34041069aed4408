//! The cursor clip of game-mouse mode: which rectangle the cursor is held
//! in, what to restore, and how many times the cursor was hidden. The
//! window-system calls themselves are made by the caller, which reports
//! their results to these steps.
use vstd::prelude::*;
use crate::text::owned;

verus! {

/// Most `ShowCursor(false)` calls one capture makes.
pub const MAX_HIDE_COUNT: i32 = 64;

/// A screen rectangle.
#[derive(Debug, Clone, Copy, PartialEq, Eq, Structural)]
pub struct Rect {
    pub left: i32,
    pub top: i32,
    pub right: i32,
    pub bottom: i32,
}

impl Rect {
    /// The all-zero rectangle, which the system reports when no clip is set.
    pub open spec fn is_zero(self) -> bool {
        self.left == 0 && self.top == 0 && self.right == 0 && self.bottom == 0
    }
}

/// Prints a warning once until reset, so a failing call repeated at a high
/// rate does not flood the error stream.
#[derive(Debug, Clone, Copy, PartialEq, Eq, Structural)]
pub struct WarnThrottled {
    pub warned: bool,
}

impl WarnThrottled {
    pub fn new() -> (w: Self)
        ensures
            !w.warned,
    {
        WarnThrottled { warned: false }
    }

    /// Whether this warning is printed: only the first since the last reset.
    pub fn warn(&mut self) -> (print: bool)
        ensures
            print == !old(self).warned,
            final(self).warned,
    {
        let print = !self.warned;
        self.warned = true;
        print
    }

    pub fn reset(&mut self)
        ensures
            !final(self).warned,
    {
        self.warned = false;
    }
}

/// Half of `v`, rounded toward zero as integer division in Rust rounds.
pub open spec fn half_toward_zero(v: int) -> int {
    if v >= 0 {
        v / 2
    } else {
        -((-v) / 2)
    }
}

/// A failed call: the error to return and whether its warning is printed.
pub struct CaptureFailure {
    pub message: String,
    pub print_warning: bool,
}

/// The state of the cursor clip.
pub struct CursorCapture {
    pub capture_rect: Rect,
    pub old_rect: Option<Rect>,
    pub hide_count: i32,
    pub active: bool,
    pub throttle: WarnThrottled,
}

impl CursorCapture {
    /// The hide count stays within one capture's worth of hides.
    pub open spec fn wf(&self) -> bool {
        0 <= self.hide_count <= MAX_HIDE_COUNT
    }

    /// Inactive, clipping to `capture_rect` once captured.
    pub fn new(capture_rect: Rect) -> (c: Self)
        ensures
            c.wf(),
            c.capture_rect == capture_rect,
            c.old_rect is None,
            c.hide_count == 0,
            !c.active,
            !c.throttle.warned,
    {
        CursorCapture {
            capture_rect,
            old_rect: None,
            hide_count: 0,
            active: false,
            throttle: WarnThrottled::new(),
        }
    }

    pub fn is_active(&self) -> (r: bool)
        ensures
            r == self.active,
    {
        self.active
    }

    /// Starts a capture, given the clip the system reports now (`None` when
    /// it could not be read). Returns the rectangle to clip to, or `None`
    /// when already captured (nothing to do). A non-zero current clip is
    /// remembered for the final release.
    pub fn capture_begin(&mut self, current_clip: Option<Rect>) -> (clip: Option<Rect>)
        ensures
            old(self).active ==> clip is None && *final(self) == *old(self),
            !old(self).active ==> clip == Some(old(self).capture_rect),
            !old(self).active ==> final(self).old_rect == match current_clip {
                Some(r) => if r.is_zero() {
                    old(self).old_rect
                } else {
                    Some(r)
                },
                None => old(self).old_rect,
            },
            final(self).active == old(self).active,
            final(self).hide_count == old(self).hide_count,
            final(self).capture_rect == old(self).capture_rect,
            final(self).throttle == old(self).throttle,
    {
        if self.active {
            return None;
        }
        match current_clip {
            Some(r) => {
                if r.left != 0 || r.top != 0 || r.right != 0 || r.bottom != 0 {
                    self.old_rect = Some(r);
                }
            },
            None => {},
        }
        Some(self.capture_rect)
    }

    /// Clipping to the capture rectangle failed: the capture ends with this error.
    pub fn capture_clip_failed(&mut self) -> (f: CaptureFailure)
        ensures
            f.message@ == "ClipCursor 捕获失败"@,
            f.print_warning == !old(self).throttle.warned,
            final(self).throttle.warned,
            final(self).active == old(self).active,
            final(self).hide_count == old(self).hide_count,
            final(self).old_rect == old(self).old_rect,
            final(self).capture_rect == old(self).capture_rect,
    {
        let print_warning = self.throttle.warn();
        CaptureFailure { message: owned("ClipCursor 捕获失败"), print_warning }
    }

    /// `ShowCursor(false)` returned `display_count`: a negative count means
    /// the cursor is hidden once more. Returns whether to hide again.
    pub fn hide_step(&mut self, display_count: i32) -> (again: bool)
        requires
            old(self).wf(),
        ensures
            final(self).wf(),
            again == (display_count < 0 && old(self).hide_count < MAX_HIDE_COUNT),
            final(self).hide_count == if again {
                old(self).hide_count + 1
            } else {
                old(self).hide_count as int
            },
            final(self).active == old(self).active,
            final(self).old_rect == old(self).old_rect,
            final(self).capture_rect == old(self).capture_rect,
            final(self).throttle == old(self).throttle,
    {
        if display_count < 0 && self.hide_count < MAX_HIDE_COUNT {
            self.hide_count = self.hide_count + 1;
            true
        } else {
            false
        }
    }

    /// The capture succeeded.
    pub fn capture_done(&mut self)
        ensures
            final(self).active,
            !final(self).throttle.warned,
            final(self).hide_count == old(self).hide_count,
            final(self).old_rect == old(self).old_rect,
            final(self).capture_rect == old(self).capture_rect,
    {
        self.active = true;
        self.throttle.reset();
    }

    /// Releasing the clip for a while (focus lost, Alt held) has work to do
    /// only while captured.
    pub fn release_temporarily_needed(&self) -> (r: bool)
        ensures
            r == self.active,
    {
        self.active
    }

    /// Clearing the clip failed: the temporary release ends with this error.
    pub fn release_clip_failed(&mut self) -> (f: CaptureFailure)
        ensures
            f.message@ == "ClipCursor 释放失败"@,
            f.print_warning == !old(self).throttle.warned,
            final(self).throttle.warned,
            final(self).active == old(self).active,
            final(self).hide_count == old(self).hide_count,
            final(self).old_rect == old(self).old_rect,
            final(self).capture_rect == old(self).capture_rect,
    {
        let print_warning = self.throttle.warn();
        CaptureFailure { message: owned("ClipCursor 释放失败"), print_warning }
    }

    /// Where the cursor is put after a temporary release: the centre of the
    /// capture rectangle (Rust division, rounding toward zero).
    pub fn center(&self) -> (c: (i32, i32))
        requires
            i32::MIN <= self.capture_rect.left + self.capture_rect.right <= i32::MAX,
            i32::MIN <= self.capture_rect.top + self.capture_rect.bottom <= i32::MAX,
        ensures
            c.0 == half_toward_zero(self.capture_rect.left + self.capture_rect.right),
            c.1 == half_toward_zero(self.capture_rect.top + self.capture_rect.bottom),
    {
        ((self.capture_rect.left + self.capture_rect.right) / 2, (self.capture_rect.top
            + self.capture_rect.bottom) / 2)
    }

    /// A failed window-system call during a release or an update: whether
    /// its warning is printed.
    pub fn call_failed(&mut self) -> (print_warning: bool)
        ensures
            print_warning == !old(self).throttle.warned,
            final(self).throttle.warned,
            final(self).active == old(self).active,
            final(self).hide_count == old(self).hide_count,
            final(self).old_rect == old(self).old_rect,
            final(self).capture_rect == old(self).capture_rect,
    {
        self.throttle.warn()
    }

    /// How many `ShowCursor(true)` calls undo the hides.
    pub fn hides_to_undo(&self) -> (n: i32)
        ensures
            n == self.hide_count,
    {
        self.hide_count
    }

    /// The cursor was shown again and the clip cleared: not captured any more.
    pub fn release_done(&mut self)
        ensures
            final(self).wf(),
            !final(self).active,
            final(self).hide_count == 0,
            !final(self).throttle.warned,
            final(self).old_rect == old(self).old_rect,
            final(self).capture_rect == old(self).capture_rect,
    {
        self.hide_count = 0;
        self.active = false;
        self.throttle.reset();
    }

    /// A final release has work to do unless nothing is captured, remembered or hidden.
    pub fn release_needed(&self) -> (r: bool)
        ensures
            r == (self.active || self.old_rect is Some || self.hide_count != 0),
    {
        self.active || self.old_rect.is_some() || self.hide_count != 0
    }

    /// The clip a final release restores (`None`: clear the clip); the
    /// remembered clip is used up.
    pub fn release_target(&mut self) -> (restore: Option<Rect>)
        ensures
            restore == old(self).old_rect,
            final(self).old_rect is None,
            final(self).active == old(self).active,
            final(self).hide_count == old(self).hide_count,
            final(self).capture_rect == old(self).capture_rect,
            final(self).throttle == old(self).throttle,
    {
        let r = self.old_rect;
        self.old_rect = None;
        r
    }

    /// A new capture rectangle; returns it when the clip must be moved now.
    pub fn update_rect(&mut self, rect: Rect) -> (clip_now: Option<Rect>)
        ensures
            final(self).capture_rect == rect,
            clip_now == if old(self).active {
                Some(rect)
            } else {
                None
            },
            final(self).active == old(self).active,
            final(self).hide_count == old(self).hide_count,
            final(self).old_rect == old(self).old_rect,
            final(self).throttle == old(self).throttle,
    {
        self.capture_rect = rect;
        if self.active {
            Some(rect)
        } else {
            None
        }
    }
}

} // verus!
