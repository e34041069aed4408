use akispace::input::cursor_capture::{CursorCapture, Rect, WarnThrottled, MAX_HIDE_COUNT};

fn rect(l: i32, t: i32, r: i32, b: i32) -> Rect {
    Rect { left: l, top: t, right: r, bottom: b }
}

#[test]
fn capture_remembers_old_clip_and_counts_hides() {
    let mut c = CursorCapture::new(rect(0, 0, 100, 50));
    let prev = rect(10, 10, 20, 20);
    assert_eq!(c.capture_begin(Some(prev)), Some(rect(0, 0, 100, 50)));
    assert_eq!(c.old_rect, Some(prev));
    assert!(c.hide_step(-1));
    assert!(c.hide_step(-2));
    assert!(!c.hide_step(0));
    c.capture_done();
    assert!(c.is_active());
    assert_eq!(c.hides_to_undo(), 2);
    // already captured: nothing to do
    assert_eq!(c.capture_begin(Some(rect(1, 1, 1, 1))), None);
    assert_eq!(c.old_rect, Some(prev));
}

#[test]
fn zero_clip_is_not_remembered_and_hides_are_bounded() {
    let mut c = CursorCapture::new(rect(0, 0, 10, 10));
    c.capture_begin(Some(rect(0, 0, 0, 0)));
    assert_eq!(c.old_rect, None);
    let mut n = 0;
    while c.hide_step(-1) {
        n += 1;
    }
    assert_eq!(n, MAX_HIDE_COUNT);
}

#[test]
fn temporary_and_final_release() {
    let mut c = CursorCapture::new(rect(-10, 0, 101, 50));
    assert!(!c.release_temporarily_needed());
    c.capture_begin(Some(rect(5, 5, 6, 6)));
    c.hide_step(-1);
    c.capture_done();
    assert!(c.release_temporarily_needed());
    assert_eq!(c.center(), (45, 25));
    c.release_done();
    assert!(!c.is_active());
    assert_eq!(c.hides_to_undo(), 0);
    assert!(c.release_needed());
    assert_eq!(c.release_target(), Some(rect(5, 5, 6, 6)));
    assert!(!c.release_needed());
    assert_eq!(CursorCapture::new(rect(-3, -3, 0, 0)).center(), (-1, -1));
}

#[test]
fn failures_warn_once_until_reset() {
    let mut c = CursorCapture::new(rect(0, 0, 1, 1));
    let f = c.capture_clip_failed();
    assert_eq!(f.message, "ClipCursor 捕获失败");
    assert!(f.print_warning);
    assert!(!c.call_failed());
    c.capture_done();
    assert!(c.call_failed());
    let r = c.release_clip_failed();
    assert_eq!(r.message, "ClipCursor 释放失败");
    assert!(!r.print_warning);
    let mut w = WarnThrottled::new();
    assert!(w.warn());
    assert!(!w.warn());
    w.reset();
    assert!(w.warn());
}

#[test]
fn update_rect_moves_clip_only_while_captured() {
    let mut c = CursorCapture::new(rect(0, 0, 1, 1));
    assert_eq!(c.update_rect(rect(0, 0, 2, 2)), None);
    c.capture_begin(None);
    c.capture_done();
    assert_eq!(c.update_rect(rect(0, 0, 3, 3)), Some(rect(0, 0, 3, 3)));
    assert_eq!(c.capture_rect, rect(0, 0, 3, 3));
}
