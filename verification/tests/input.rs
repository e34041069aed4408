use akispace::input::forwarder::{BatchState, MouseForwarder, CLAMP_LIMIT};
use akispace::input::raw_input::{
    event_from_report, mouse_motion, RawInputData, RawInputType, RawReport, RIM_TYPEKEYBOARD,
    RIM_TYPEMOUSE,
};
use akispace::ipc::frame::{MouseEvent, RelativeMouseBatch};
use akispace::input::replay::{
    batch_moves, batch_result, group_size, key_flags, key_input, mouse_button_flags, mouse_button_input, mouse_move_input,
    mouse_wheel_input, next_sequence, should_flush_group, wheel_mouse_data, ReplayEvent,
    ReplayInput, ReplayProducer, ReplayQueue, MAX_GROUP, MOUSEEVENTF_LEFTDOWN, MOUSEEVENTF_MOVE,
    MOUSEEVENTF_RIGHTUP, MOUSEEVENTF_WHEEL,
};

#[test]
fn batch_clamps_and_resets() {
    let mut b = BatchState::new(100);
    b.accumulate(5000, -3, 7, 900);
    b.accumulate(10, -4, 8, 901);
    assert_eq!(b.dx, CLAMP_LIMIT);
    assert_eq!(b.dy, -7);
    assert_eq!(b.sequence, 7);
    assert_eq!(b.base_ticks, 900);
    assert_eq!(b.last_dx_sign, 1);
    assert_eq!(b.last_dy_sign, -1);
    assert_eq!(b.take_batch(120), Some((CLAMP_LIMIT, -7, 7, 900)));
    assert_eq!(b.take_batch(121), None);
    assert_eq!(b.last_flush_ms, 120);
    assert_eq!(BatchState::clamp(-9000), -CLAMP_LIMIT);
    assert_eq!(BatchState::sign(-2), -1);
}

#[test]
fn flush_on_time_or_direction_change() {
    let mut b = BatchState::new(100);
    assert!(!b.should_flush(0, 0, 105));
    assert!(b.should_flush(0, 0, 110));
    assert!(!b.should_flush(0, 0, 50));
    assert!(b.should_flush(1, 0, 101));
    b.accumulate(3, 0, 1, 0);
    assert!(!b.should_flush(2, 0, 101));
    assert!(b.should_flush(-2, 0, 101));
}

#[test]
fn forwarder_suppresses_while_alt_held() {
    let mut f = MouseForwarder::new(0);
    assert!(f.running());
    f.on_mouse_sample(4, 5, 1);
    f.on_mouse_sample(2, -1, 3);
    let batch = f.on_flush_tick(20).expect("a batch is forwarded");
    assert_eq!(batch.count, 1);
    assert_eq!(batch.first_seq, 1);
    assert_eq!(batch.base_ticks, 1);
    assert_eq!(batch.events.len(), 1);
    assert_eq!(batch.events[0].dx, 6);
    assert_eq!(batch.events[0].dy, 4);
    assert_eq!(batch.events[0].rel_ticks, 0);
    assert!(f.on_flush_tick(40).is_none());
    f.on_mouse_sample(1, 1, 7);
    f.on_poll(true, false);
    assert!(f.on_flush_tick(60).is_none());
    f.on_poll(false, false);
    assert!(f.on_flush_tick(80).is_none());
    f.on_mouse_sample(-2, 0, 9);
    let next = f.on_flush_tick(100).expect("a batch is forwarded");
    assert_eq!(next.first_seq, 4);
    assert_eq!(next.base_ticks, 9);
    assert_eq!(next.events[0].dx, -2);
    f.stop();
    assert!(!f.running());
}

#[test]
fn raw_reports_become_events() {
    let mouse = RawReport {
        header_type: RIM_TYPEMOUSE,
        last_x: -3,
        last_y: 4,
        button_flags: 1,
        button_data: 0xff88,
        vkey: 0,
        make_code: 0,
        key_flags: 0,
    };
    let e = event_from_report(77, &mouse).unwrap();
    assert_eq!(e.event_type, RawInputType::Mouse);
    match e.data {
        RawInputData::Mouse { x, y, buttons, wheel_delta } => {
            assert_eq!((x, y, buttons, wheel_delta), (-3, 4, 1, -120));
        }
        _ => panic!("mouse"),
    }
    assert_eq!(mouse_motion(&e), Some((-3, 4, 77)));
    let key = RawReport { header_type: RIM_TYPEKEYBOARD, vkey: 0x41, make_code: 0x1e, ..mouse };
    let k = event_from_report(1, &key).unwrap();
    assert_eq!(k.event_type, RawInputType::Keyboard);
    assert_eq!(mouse_motion(&k), None);
    assert!(event_from_report(1, &RawReport { header_type: 2, ..mouse }).is_none());
}

#[test]
fn replay_inputs() {
    assert_eq!(mouse_button_flags(true, false), MOUSEEVENTF_LEFTDOWN);
    assert_eq!(mouse_button_flags(false, true), MOUSEEVENTF_RIGHTUP);
    assert_eq!(key_flags(true), 0x000A);
    assert_eq!(key_flags(false), 0x0008);
    assert_eq!(wheel_mouse_data(-120), 0xFFFF_FF88);
    assert_eq!(
        mouse_move_input(3, -4),
        ReplayInput::Mouse { dx: 3, dy: -4, mouse_data: 0, flags: MOUSEEVENTF_MOVE }
    );
    assert_eq!(
        mouse_button_input(true, false),
        ReplayInput::Mouse { dx: 0, dy: 0, mouse_data: 0, flags: MOUSEEVENTF_LEFTDOWN }
    );
    assert_eq!(
        mouse_wheel_input(120),
        ReplayInput::Mouse { dx: 0, dy: 0, mouse_data: 120, flags: MOUSEEVENTF_WHEEL }
    );
    assert_eq!(key_input(0x41, 0x1e, true), ReplayInput::Keyboard { vk: 0x41, scan: 0x1e, flags: 0x000A });
    assert_eq!(next_sequence(1), 2);
    assert_eq!(next_sequence(u64::MAX), 0);
    assert!(should_flush_group(8, 0));
    assert!(should_flush_group(0, 64));
    assert!(!should_flush_group(7, 63));
    assert_eq!(group_size(10), 10);
    assert_eq!(group_size(100), MAX_GROUP);
}

#[test]
fn producer_numbers_from_one_and_stops() {
    let (mut p, rx) = ReplayProducer::new();
    p.send_mouse_move(1, 2, 10).unwrap();
    p.send_key(0x41, 0x1e, false, 11).unwrap();
    let first = rx.recv().unwrap();
    let second = rx.recv().unwrap();
    assert_eq!(first, ReplayEvent { sequence: 1, timestamp: 10, input: mouse_move_input(1, 2) });
    assert_eq!(second.sequence, 2);
    let ev = p.next_event(mouse_wheel_input(1), 12).unwrap();
    assert_eq!(ev.sequence, 3);
    p.stop();
    assert_eq!(p.send_mouse_button(true, true, 13), Err("Runner 已停止".to_string()));
    assert_eq!(p.sequence, 4);
    drop(rx);
    let (mut q, rx2) = ReplayProducer::new();
    drop(rx2);
    assert_eq!(q.send_mouse_wheel(1, 0), Err("通道已关闭".to_string()));
}

#[test]
fn queue_groups_hold_every_event_in_order() {
    let mut q = ReplayQueue::new();
    for i in 0..150u64 {
        q.push(ReplayEvent { sequence: i, timestamp: i, input: mouse_move_input(1, 1) });
    }
    assert_eq!(q.len(), 150);
    let first = q.take_group();
    assert_eq!(first.len(), 64);
    assert_eq!(first[0].sequence, 0);
    assert_eq!(q.len(), 86);
    let rest = q.drain_groups();
    assert_eq!(rest.iter().map(|g| g.len()).collect::<Vec<_>>(), vec![64, 22]);
    assert_eq!(rest[0][0].sequence, 64);
    assert_eq!(rest[1][21].sequence, 149);
    assert_eq!(q.len(), 0);
    assert!(q.take_group().is_empty());
}

#[test]
fn worker_flush_step_waits_for_threshold_or_full_group() {
    let mut q = ReplayQueue::new();
    for i in 1..=3u64 {
        q.push(ReplayEvent { sequence: i, timestamp: i, input: mouse_move_input(0, 1) });
    }
    assert!(q.flush_step(7).is_none());
    assert_eq!(q.len(), 3);
    let g = q.flush_step(8).expect("threshold passed");
    assert_eq!(g.iter().map(|e| e.sequence).collect::<Vec<_>>(), vec![1, 2, 3]);
    assert_eq!(q.len(), 0);
    assert!(q.flush_step(9).expect("threshold passed").is_empty());
    for i in 4..=70u64 {
        q.push(ReplayEvent { sequence: i, timestamp: i, input: mouse_move_input(0, 1) });
    }
    let full = q.flush_step(0).expect("a full group waits");
    assert_eq!(full.len(), MAX_GROUP);
    assert_eq!(full[0].sequence, 4);
    assert!(q.flush_step(0).is_none());
    assert_eq!(q.len(), 3);
}

#[test]
fn agent_batch_reply_and_moves() {
    let b = RelativeMouseBatch {
        count: 2,
        first_seq: 100,
        base_ticks: 0,
        events: vec![MouseEvent { dx: 3, dy: -1, rel_ticks: 0 }, MouseEvent { dx: -7, dy: 2, rel_ticks: 4 }],
    };
    let r = batch_result(&b);
    assert_eq!(r.last_seq, 101);
    assert!(r.handled);
    assert_eq!(batch_moves(&b), vec![mouse_move_input(3, -1), mouse_move_input(-7, 2)]);
}
