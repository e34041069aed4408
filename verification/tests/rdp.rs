use akispace::rdp::{
    child_session_diagnostic, connect_guard, connect_property_plan, connect_retry_delay_s,
    connect_step, disconnect_diagnostics, ConnectStep, CONNECT_ATTEMPTS, E_FAIL,
    variant_bool_str, RdpObject, VT_BOOL, VT_I2,
};

#[test]
fn diagnostics_text() {
    assert_eq!(
        disconnect_diagnostics("127.0.0.1", "u", "", "1920", "1080", "32", "child_session=true"),
        "server=127.0.0.1 user=u domain= width=1920 height=1080 color=32 error=child_session=true"
    );
    assert_eq!(variant_bool_str(VT_BOOL, -1, 0), "true");
    assert_eq!(variant_bool_str(VT_I2, 0, 0), "false");
    assert_eq!(variant_bool_str(8, 0, 0), "vt=8 unknown");
    assert_eq!(child_session_diagnostic("true"), "child_session=true");
}

#[test]
fn retry_delays() {
    assert_eq!(connect_retry_delay_s(0), Some(1));
    assert_eq!(connect_retry_delay_s(1), Some(2));
    assert_eq!(connect_retry_delay_s(2), None);
}

#[test]
fn connect_plan_skips_empty_user_and_domain() {
    let full = connect_property_plan("127.0.0.1", "u", "d", "pw");
    assert_eq!(full.len(), 25);
    assert_eq!((full[0].object, full[0].name, full[0].value.as_str()), (RdpObject::Control, "Server", "127.0.0.1"));
    assert_eq!((full[1].name, full[1].value.as_str()), ("UserName", "u"));
    assert_eq!((full[2].name, full[2].value.as_str()), ("Domain", "d"));
    let short = connect_property_plan("127.0.0.1", "", "", "pw");
    assert_eq!(short.len(), 23);
    assert_eq!(short[1].name, "DesktopWidth");
    let pw = short.iter().find(|w| w.name == "ClearTextPassword").unwrap();
    assert_eq!((pw.object, pw.value.as_str()), (RdpObject::NonScriptable, "pw"));
    let last = short.last().unwrap();
    assert_eq!((last.object, last.name, last.value.as_str()), (RdpObject::ExtendedSettings, "ConnectToChildSession", "1"));
}

#[test]
fn connect_needs_the_control() {
    assert!(connect_guard(false, true).is_ok());
    for (fallback, control) in [(true, true), (false, false), (true, false)] {
        let e = connect_guard(fallback, control).unwrap_err();
        assert_eq!(e.hresult, E_FAIL);
        assert_eq!(e.hresult as u32, 0x80004005);
        assert_eq!(e.message, "未初始化 RDP 控件");
    }
}

/// Drives the connect steps over the given outcomes of `Connect`.
fn drive(outcomes: [bool; 3]) -> (usize, Vec<u64>, bool) {
    let mut pauses = Vec::new();
    for attempt in 0..CONNECT_ATTEMPTS {
        match connect_step(attempt, outcomes[attempt]) {
            ConnectStep::Connected => return (attempt + 1, pauses, true),
            ConnectStep::RetryAfter(d) => pauses.push(d),
            ConnectStep::GiveUp => return (attempt + 1, pauses, false),
        }
    }
    unreachable!()
}

#[test]
fn connect_tries_three_times_with_growing_pauses() {
    assert_eq!(connect_step(0, true), ConnectStep::Connected);
    assert_eq!(connect_step(2, false), ConnectStep::GiveUp);
    assert_eq!(drive([true, false, false]), (1, vec![], true));
    assert_eq!(drive([false, false, true]), (3, vec![1, 2], true));
    assert_eq!(drive([false, true, true]), (2, vec![1], true));
    assert_eq!(drive([false, false, false]), (3, vec![1, 2], false));
}
