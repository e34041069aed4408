use akispace::settings::{
    dpapi_envelope, dpapi_payload, needs_password_upgrade, protected_password, AppSettings,
    ConnectionMode, SettingsService,
};

#[test]
fn defaults() {
    let s = AppSettings::default();
    assert_eq!(s.desktop_width, 1920);
    assert_eq!(s.desktop_height, 1080);
    assert_eq!(s.color_depth, 32);
    assert_eq!(s.rdp_port, 3389);
    assert_eq!(s.clone_username, "AkiSpaceUser");
    assert!(s.clone_password.is_empty());
    assert_eq!(s.theme, "dark");
    assert_eq!(s.connection_mode, ConnectionMode::StandardRdp);
    assert!(s.launch_program_path.is_none());
    assert!(s.logoff_on_exit && s.smart_sizing && !s.auto_connect);
}

#[test]
fn envelope_round_trip() {
    let e = dpapi_envelope(&[1, 2, 3]);
    assert_eq!(e, "DPAPI:AQID");
    assert_eq!(dpapi_payload(&e), Some(vec![1, 2, 3]));
    assert_eq!(dpapi_payload("AQID"), None);
    assert_eq!(dpapi_payload("DPAPI:***"), None);
    assert_eq!(dpapi_payload("DPAPI:"), Some(vec![]));
}

#[test]
fn password_states() {
    assert_eq!(protected_password("secret", None), "secret");
    assert_eq!(protected_password("secret", Some(vec![0xff])), "DPAPI:/w==");
    assert!(needs_password_upgrade("secret"));
    assert!(!needs_password_upgrade("DPAPI:AQID"));
    assert!(!needs_password_upgrade(""));

    let mut s = AppSettings::default();
    assert_eq!(s.get_clone_password(Some("ignored".to_string())), "");
    s.set_clone_password("pw", Some(vec![1, 2, 3]));
    assert_eq!(s.clone_password, "DPAPI:AQID");
    assert_eq!(s.get_clone_password(Some("pw".to_string())), "pw");
    assert_eq!(s.get_clone_password(None), "DPAPI:AQID");
    s.set_clone_password("", Some(vec![9]));
    assert_eq!(s.clone_password, "");
    s.set_clone_password("plain", None);
    assert_eq!(s.clone_password, "plain");
}

#[test]
fn service_update_and_copy() {
    let mut svc = SettingsService::new(AppSettings::default());
    svc.update(|mut s| {
        s.rdp_port = 3390;
        s
    });
    let cur = svc.current();
    assert_eq!(cur.rdp_port, 3390);
    let c = cur.copy();
    assert_eq!(c.rdp_port, 3390);
    assert_eq!(c.clone_username, cur.clone_username);
}

#[test]
fn game_mouse_toggles() {
    let mut s = AppSettings::default();
    assert!(s.toggle_game_mouse());
    assert!(s.game_mouse_mode_enabled);
    assert!(!s.toggle_game_mouse());
}
