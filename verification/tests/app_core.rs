use akispace::app::{
    close_step, connection_status_name, env_check_report, game_mouse_toast, hide_toast,
    host_creation_failed_toast, is_toast_hide, launch_program_toast, memory_used_mb,
    network_status_name, reported_session_id, toast_event_message, toast_level_name,
    toast_should_show, toast_tooltip, tray_click_event, tray_command_event, window_message_action,
    AppCore, AppEvent, CloseAction, ToastDebounce, ConnectionState, ToastLevel, ToastMessage, WindowAction,
    WM_CLOSE, WM_DESTROY, WM_LBUTTONDBLCLK, WM_NCLBUTTONDOWN, WM_RBUTTONUP, WM_TRAYICON,
};
use akispace::rdp::RdpEvent;

#[test]
fn rdp_events_drive_the_state() {
    let mut core = AppCore::new();
    assert!(core.begin_connect());
    assert!(!core.begin_connect());
    assert_eq!(core.connection_state, ConnectionState::Connecting);
    let fx = core.handle_rdp_event(&RdpEvent::Connected);
    assert_eq!(core.connection_state, ConnectionState::Connected);
    assert!(!core.is_connecting);
    assert_eq!(fx.tooltip, Some("AkiSpace 已连接"));
    assert!(fx.emit_state);
    let t = fx.toast.unwrap();
    assert_eq!((t.title.as_str(), t.message.as_str()), ("连接成功", "RDP 会话已建立"));

    let fx = core.handle_rdp_event(&RdpEvent::Disconnected(2, "server=x".to_string()));
    assert_eq!(core.connection_state, ConnectionState::Disconnected);
    let t = fx.toast.unwrap();
    assert_eq!(t.message, "原因: 2 诊断: server=x");
    assert_eq!(t.level, ToastLevel::Warning);

    let fx = core.handle_rdp_event(&RdpEvent::LoginComplete(0));
    assert!(fx.toast.is_none() && !fx.emit_state);
    let fx = core.handle_rdp_event(&RdpEvent::LoginComplete(-7));
    assert_eq!(fx.toast.unwrap().message, "错误代码: -7");
    let fx = core.handle_rdp_event(&RdpEvent::AutoReconnecting(1, 5));
    assert_eq!(fx.toast.unwrap().message, "尝试 1/5");
    let fx = core.handle_rdp_event(&RdpEvent::FatalError(3));
    assert_eq!(fx.tooltip, None);
    assert!(fx.emit_state);
    let fx = core.handle_rdp_event(&RdpEvent::TunnelCreated);
    assert!(fx.toast.is_none() && fx.tooltip.is_none() && !fx.emit_state);
}

#[test]
fn status_tick_only_downgrades() {
    let mut core = AppCore::new();
    assert_eq!(core.status_tick(true), None);
    core.handle_rdp_event(&RdpEvent::Connected);
    assert_eq!(core.status_tick(true), None);
    assert_eq!(core.status_tick(false), Some("AkiSpace 已断开"));
    assert_eq!(core.connection_state, ConnectionState::Disconnected);
}

#[test]
fn shutdown_runs_eight_steps() {
    let mut core = AppCore::new();
    let mut step = core.begin_exit();
    let mut actions = Vec::new();
    loop {
        let (a, next) = core.close_sequence(step).unwrap();
        actions.push(a);
        match next {
            Some(n) => step = n,
            None => break,
        }
    }
    assert_eq!(actions.len(), 8);
    assert_eq!(actions[0], CloseAction::DisconnectRdp);
    assert_eq!(actions[7], CloseAction::PostQuit);
    assert_eq!(core.shutdown_sequence, 8);
    assert!(close_step(9).is_none());
    assert!(close_step(0).is_none());
}

#[test]
fn tray_and_window_messages() {
    assert!(matches!(tray_command_event(1001), Some(AppEvent::Connect)));
    assert!(matches!(tray_command_event(1008), Some(AppEvent::Exit)));
    assert!(tray_command_event(1009).is_none());
    assert!(matches!(tray_click_event(WM_LBUTTONDBLCLK), Some(AppEvent::TrayDoubleClick)));
    assert!(tray_click_event(WM_RBUTTONUP).is_none());
    assert!(matches!(
        window_message_action(WM_TRAYICON, 0, WM_RBUTTONUP as isize),
        WindowAction::Post(AppEvent::TrayClick(0x0205))
    ));
    assert!(matches!(window_message_action(WM_TRAYICON, 0, 0x0200), WindowAction::Handled));
    assert!(matches!(window_message_action(WM_NCLBUTTONDOWN, 2, 0), WindowAction::Post(AppEvent::WindowDrag)));
    assert!(matches!(window_message_action(WM_NCLBUTTONDOWN, 3, 0), WindowAction::Default));
    assert!(matches!(window_message_action(WM_CLOSE, 0, 0), WindowAction::Post(AppEvent::Exit)));
    assert!(matches!(window_message_action(WM_DESTROY, 0, 0), WindowAction::Quit));
}

#[test]
fn toasts() {
    assert!(toast_should_show(None, 0));
    assert!(!toast_should_show(Some(1000), 15999));
    assert!(toast_should_show(Some(1000), 16000));
    assert!(!toast_should_show(Some(1000), 10));
    let t = ToastMessage { title: "T".to_string(), message: "m".to_string(), level: ToastLevel::Error };
    assert_eq!(toast_tooltip(&t), "T: m");
    assert_eq!(toast_event_message(&t), "T: m");
    let bare = ToastMessage { title: String::new(), message: "m".to_string(), level: ToastLevel::Info };
    assert_eq!(toast_event_message(&bare), "m");
    assert_eq!(toast_level_name(ToastLevel::Warning), "warning");
    assert!(is_toast_hide(&hide_toast()));
    assert!(!is_toast_hide(&bare));
    assert_eq!(game_mouse_toast(true).message, "已启用");
    assert_eq!(launch_program_toast(false, Some(3)).message, "未配置程序路径");
    assert_eq!(launch_program_toast(true, None).message, "未找到子会话");
    assert_eq!(launch_program_toast(true, Some(3)).message, "在会话 3 中启动");
    assert_eq!(host_creation_failed_toast("E_FAIL").message, "创建 RDP 主机失败: E_FAIL");
}

#[test]
fn status_texts() {
    assert_eq!(connection_status_name(ConnectionState::Disconnecting), "disconnected");
    assert_eq!(connection_status_name(ConnectionState::Connecting), "connecting");
    assert_eq!(network_status_name(ConnectionState::Connected), "正常");
    assert_eq!(network_status_name(ConnectionState::Connecting), "未连接");
    assert_eq!(memory_used_mb(8 * 1024 * 1024 * 1024, 6 * 1024 * 1024 * 1024), 2048);
    assert_eq!(reported_session_id(ConnectionState::Connected, Some(5)), Some("5".to_string()));
    assert_eq!(reported_session_id(ConnectionState::Connecting, Some(5)), None);
    assert_eq!(reported_session_id(ConnectionState::Connected, None), None);
}

#[test]
fn env_report_lines() {
    let r = env_check_report(&Ok(true), 3389, true, false, &Ok("10.0.19041".to_string()));
    assert_eq!(
        r,
        "子会话: 已启用\nRDP 端口: 3389\nRDP 监听: 正常\nRDP Wrapper: 未安装\ntermsrv.dll: 10.0.19041"
    );
    let r = env_check_report(&Err("x".to_string()), 1, false, true, &Err("y".to_string()));
    assert_eq!(
        r,
        "子会话检查失败: x\nRDP 端口: 1\nRDP 监听: 异常\nRDP Wrapper: 已安装\ntermsrv.dll 版本获取失败: y"
    );
}

#[test]
fn repeated_toasts_are_debounced() {
    let mut d = ToastDebounce::new();
    assert!(d.check_and_record("警告", "x", 1000));
    assert!(!d.check_and_record("警告", "x", 2000));
    assert!(d.check_and_record("警告", "y", 2000));
    assert!(d.check_and_record("警告", "x", 16000));
    assert!(!d.check_and_record("警告", "x", 20000));
    assert!(!d.check_and_record("警告", "x", 100));
    assert!(d.check_and_record("警告", "x", 31000));
}
