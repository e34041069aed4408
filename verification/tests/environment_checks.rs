use akispace::environment::{
    check_child_sessions, check_firewall_loopback_rule, check_multi_session, check_rdp_enabled,
    check_rdp_listener, check_rdp_wrapper, check_rdp_wrapper_hook, check_start_rcm,
    check_term_service_running, check_termsrv_version, count_failures, fix_disable_rdp_wrapper_hook,
    fix_enable_child_sessions, fix_ensure_firewall_loopback_rule, fix_restart_term_service,
    fix_set_security_layer, get_configured_rdp_port, is_rdp_wrapper_installed, run_all_checks,
    plan_hook_fix, run_all_fixes, service_wait_continues, CheckItem, EnvProbe,
    FirewallFixOutcome, FirewallProbe, FixOutcomes, FixStep, HookFixOutcome, RegDword, RegText,
    RegWrite, RestartOutcome, SecurityLayerWrite, ServiceProbe, CHECK_ITEM_COUNT, FIX_STEP_COUNT,
};
use akispace::environment::{
    restart_begin, restart_step, RestartAction, RestartState, ServiceEvent, SERVICE_RUNNING,
    SERVICE_STOPPED,
};

#[test]
fn dword_checks() {
    let r = check_rdp_enabled(RegDword::Value(0));
    assert!(r.passed);
    assert_eq!(r.detail, "fDenyTSConnections=0");
    let r = check_rdp_enabled(RegDword::Value(1));
    assert!(!r.passed);
    assert_eq!(r.detail, "fDenyTSConnections=1");
    let r = check_multi_session(RegDword::ValueUnavailable);
    assert!(!r.passed);
    assert_eq!(r.detail, "读取 fSingleSessionPerUser 失败");
    let r = check_start_rcm(RegDword::KeyUnavailable);
    assert!(!r.passed);
    assert_eq!(r.detail, "打开 Terminal Server 键失败");
    assert!(check_start_rcm(RegDword::Value(1)).passed);
    assert_eq!(r.item, CheckItem::StartRcm);
}

#[test]
fn wrapper_checks() {
    let hooked = RegText::Value("C:\\Program Files\\RDP Wrapper\\RDPWRAP.dll".to_string());
    let r = check_rdp_wrapper(&hooked);
    assert!(!r.passed);
    assert_eq!(r.detail, "ServiceDll=C:\\Program Files\\RDP Wrapper\\RDPWRAP.dll");
    let plain = RegText::Value("%SystemRoot%\\System32\\termsrv.dll".to_string());
    assert!(check_rdp_wrapper_hook(&plain).passed);
    let r = check_rdp_wrapper_hook(&RegText::ValueUnavailable);
    assert!(r.passed);
    assert_eq!(r.detail, "读取 ServiceDll 失败 视为无 Hook");
    assert_eq!(check_rdp_wrapper(&RegText::KeyUnavailable).detail, "打开 TermService 键失败 视为无 Wrapper");
    assert!(is_rdp_wrapper_installed(&RegText::Value("x\\TermWrap.DLL".to_string())));
    assert!(!is_rdp_wrapper_installed(&RegText::ValueUnavailable));
    assert!(plan_hook_fix(true, Some("C:\\rdpwrap.dll")).is_none());
    assert!(matches!(plan_hook_fix(false, Some("C:\\RDPWrap.dll")), Some(HookFixOutcome::Kept)));
    assert!(matches!(plan_hook_fix(true, Some("C:\\termsrv.dll")), Some(HookFixOutcome::NotHooked)));
    assert!(matches!(plan_hook_fix(false, None), Some(HookFixOutcome::ReadFailed)));
}

#[test]
fn service_and_firewall_checks() {
    let r = check_term_service_running(ServiceProbe::State(4));
    assert!(r.passed);
    assert_eq!(r.detail, "状态=SERVICE_STATUS_CURRENT_STATE(4)");
    assert!(!check_term_service_running(ServiceProbe::State(1)).passed);
    assert_eq!(check_term_service_running(ServiceProbe::QueryFailed).detail, "查询服务状态失败");
    let ok = Some(FirewallProbe {
        block_rule_output: "Rule Name: AkiSpace RDP Loopback".to_string(),
        default_rule_output: "Rule Name: Remote Desktop - User Mode (TCP-In)\nEnabled: No".to_string(),
    });
    let r = check_firewall_loopback_rule(&ok);
    assert!(r.passed);
    assert_eq!(r.detail, "Block 规则存在且默认公网规则已关闭");
    let open = Some(FirewallProbe {
        block_rule_output: "Rule Name: AkiSpace RDP Loopback".to_string(),
        default_rule_output: "Rule Name: Remote Desktop - User Mode (TCP-In)\nEnabled: Yes".to_string(),
    });
    assert_eq!(check_firewall_loopback_rule(&open).detail, "默认公网入站规则仍启用");
    let missing = Some(FirewallProbe {
        block_rule_output: "No rules match".to_string(),
        default_rule_output: String::new(),
    });
    assert_eq!(check_firewall_loopback_rule(&missing).detail, "Block 规则不存在");
    let r = check_firewall_loopback_rule(&None);
    assert!(!r.passed);
    assert!(r.detail.contains("规则"));
    assert_eq!(r.detail, "执行 netsh 失败，无法查询防火墙规则");
}

#[test]
fn remaining_checks_and_port() {
    assert!(check_child_sessions(Some(true)).passed);
    assert!(!check_child_sessions(None).passed);
    assert!(check_rdp_listener(3389, true).passed);
    assert!(!check_rdp_listener(3389, false).passed);
    assert!(check_termsrv_version(&Ok("10.0.19041".to_string())).passed);
    assert!(!check_termsrv_version(&Err("gone".to_string())).passed);
    assert_eq!(get_configured_rdp_port(RegDword::Value(3390)), 3390);
    assert_eq!(get_configured_rdp_port(RegDword::KeyUnavailable), 3389);
    assert!(service_wait_continues(9999));
    assert!(!service_wait_continues(10000));
}

fn probe() -> EnvProbe {
    EnvProbe {
        deny_ts_connections: RegDword::Value(0),
        single_session_per_user: RegDword::Value(0),
        service_dll: RegText::Value("%SystemRoot%\\System32\\termsrv.dll".to_string()),
        start_rcm: RegDword::Value(1),
        term_service: ServiceProbe::State(4),
        firewall: Some(FirewallProbe {
            block_rule_output: "AkiSpace RDP Loopback".to_string(),
            default_rule_output: String::new(),
        }),
        child_sessions: Some(true),
        listener_port: 3389,
        listener_active: true,
        termsrv_version: Ok("10.0.19041".to_string()),
    }
}

#[test]
fn all_checks_in_order() {
    let results = run_all_checks(&probe());
    assert_eq!(results.len(), CHECK_ITEM_COUNT);
    assert_eq!(results[0].item, CheckItem::RdpEnabled);
    assert_eq!(results[9].item, CheckItem::RdpWrapperHook);
    assert!(results.iter().all(|r| r.passed));
}

#[test]
fn fix_results() {
    let r = fix_disable_rdp_wrapper_hook(&HookFixOutcome::RewriteFailed(5));
    assert!(!r.success);
    assert_eq!(r.detail, "写入 ServiceDll 失败: WIN32_ERROR(5)");
    assert!(fix_disable_rdp_wrapper_hook(&HookFixOutcome::Rewritten).success);
    let kept = fix_disable_rdp_wrapper_hook(&HookFixOutcome::Kept);
    assert!(kept.success);
    assert_eq!(kept.detail, "保留 RDP Wrapper hook (标准 RDP 模式，未请求禁用)");
    let r = fix_set_security_layer(&SecurityLayerWrite::Written {
        security_layer: true,
        min_encryption: false,
        user_authentication: true,
    });
    assert!(!r.success);
    assert_eq!(r.detail, "部分写入失败");
    let r = fix_ensure_firewall_loopback_rule(&FirewallFixOutcome::Added {
        add_output: "Ok.".to_string(),
        add_exit_ok: false,
        verify_output: None,
    });
    assert!(!r.success);
    assert_eq!(r.detail, "添加成功但复核未通过");
    let r = fix_ensure_firewall_loopback_rule(&FirewallFixOutcome::Added {
        add_output: String::new(),
        add_exit_ok: true,
        verify_output: Some("Rule Name: AkiSpace RDP Loopback".to_string()),
    });
    assert!(r.success);
    let r = fix_restart_term_service(RestartOutcome::StopTimedOut);
    assert_eq!(r.detail, "等待服务停止超时 (10000ms)");
    assert_eq!(r.step, FixStep::RestartTermService);
    assert_eq!(fix_enable_child_sessions(false).detail, "启用失败");
}

#[test]
fn all_fixes_in_order() {
    let o = FixOutcomes {
        hook: HookFixOutcome::NotHooked,
        deny_ts_connections: RegWrite::Written,
        single_session_per_user: RegWrite::WriteFailed("denied".to_string()),
        start_rcm: RegWrite::OpenFailed("no key".to_string()),
        security_layer: SecurityLayerWrite::Written {
            security_layer: true,
            min_encryption: true,
            user_authentication: true,
        },
        firewall: FirewallFixOutcome::NetshFailed("missing".to_string()),
        restart: RestartOutcome::Running,
        child_sessions_enabled: true,
    };
    let results = run_all_fixes(&o);
    assert_eq!(results.len(), FIX_STEP_COUNT);
    assert_eq!(results[1].detail, "fDenyTSConnections=0");
    assert_eq!(results[2].detail, "写入失败: denied");
    assert_eq!(results[3].detail, "打开键失败: no key");
    assert_eq!(results[5].detail, "执行 netsh 失败: missing");
    assert_eq!(results[8].step, FixStep::RecheckAll);
    assert_eq!(count_failures(&results), 3);
}

/// A simulated TermService: whether each call succeeds, and after how many
/// status queries it reports STOPPED and then RUNNING.
struct FakeService {
    manager_ok: bool,
    service_ok: bool,
    stop_ok: bool,
    stopped_after: u32,
    start_ok: bool,
    running_after: u32,
}

/// Runs a restart against `svc`: the outcome, the status queries made, the
/// total pause in ms, and which handles were closed.
fn drive_restart(svc: &FakeService) -> (RestartOutcome, u32, u64, bool, bool) {
    let (mut state, mut action) = restart_begin();
    let mut queries = 0u32;
    let mut slept = 0u64;
    let mut started = false;
    let mut polls_in_wait = 0u32;
    loop {
        let event = match action {
            RestartAction::OpenManager => ServiceEvent::Called(svc.manager_ok),
            RestartAction::OpenService => ServiceEvent::Called(svc.service_ok),
            RestartAction::SendStop => ServiceEvent::Called(svc.stop_ok),
            RestartAction::QueryStatus => {
                queries += 1;
                polls_in_wait += 1;
                let after = if started { svc.running_after } else { svc.stopped_after };
                if polls_in_wait >= after {
                    ServiceEvent::Status(Some(if started { SERVICE_RUNNING } else { SERVICE_STOPPED }))
                } else {
                    ServiceEvent::Status(Some(3))
                }
            }
            RestartAction::Sleep(ms) => {
                slept += ms;
                ServiceEvent::Slept
            }
            RestartAction::SendStart => {
                started = true;
                polls_in_wait = 0;
                ServiceEvent::Called(svc.start_ok)
            }
            RestartAction::Finish { outcome, close_service, close_manager } => {
                return (outcome, queries, slept, close_service, close_manager);
            }
        };
        let (s, a) = restart_step(state, event);
        state = s;
        action = a;
    }
}

fn healthy() -> FakeService {
    FakeService {
        manager_ok: true,
        service_ok: true,
        stop_ok: true,
        stopped_after: 3,
        start_ok: true,
        running_after: 2,
    }
}

#[test]
fn restart_succeeds_after_stop_and_start() {
    assert_eq!(drive_restart(&healthy()), (RestartOutcome::Running, 5, 600, true, true));
}

#[test]
fn restart_failures_close_what_was_opened() {
    let svc = FakeService { manager_ok: false, ..healthy() };
    assert_eq!(drive_restart(&svc), (RestartOutcome::ManagerUnavailable, 0, 0, false, false));
    let svc = FakeService { service_ok: false, ..healthy() };
    assert_eq!(drive_restart(&svc), (RestartOutcome::ServiceUnavailable, 0, 0, false, true));
    let svc = FakeService { stop_ok: false, ..healthy() };
    assert_eq!(drive_restart(&svc), (RestartOutcome::StopCommandFailed, 0, 0, true, true));
    let svc = FakeService { start_ok: false, ..healthy() };
    assert_eq!(drive_restart(&svc), (RestartOutcome::StartFailed, 3, 400, true, true));
}

#[test]
fn restart_waits_fifty_polls_each_way() {
    let svc = FakeService { stopped_after: 50, ..healthy() };
    assert_eq!(drive_restart(&svc).0, RestartOutcome::Running);
    let svc = FakeService { stopped_after: 51, ..healthy() };
    assert_eq!(drive_restart(&svc), (RestartOutcome::StopTimedOut, 50, 10000, true, true));
    let svc = FakeService { running_after: 51, ..healthy() };
    assert_eq!(drive_restart(&svc), (RestartOutcome::StartTimedOut, 53, 10400, true, true));
    assert_eq!(restart_step(RestartState::Starting, ServiceEvent::Slept).0, RestartState::Starting);
}
