//! The environment check (10 items) and the fix sequence (9 steps): from the
//! raw registry, service, firewall and session probes to the reported results.
use vstd::prelude::*;
use crate::session::{is_wrapper_service_dll, spec_names_wrapper_dll, spec_to_lowercase};
use crate::text::{
    append_bool, append_decimal, bool_chars, contains, dec_chars, owned, seq_contains,
};

verus! {

pub const TERMSERVER_REG_PATH: &'static str = "SYSTEM\\CurrentControlSet\\Control\\Terminal Server";
pub const RDP_REG_PATH: &'static str = "SYSTEM\\CurrentControlSet\\Control\\Terminal Server\\WinStations\\RDP-Tcp";
pub const TERMSERVICE_REG_PATH: &'static str = "SYSTEM\\CurrentControlSet\\Services\\TermService\\Parameters";
pub const TERMSRV_DLL: &'static str = "C:\\Windows\\System32\\termsrv.dll";
pub const FIREWALL_RULE_NAME: &'static str = "AkiSpace RDP Loopback";
pub const DEFAULT_RDP_RULE_NAME: &'static str = "Remote Desktop - User Mode (TCP-In)";
pub const DENY_TS_CONNECTIONS: &'static str = "fDenyTSConnections";
pub const SINGLE_SESSION_PER_USER: &'static str = "fSingleSessionPerUser";
pub const START_RCM: &'static str = "StartRCM";
pub const SECURITY_LAYER: &'static str = "SecurityLayer";
pub const MIN_ENCRYPTION_LEVEL: &'static str = "MinEncryptionLevel";
pub const USER_AUTHENTICATION: &'static str = "UserAuthentication";
pub const SERVICE_DLL_VALUE: &'static str = "ServiceDll";
pub const TERMSERVICE_NAME: &'static str = "TermService";
/// `ServiceDll` written back when an RDP Wrapper hook is removed.
pub const TERMSRV_EXPANDED: &'static str = "%SystemRoot%\\System32\\termsrv.dll";
/// Service state code of a running service.
pub const SERVICE_RUNNING: u32 = 4;
/// Service state code of a stopped service.
pub const SERVICE_STOPPED: u32 = 1;
/// How long the restart waits for each of the stop and the start.
pub const SERVICE_WAIT_TIMEOUT_MS: u64 = 10000;
/// Poll period while waiting for the service.
pub const SERVICE_POLL_INTERVAL_MS: u64 = 200;
/// Number of check items.
pub const CHECK_ITEM_COUNT: usize = 10;
/// Number of fix steps, the final re-check included.
pub const FIX_STEP_COUNT: usize = 9;

#[derive(Debug, Clone, Copy, PartialEq, Eq, Structural)]
pub enum CheckItem {
    RdpEnabled,
    MultiSession,
    RdpWrapper,
    StartRcm,
    TermServiceRunning,
    FirewallLoopbackRule,
    ChildSessions,
    RdpListener,
    TermsrvVersion,
    RdpWrapperHook,
}

#[derive(Debug, Clone, Copy, PartialEq, Eq, Structural)]
pub enum FixStep {
    DisableRdpWrapperHook,
    SetDenyTSConnections,
    SetSingleSessionPerUser,
    SetStartRcm,
    SetSecurityLayer,
    EnsureFirewallLoopbackRule,
    RestartTermService,
    EnableChildSessions,
    RecheckAll,
}

#[derive(Debug, Clone)]
pub struct CheckResult {
    pub item: CheckItem,
    pub passed: bool,
    pub detail: String,
}

#[derive(Debug, Clone)]
pub struct FixResult {
    pub step: FixStep,
    pub success: bool,
    pub detail: String,
}

/// A DWORD registry read.
#[derive(Debug, Clone, Copy, PartialEq, Eq, Structural)]
pub enum RegDword {
    KeyUnavailable,
    ValueUnavailable,
    Value(u32),
}

/// A string registry read.
#[derive(Debug, Clone)]
pub enum RegText {
    KeyUnavailable,
    ValueUnavailable,
    Value(String),
}

/// A service status query.
#[derive(Debug, Clone, Copy, PartialEq, Eq, Structural)]
pub enum ServiceProbe {
    ManagerUnavailable,
    ServiceUnavailable,
    QueryFailed,
    State(u32),
}

/// The combined stdout+stderr of the two `netsh … show rule` calls.
#[derive(Debug, Clone)]
pub struct FirewallProbe {
    pub block_rule_output: String,
    pub default_rule_output: String,
}

/// Everything the environment check reads from the machine.
#[derive(Debug)]
pub struct EnvProbe {
    pub deny_ts_connections: RegDword,
    pub single_session_per_user: RegDword,
    pub service_dll: RegText,
    pub start_rcm: RegDword,
    pub term_service: ServiceProbe,
    /// `None` when `netsh` could not be run.
    pub firewall: Option<FirewallProbe>,
    /// `None` when the child-session query failed.
    pub child_sessions: Option<bool>,
    pub listener_port: u16,
    pub listener_active: bool,
    /// The termsrv.dll version, or the message of the error that prevented reading it.
    pub termsrv_version: Result<String, String>,
}

pub open spec fn check_view(r: CheckResult) -> (CheckItem, bool, Seq<char>) {
    (r.item, r.passed, r.detail@)
}

pub open spec fn fix_view(r: FixResult) -> (FixStep, bool, Seq<char>) {
    (r.step, r.success, r.detail@)
}

fn check(item: CheckItem, passed: bool, detail: String) -> (r: CheckResult)
    ensures
        check_view(r) == (item, passed, detail@),
{
    CheckResult { item, passed, detail }
}

fn fix(step: FixStep, success: bool, detail: String) -> (r: FixResult)
    ensures
        fix_view(r) == (step, success, detail@),
{
    FixResult { step, success, detail }
}

/// `label` followed by the decimal value.
fn labelled_number(label: &str, v: u64) -> (s: String)
    ensures
        s@ == label@ + dec_chars(v as nat),
{
    let mut s = owned(label);
    append_decimal(&mut s, v);
    s
}

/// `label` followed by `text`.
fn labelled_text(label: &str, text: &str) -> (s: String)
    ensures
        s@ == label@ + text@,
{
    let mut s = owned(label);
    s.append(text);
    s
}

/// A DWORD check: passes when the value equals `want`.
pub open spec fn spec_dword_check(
    probe: RegDword,
    want: u32,
    label: Seq<char>,
    read_failed: Seq<char>,
) -> (bool, Seq<char>) {
    match probe {
        RegDword::Value(v) => (v == want, label + "="@ + dec_chars(v as nat)),
        RegDword::ValueUnavailable => (false, read_failed),
        RegDword::KeyUnavailable => (false, "打开 Terminal Server 键失败"@),
    }
}

fn dword_check(item: CheckItem, probe: RegDword, want: u32, label_eq: &str, read_failed: &str) -> (r:
    CheckResult)
    ensures
        r.item == item,
        (r.passed, r.detail@) == match probe {
            RegDword::Value(v) => (v == want, label_eq@ + dec_chars(v as nat)),
            RegDword::ValueUnavailable => (false, read_failed@),
            RegDword::KeyUnavailable => (false, "打开 Terminal Server 键失败"@),
        },
{
    match probe {
        RegDword::Value(v) => check(item, v == want, labelled_number(label_eq, v as u64)),
        RegDword::ValueUnavailable => check(item, false, owned(read_failed)),
        RegDword::KeyUnavailable => check(item, false, owned("打开 Terminal Server 键失败")),
    }
}

/// A registry DWORD check passes exactly when the value read equals the
/// wanted one; no other value, and no failed read, passes.
pub proof fn lemma_dword_check_passes_only_at_wanted(
    probe: RegDword,
    want: u32,
    label: Seq<char>,
    read_failed: Seq<char>,
)
    ensures
        spec_dword_check(probe, want, label, read_failed).0 <==> probe == RegDword::Value(want),
        forall|v: u32|
            v != want ==> !(#[trigger] spec_dword_check(RegDword::Value(v), want, label, read_failed)).0,
{
}

/// The three DWORD checks: RDP is enabled only at `fDenyTSConnections` 0,
/// multiple sessions only at `fSingleSessionPerUser` 0, and the Remote
/// Connection Manager only at `StartRCM` 1 (so `StartRCM` 0 fails).
pub proof fn lemma_dword_items_wanted_values(v: u32)
    ensures
        spec_dword_check(RegDword::Value(v), 0, "fDenyTSConnections"@, "读取 fDenyTSConnections 失败"@).0
            <==> v == 0,
        spec_dword_check(RegDword::Value(v), 0, "fSingleSessionPerUser"@, "读取 fSingleSessionPerUser 失败"@).0
            <==> v == 0,
        spec_dword_check(RegDword::Value(v), 1, "StartRCM"@, "读取 StartRCM 失败"@).0 <==> v == 1,
{
}

/// RDP enabled: `fDenyTSConnections` is 0.
pub fn check_rdp_enabled(probe: RegDword) -> (r: CheckResult)
    ensures
        r.item == CheckItem::RdpEnabled,
        (r.passed, r.detail@) == spec_dword_check(probe, 0, "fDenyTSConnections"@, "读取 fDenyTSConnections 失败"@),
        probe matches RegDword::Value(v) ==> r.passed == (v == 0),
        !(probe is Value) ==> !r.passed,
{
    proof { reveal_strlit("fDenyTSConnections="); reveal_strlit("fDenyTSConnections"); reveal_strlit("="); }
    assert("fDenyTSConnections="@ =~= "fDenyTSConnections"@ + "="@);
    dword_check(CheckItem::RdpEnabled, probe, 0, "fDenyTSConnections=", "读取 fDenyTSConnections 失败")
}

/// Multiple sessions per user: `fSingleSessionPerUser` is 0.
pub fn check_multi_session(probe: RegDword) -> (r: CheckResult)
    ensures
        r.item == CheckItem::MultiSession,
        (r.passed, r.detail@) == spec_dword_check(probe, 0, "fSingleSessionPerUser"@, "读取 fSingleSessionPerUser 失败"@),
        probe matches RegDword::Value(v) ==> r.passed == (v == 0),
        !(probe is Value) ==> !r.passed,
{
    proof { reveal_strlit("fSingleSessionPerUser="); reveal_strlit("fSingleSessionPerUser"); reveal_strlit("="); }
    assert("fSingleSessionPerUser="@ =~= "fSingleSessionPerUser"@ + "="@);
    dword_check(CheckItem::MultiSession, probe, 0, "fSingleSessionPerUser=", "读取 fSingleSessionPerUser 失败")
}

/// Remote Connection Manager started: `StartRCM` is 1.
pub fn check_start_rcm(probe: RegDword) -> (r: CheckResult)
    ensures
        r.item == CheckItem::StartRcm,
        (r.passed, r.detail@) == spec_dword_check(probe, 1, "StartRCM"@, "读取 StartRCM 失败"@),
        probe matches RegDword::Value(v) ==> r.passed == (v == 1),
        !(probe is Value) ==> !r.passed,
{
    proof { reveal_strlit("StartRCM="); reveal_strlit("StartRCM"); reveal_strlit("="); }
    assert("StartRCM="@ =~= "StartRCM"@ + "="@);
    dword_check(CheckItem::StartRcm, probe, 1, "StartRCM=", "读取 StartRCM 失败")
}

pub enum RegTextView {
    KeyUnavailable,
    ValueUnavailable,
    Value(Seq<char>),
}

impl View for RegText {
    type V = RegTextView;

    open spec fn view(&self) -> RegTextView {
        match self {
            RegText::KeyUnavailable => RegTextView::KeyUnavailable,
            RegText::ValueUnavailable => RegTextView::ValueUnavailable,
            RegText::Value(s) => RegTextView::Value(s@),
        }
    }
}

/// No RDP Wrapper DLL behind TermService; an unreadable value counts as none.
/// `suffix` names what is absent (`Wrapper` or `Hook`).
pub open spec fn spec_wrapper_check(probe: RegTextView, suffix: Seq<char>) -> (bool, Seq<char>) {
    match probe {
        RegTextView::Value(s) => (!spec_names_wrapper_dll(spec_to_lowercase(s)), "ServiceDll="@ + s),
        RegTextView::ValueUnavailable => (true, "读取 ServiceDll 失败 视为无 "@ + suffix),
        RegTextView::KeyUnavailable => (true, "打开 TermService 键失败 视为无 "@ + suffix),
    }
}

fn wrapper_check(item: CheckItem, probe: &RegText, suffix: &str) -> (r: CheckResult)
    ensures
        r.item == item,
        (r.passed, r.detail@) == spec_wrapper_check(probe@, suffix@),
{
    match probe {
        RegText::Value(s) => check(item, !is_wrapper_service_dll(s.as_str()), labelled_text("ServiceDll=", s.as_str())),
        RegText::ValueUnavailable => check(item, true, labelled_text("读取 ServiceDll 失败 视为无 ", suffix)),
        RegText::KeyUnavailable => check(item, true, labelled_text("打开 TermService 键失败 视为无 ", suffix)),
    }
}

/// No RDP Wrapper installed.
pub fn check_rdp_wrapper(probe: &RegText) -> (r: CheckResult)
    ensures
        r.item == CheckItem::RdpWrapper,
        (r.passed, r.detail@) == spec_wrapper_check(probe@, "Wrapper"@),
{
    wrapper_check(CheckItem::RdpWrapper, probe, "Wrapper")
}

/// No RDP Wrapper hook on TermService.
pub fn check_rdp_wrapper_hook(probe: &RegText) -> (r: CheckResult)
    ensures
        r.item == CheckItem::RdpWrapperHook,
        (r.passed, r.detail@) == spec_wrapper_check(probe@, "Hook"@),
{
    wrapper_check(CheckItem::RdpWrapperHook, probe, "Hook")
}

pub open spec fn spec_term_service_check(probe: ServiceProbe) -> (bool, Seq<char>) {
    match probe {
        ServiceProbe::ManagerUnavailable => (false, "打开服务管理器失败"@),
        ServiceProbe::ServiceUnavailable => (false, "打开 TermService 失败"@),
        ServiceProbe::QueryFailed => (false, "查询服务状态失败"@),
        ServiceProbe::State(s) => (
            s == SERVICE_RUNNING,
            "状态=SERVICE_STATUS_CURRENT_STATE("@ + dec_chars(s as nat) + ")"@,
        ),
    }
}

/// TermService is running.
pub fn check_term_service_running(probe: ServiceProbe) -> (r: CheckResult)
    ensures
        r.item == CheckItem::TermServiceRunning,
        (r.passed, r.detail@) == spec_term_service_check(probe),
{
    let item = CheckItem::TermServiceRunning;
    match probe {
        ServiceProbe::ManagerUnavailable => check(item, false, owned("打开服务管理器失败")),
        ServiceProbe::ServiceUnavailable => check(item, false, owned("打开 TermService 失败")),
        ServiceProbe::QueryFailed => check(item, false, owned("查询服务状态失败")),
        ServiceProbe::State(s) => {
            let mut d = labelled_number("状态=SERVICE_STATUS_CURRENT_STATE(", s as u64);
            d.append(")");
            check(item, s == SERVICE_RUNNING, d)
        },
    }
}

pub open spec fn spec_firewall_check(block: Seq<char>, default_rule: Seq<char>) -> (bool, Seq<char>) {
    let block_found = seq_contains(block, FIREWALL_RULE_NAME@);
    let public_open = seq_contains(default_rule, DEFAULT_RDP_RULE_NAME@) && seq_contains(
        default_rule,
        "Enabled: Yes"@,
    );
    let passed = block_found && !public_open;
    (
        passed,
        if passed {
            "Block 规则存在且默认公网规则已关闭"@
        } else if !block_found {
            "Block 规则不存在"@
        } else {
            "默认公网入站规则仍启用"@
        },
    )
}

/// The loopback block rule exists and the default public RDP rule is off.
pub fn check_firewall_loopback_rule(probe: &Option<FirewallProbe>) -> (r: CheckResult)
    ensures
        r.item == CheckItem::FirewallLoopbackRule,
        (r.passed, r.detail@) == match probe {
            None => (false, "执行 netsh 失败，无法查询防火墙规则"@),
            Some(p) => spec_firewall_check(p.block_rule_output@, p.default_rule_output@),
        },
{
    let item = CheckItem::FirewallLoopbackRule;
    match probe {
        None => check(item, false, owned("执行 netsh 失败，无法查询防火墙规则")),
        Some(p) => {
            let block_found = contains(p.block_rule_output.as_str(), FIREWALL_RULE_NAME);
            let public_open = contains(p.default_rule_output.as_str(), DEFAULT_RDP_RULE_NAME)
                && contains(p.default_rule_output.as_str(), "Enabled: Yes");
            let passed = block_found && !public_open;
            let detail = if passed {
                owned("Block 规则存在且默认公网规则已关闭")
            } else if !block_found {
                owned("Block 规则不存在")
            } else {
                owned("默认公网入站规则仍启用")
            };
            check(item, passed, detail)
        },
    }
}

/// Child sessions are enabled.
pub fn check_child_sessions(probe: Option<bool>) -> (r: CheckResult)
    ensures
        r.item == CheckItem::ChildSessions,
        (r.passed, r.detail@) == match probe {
            None => (false, "查询子会话状态失败"@),
            Some(b) => (b, "启用="@ + bool_chars(b)),
        },
{
    match probe {
        None => check(CheckItem::ChildSessions, false, owned("查询子会话状态失败")),
        Some(b) => {
            let mut d = owned("启用=");
            append_bool(&mut d, b);
            check(CheckItem::ChildSessions, b, d)
        },
    }
}

/// Something listens on the configured RDP port on loopback.
pub fn check_rdp_listener(port: u16, active: bool) -> (r: CheckResult)
    ensures
        r.item == CheckItem::RdpListener,
        r.passed == active,
        r.detail@ == "端口="@ + dec_chars(port as nat),
{
    check(CheckItem::RdpListener, active, labelled_number("端口=", port as u64))
}

/// termsrv.dll has a readable, non-empty version.
pub fn check_termsrv_version(probe: &Result<String, String>) -> (r: CheckResult)
    ensures
        r.item == CheckItem::TermsrvVersion,
        (r.passed, r.detail@) == match probe {
            Ok(v) => (v@.len() != 0, "版本="@ + v@),
            Err(e) => (false, "获取版本失败: "@ + e@),
        },
{
    match probe {
        Ok(v) => check(CheckItem::TermsrvVersion, !v.as_str().is_empty(), labelled_text("版本=", v.as_str())),
        Err(e) => check(CheckItem::TermsrvVersion, false, labelled_text("获取版本失败: ", e.as_str())),
    }
}

/// The ten check results, in their fixed order.
pub open spec fn spec_check_items() -> Seq<CheckItem> {
    seq![
        CheckItem::RdpEnabled,
        CheckItem::MultiSession,
        CheckItem::RdpWrapper,
        CheckItem::StartRcm,
        CheckItem::TermServiceRunning,
        CheckItem::FirewallLoopbackRule,
        CheckItem::ChildSessions,
        CheckItem::RdpListener,
        CheckItem::TermsrvVersion,
        CheckItem::RdpWrapperHook,
    ]
}

/// Runs all ten checks over the probed facts, in the fixed order.
pub fn run_all_checks(probe: &EnvProbe) -> (results: Vec<CheckResult>)
    ensures
        results@.len() == CHECK_ITEM_COUNT,
        forall|k: int| 0 <= k < 10 ==> (#[trigger] results@[k]).item == spec_check_items()[k],
        (results@[0].passed, results@[0].detail@) == spec_dword_check(probe.deny_ts_connections, 0, "fDenyTSConnections"@, "读取 fDenyTSConnections 失败"@),
        (results@[1].passed, results@[1].detail@) == spec_dword_check(probe.single_session_per_user, 0, "fSingleSessionPerUser"@, "读取 fSingleSessionPerUser 失败"@),
        (results@[2].passed, results@[2].detail@) == spec_wrapper_check(probe.service_dll@, "Wrapper"@),
        (results@[3].passed, results@[3].detail@) == spec_dword_check(probe.start_rcm, 1, "StartRCM"@, "读取 StartRCM 失败"@),
        (results@[4].passed, results@[4].detail@) == spec_term_service_check(probe.term_service),
        (results@[5].passed, results@[5].detail@) == match probe.firewall {
            None => (false, "执行 netsh 失败，无法查询防火墙规则"@),
            Some(p) => spec_firewall_check(p.block_rule_output@, p.default_rule_output@),
        },
        (results@[6].passed, results@[6].detail@) == match probe.child_sessions {
            None => (false, "查询子会话状态失败"@),
            Some(b) => (b, "启用="@ + bool_chars(b)),
        },
        results@[7].passed == probe.listener_active,
        results@[7].detail@ == "端口="@ + dec_chars(probe.listener_port as nat),
        (results@[8].passed, results@[8].detail@) == match probe.termsrv_version {
            Ok(v) => (v@.len() != 0, "版本="@ + v@),
            Err(e) => (false, "获取版本失败: "@ + e@),
        },
        (results@[9].passed, results@[9].detail@) == spec_wrapper_check(probe.service_dll@, "Hook"@),
{
    let mut results: Vec<CheckResult> = Vec::new();
    results.push(check_rdp_enabled(probe.deny_ts_connections));
    results.push(check_multi_session(probe.single_session_per_user));
    results.push(check_rdp_wrapper(&probe.service_dll));
    results.push(check_start_rcm(probe.start_rcm));
    results.push(check_term_service_running(probe.term_service));
    results.push(check_firewall_loopback_rule(&probe.firewall));
    results.push(check_child_sessions(probe.child_sessions));
    results.push(check_rdp_listener(probe.listener_port, probe.listener_active));
    results.push(check_termsrv_version(&probe.termsrv_version));
    results.push(check_rdp_wrapper_hook(&probe.service_dll));
    results
}

// ---------------------------------------------------------------------------
// Fixes
// ---------------------------------------------------------------------------

/// The RDP port as the fix sequence reads it: the `PortNumber` DWORD cut to
/// 16 bits, or 3389 when it cannot be read.
pub fn get_configured_rdp_port(probe: RegDword) -> (port: u16)
    ensures
        port == match probe {
            RegDword::Value(v) => v as u16,
            _ => 3389u16,
        },
{
    match probe {
        RegDword::Value(v) => v as u16,
        _ => 3389,
    }
}

/// Whether TermService is hooked by RDP Wrapper; an unreadable value counts as not hooked.
pub fn is_rdp_wrapper_installed(probe: &RegText) -> (r: bool)
    ensures
        r == match probe@ {
            RegTextView::Value(s) => spec_names_wrapper_dll(spec_to_lowercase(s)),
            _ => false,
        },
{
    match probe {
        RegText::Value(s) => is_wrapper_service_dll(s.as_str()),
        _ => false,
    }
}

/// The hook step's decision once `ServiceDll` was read (`None`: it could
/// not be read). `None` means rewrite `ServiceDll` to termsrv.dll, which
/// happens only when it names a wrapper DLL and disabling the hook was asked
/// for; otherwise the step ends with the returned outcome and `ServiceDll`
/// is left as it is.
pub fn plan_hook_fix(disable_requested: bool, service_dll: Option<&str>) -> (plan: Option<
    HookFixOutcome,
>)
    ensures
        !disable_requested ==> plan is Some,
        service_dll is None ==> plan == Some(HookFixOutcome::ReadFailed),
        service_dll matches Some(d) ==> plan == if !spec_names_wrapper_dll(
            spec_to_lowercase(d@),
        ) {
            Some(HookFixOutcome::NotHooked)
        } else if disable_requested {
            None
        } else {
            Some(HookFixOutcome::Kept)
        },
{
    match service_dll {
        None => Some(HookFixOutcome::ReadFailed),
        Some(d) => {
            if !is_wrapper_service_dll(d) {
                Some(HookFixOutcome::NotHooked)
            } else if disable_requested {
                None
            } else {
                Some(HookFixOutcome::Kept)
            }
        },
    }
}

/// What removing the RDP Wrapper hook did.
#[derive(Debug, Clone)]
pub enum HookFixOutcome {
    /// The TermService key could not be opened for writing (error message).
    OpenFailed(String),
    /// `ServiceDll` could not be read: treated as not hooked.
    ReadFailed,
    /// `ServiceDll` points at termsrv.dll already.
    NotHooked,
    /// `ServiceDll` names a wrapper DLL and disabling the hook was not
    /// asked for (standard RDP mode keeps the unlocking layer): left unchanged.
    Kept,
    /// `ServiceDll` was rewritten to termsrv.dll.
    Rewritten,
    /// Rewriting `ServiceDll` failed with this status code.
    RewriteFailed(u32),
}

/// A registry DWORD write.
#[derive(Debug, Clone)]
pub enum RegWrite {
    OpenFailed(String),
    WriteFailed(String),
    Written,
}

/// The three writes of the security-layer fix.
#[derive(Debug, Clone)]
pub enum SecurityLayerWrite {
    OpenFailed(String),
    Written { security_layer: bool, min_encryption: bool, user_authentication: bool },
}

/// Adding and re-reading the loopback block rule.
#[derive(Debug, Clone)]
pub enum FirewallFixOutcome {
    /// `netsh … add rule` could not be run (error message).
    NetshFailed(String),
    /// `netsh … add rule` ran: its combined output, whether it exited with
    /// success, and the output of the verifying `show rule` (`None` when it
    /// could not be run).
    Added { add_output: String, add_exit_ok: bool, verify_output: Option<String> },
}

/// Stopping and restarting TermService.
#[derive(Debug, Clone, Copy, PartialEq, Eq, Structural)]
pub enum RestartOutcome {
    ManagerUnavailable,
    ServiceUnavailable,
    StopCommandFailed,
    StopTimedOut,
    StartFailed,
    StartTimedOut,
    Running,
}

/// Everything the fix sequence did to the machine, step by step.
#[derive(Debug)]
pub struct FixOutcomes {
    pub hook: HookFixOutcome,
    pub deny_ts_connections: RegWrite,
    pub single_session_per_user: RegWrite,
    pub start_rcm: RegWrite,
    pub security_layer: SecurityLayerWrite,
    pub firewall: FirewallFixOutcome,
    pub restart: RestartOutcome,
    pub child_sessions_enabled: bool,
}

pub open spec fn spec_hook_fix(o: HookFixOutcome) -> (bool, Seq<char>) {
    match o {
        HookFixOutcome::OpenFailed(e) => (false, "打开键失败: "@ + e@),
        HookFixOutcome::ReadFailed => (true, "读取 ServiceDll 失败，视为无 Hook"@),
        HookFixOutcome::NotHooked => (true, "保留 RDP Wrapper hook (未检测到 TermWrap)"@),
        HookFixOutcome::Kept => (true, "保留 RDP Wrapper hook (标准 RDP 模式，未请求禁用)"@),
        HookFixOutcome::Rewritten => (true, "已恢复 ServiceDll 为 termsrv.dll"@),
        HookFixOutcome::RewriteFailed(status) => (
            false,
            "写入 ServiceDll 失败: WIN32_ERROR("@ + dec_chars(status as nat) + ")"@,
        ),
    }
}

/// The result of the hook-removal step.
pub fn fix_disable_rdp_wrapper_hook(o: &HookFixOutcome) -> (r: FixResult)
    ensures
        r.step == FixStep::DisableRdpWrapperHook,
        (r.success, r.detail@) == spec_hook_fix(*o),
{
    let step = FixStep::DisableRdpWrapperHook;
    match o {
        HookFixOutcome::OpenFailed(e) => fix(step, false, labelled_text("打开键失败: ", e.as_str())),
        HookFixOutcome::ReadFailed => fix(step, true, owned("读取 ServiceDll 失败，视为无 Hook")),
        HookFixOutcome::NotHooked => fix(step, true, owned("保留 RDP Wrapper hook (未检测到 TermWrap)")),
        HookFixOutcome::Kept => fix(step, true, owned("保留 RDP Wrapper hook (标准 RDP 模式，未请求禁用)")),
        HookFixOutcome::Rewritten => fix(step, true, owned("已恢复 ServiceDll 为 termsrv.dll")),
        HookFixOutcome::RewriteFailed(status) => {
            let mut d = labelled_number("写入 ServiceDll 失败: WIN32_ERROR(", *status as u64);
            d.append(")");
            fix(step, false, d)
        },
    }
}

pub open spec fn spec_reg_write_fix(o: RegWrite, done: Seq<char>) -> (bool, Seq<char>) {
    match o {
        RegWrite::Written => (true, done),
        RegWrite::WriteFailed(e) => (false, "写入失败: "@ + e@),
        RegWrite::OpenFailed(e) => (false, "打开键失败: "@ + e@),
    }
}

fn reg_write_fix(step: FixStep, o: &RegWrite, done: &str) -> (r: FixResult)
    ensures
        r.step == step,
        (r.success, r.detail@) == spec_reg_write_fix(*o, done@),
{
    match o {
        RegWrite::Written => fix(step, true, owned(done)),
        RegWrite::WriteFailed(e) => fix(step, false, labelled_text("写入失败: ", e.as_str())),
        RegWrite::OpenFailed(e) => fix(step, false, labelled_text("打开键失败: ", e.as_str())),
    }
}

pub open spec fn spec_security_layer_fix(o: SecurityLayerWrite) -> (bool, Seq<char>) {
    match o {
        SecurityLayerWrite::OpenFailed(e) => (false, "打开键失败: "@ + e@),
        SecurityLayerWrite::Written { security_layer, min_encryption, user_authentication } => {
            if security_layer && min_encryption && user_authentication {
                (true, "SecurityLayer=2 MinEncryptionLevel=3 UserAuthentication=1"@)
            } else {
                (false, "部分写入失败"@)
            }
        },
    }
}

/// The result of the security-layer step: all three values must be written.
pub fn fix_set_security_layer(o: &SecurityLayerWrite) -> (r: FixResult)
    ensures
        r.step == FixStep::SetSecurityLayer,
        (r.success, r.detail@) == spec_security_layer_fix(*o),
{
    let step = FixStep::SetSecurityLayer;
    match o {
        SecurityLayerWrite::OpenFailed(e) => fix(step, false, labelled_text("打开键失败: ", e.as_str())),
        SecurityLayerWrite::Written { security_layer, min_encryption, user_authentication } => {
            if *security_layer && *min_encryption && *user_authentication {
                fix(step, true, owned("SecurityLayer=2 MinEncryptionLevel=3 UserAuthentication=1"))
            } else {
                fix(step, false, owned("部分写入失败"))
            }
        },
    }
}

pub open spec fn spec_firewall_fix(o: FirewallFixOutcome) -> (bool, Seq<char>) {
    match o {
        FirewallFixOutcome::NetshFailed(e) => (false, "执行 netsh 失败: "@ + e@),
        FirewallFixOutcome::Added { add_output, add_exit_ok, verify_output } => {
            let add_success = seq_contains(add_output@, "Ok"@) || seq_contains(add_output@, "成功"@)
                || add_exit_ok;
            let verify_success = match verify_output {
                Some(v) => seq_contains(v@, FIREWALL_RULE_NAME@),
                None => false,
            };
            let success = add_success && verify_success;
            (
                success,
                if success {
                    "Block 规则已添加并复核通过"@
                } else if !add_success {
                    "添加规则失败"@
                } else {
                    "添加成功但复核未通过"@
                },
            )
        },
    }
}

/// The result of the firewall step: the rule was added and shows up when re-read.
pub fn fix_ensure_firewall_loopback_rule(o: &FirewallFixOutcome) -> (r: FixResult)
    ensures
        r.step == FixStep::EnsureFirewallLoopbackRule,
        (r.success, r.detail@) == spec_firewall_fix(*o),
{
    let step = FixStep::EnsureFirewallLoopbackRule;
    match o {
        FirewallFixOutcome::NetshFailed(e) => fix(step, false, labelled_text("执行 netsh 失败: ", e.as_str())),
        FirewallFixOutcome::Added { add_output, add_exit_ok, verify_output } => {
            let add_success = contains(add_output.as_str(), "Ok") || contains(add_output.as_str(), "成功")
                || *add_exit_ok;
            let verify_success = match verify_output {
                Some(v) => contains(v.as_str(), FIREWALL_RULE_NAME),
                None => false,
            };
            let success = add_success && verify_success;
            let detail = if success {
                owned("Block 规则已添加并复核通过")
            } else if !add_success {
                owned("添加规则失败")
            } else {
                owned("添加成功但复核未通过")
            };
            fix(step, success, detail)
        },
    }
}

pub open spec fn spec_restart_fix(o: RestartOutcome) -> (bool, Seq<char>) {
    match o {
        RestartOutcome::ManagerUnavailable => (false, "打开服务管理器失败"@),
        RestartOutcome::ServiceUnavailable => (false, "打开 TermService 失败"@),
        RestartOutcome::StopCommandFailed => (false, "发送停止命令失败"@),
        RestartOutcome::StopTimedOut => (false, "等待服务停止超时 (10000ms)"@),
        RestartOutcome::StartFailed => (false, "启动服务失败"@),
        RestartOutcome::StartTimedOut => (false, "等待服务启动超时 (10000ms)"@),
        RestartOutcome::Running => (true, "服务已重启并确认运行中"@),
    }
}

/// The result of the TermService restart step.
pub fn fix_restart_term_service(o: RestartOutcome) -> (r: FixResult)
    ensures
        r.step == FixStep::RestartTermService,
        (r.success, r.detail@) == spec_restart_fix(o),
{
    let step = FixStep::RestartTermService;
    match o {
        RestartOutcome::ManagerUnavailable => fix(step, false, owned("打开服务管理器失败")),
        RestartOutcome::ServiceUnavailable => fix(step, false, owned("打开 TermService 失败")),
        RestartOutcome::StopCommandFailed => fix(step, false, owned("发送停止命令失败")),
        RestartOutcome::StopTimedOut => fix(step, false, owned("等待服务停止超时 (10000ms)")),
        RestartOutcome::StartFailed => fix(step, false, owned("启动服务失败")),
        RestartOutcome::StartTimedOut => fix(step, false, owned("等待服务启动超时 (10000ms)")),
        RestartOutcome::Running => fix(step, true, owned("服务已重启并确认运行中")),
    }
}

/// Whether a service wait keeps polling after `elapsed_ms`.
pub fn service_wait_continues(elapsed_ms: u64) -> (r: bool)
    ensures
        r == (elapsed_ms < SERVICE_WAIT_TIMEOUT_MS),
{
    elapsed_ms < SERVICE_WAIT_TIMEOUT_MS
}

/// Where a TermService restart stands.
#[derive(Debug, Clone, Copy, PartialEq, Eq, Structural)]
pub enum RestartState {
    /// Opening the service manager.
    OpeningManager,
    /// The manager is open; opening TermService.
    OpeningService,
    /// TermService is open; sending the stop command.
    Stopping,
    /// Stop sent; querying the status after `elapsed_ms` of waiting.
    PollStopped { elapsed_ms: u64 },
    /// Not stopped yet at `elapsed_ms`; pausing before the next query.
    PauseStopped { elapsed_ms: u64 },
    /// Stopped; starting the service.
    Starting,
    /// Start sent; querying the status after `elapsed_ms` of waiting.
    PollRunning { elapsed_ms: u64 },
    /// Not running yet at `elapsed_ms`; pausing before the next query.
    PauseRunning { elapsed_ms: u64 },
    /// Finished with this outcome.
    Done(RestartOutcome),
}

/// What happened when the last action was carried out.
#[derive(Debug, Clone, Copy, PartialEq, Eq, Structural)]
pub enum ServiceEvent {
    /// An open, stop or start call succeeded (`true`) or failed.
    Called(bool),
    /// A status query: the service's current state, `None` when the query failed.
    Status(Option<u32>),
    /// The pause is over.
    Slept,
}

/// What to do next.
#[derive(Debug, Clone, Copy, PartialEq, Eq, Structural)]
pub enum RestartAction {
    OpenManager,
    OpenService,
    SendStop,
    QueryStatus,
    Sleep(u64),
    SendStart,
    /// Close the service handle and the manager handle where asked, and end
    /// with `outcome`.
    Finish { outcome: RestartOutcome, close_service: bool, close_manager: bool },
}

/// Ending with `o`: every handle that was opened is closed.
pub open spec fn finish(o: RestartOutcome) -> RestartAction {
    RestartAction::Finish {
        outcome: o,
        close_service: !(o == RestartOutcome::ManagerUnavailable || o
            == RestartOutcome::ServiceUnavailable),
        close_manager: o != RestartOutcome::ManagerUnavailable,
    }
}

/// The action a state waits on.
pub open spec fn pending_action(s: RestartState) -> RestartAction {
    match s {
        RestartState::OpeningManager => RestartAction::OpenManager,
        RestartState::OpeningService => RestartAction::OpenService,
        RestartState::Stopping => RestartAction::SendStop,
        RestartState::PollStopped { .. } => RestartAction::QueryStatus,
        RestartState::PauseStopped { .. } => RestartAction::Sleep(SERVICE_POLL_INTERVAL_MS),
        RestartState::Starting => RestartAction::SendStart,
        RestartState::PollRunning { .. } => RestartAction::QueryStatus,
        RestartState::PauseRunning { .. } => RestartAction::Sleep(SERVICE_POLL_INTERVAL_MS),
        RestartState::Done(o) => finish(o),
    }
}

/// The state after a pause at `elapsed_ms`: the next query 200 ms later while
/// the wait lasts, otherwise the time-out outcome.
pub open spec fn after_pause(elapsed_ms: u64, poll: RestartState, timed_out: RestartOutcome) -> RestartState {
    if elapsed_ms + SERVICE_POLL_INTERVAL_MS < SERVICE_WAIT_TIMEOUT_MS {
        poll
    } else {
        RestartState::Done(timed_out)
    }
}

/// One step of a restart: open the manager, open TermService, stop it, wait
/// (a query every 200 ms for 10 000 ms) until it is stopped, start it, and
/// wait the same way until it runs. A failed call or a wait that runs out
/// ends the restart with its outcome; an event the state does not wait on
/// changes nothing.
pub open spec fn spec_restart_step(s: RestartState, ev: ServiceEvent) -> RestartState {
    match (s, ev) {
        (RestartState::OpeningManager, ServiceEvent::Called(ok)) => if ok {
            RestartState::OpeningService
        } else {
            RestartState::Done(RestartOutcome::ManagerUnavailable)
        },
        (RestartState::OpeningService, ServiceEvent::Called(ok)) => if ok {
            RestartState::Stopping
        } else {
            RestartState::Done(RestartOutcome::ServiceUnavailable)
        },
        (RestartState::Stopping, ServiceEvent::Called(ok)) => if ok {
            RestartState::PollStopped { elapsed_ms: 0 }
        } else {
            RestartState::Done(RestartOutcome::StopCommandFailed)
        },
        (RestartState::PollStopped { elapsed_ms }, ServiceEvent::Status(st)) => if st == Some(
            SERVICE_STOPPED,
        ) {
            RestartState::Starting
        } else {
            RestartState::PauseStopped { elapsed_ms }
        },
        (RestartState::PauseStopped { elapsed_ms }, ServiceEvent::Slept) => after_pause(
            elapsed_ms,
            RestartState::PollStopped { elapsed_ms: (elapsed_ms + SERVICE_POLL_INTERVAL_MS) as u64 },
            RestartOutcome::StopTimedOut,
        ),
        (RestartState::Starting, ServiceEvent::Called(ok)) => if ok {
            RestartState::PollRunning { elapsed_ms: 0 }
        } else {
            RestartState::Done(RestartOutcome::StartFailed)
        },
        (RestartState::PollRunning { elapsed_ms }, ServiceEvent::Status(st)) => if st == Some(
            SERVICE_RUNNING,
        ) {
            RestartState::Done(RestartOutcome::Running)
        } else {
            RestartState::PauseRunning { elapsed_ms }
        },
        (RestartState::PauseRunning { elapsed_ms }, ServiceEvent::Slept) => after_pause(
            elapsed_ms,
            RestartState::PollRunning { elapsed_ms: (elapsed_ms + SERVICE_POLL_INTERVAL_MS) as u64 },
            RestartOutcome::StartTimedOut,
        ),
        _ => s,
    }
}

/// The first state of a restart and its action.
pub fn restart_begin() -> (r: (RestartState, RestartAction))
    ensures
        r.0 == RestartState::OpeningManager,
        r.1 == pending_action(r.0),
{
    (RestartState::OpeningManager, RestartAction::OpenManager)
}

fn restart_action(s: RestartState) -> (a: RestartAction)
    ensures
        a == pending_action(s),
{
    match s {
        RestartState::OpeningManager => RestartAction::OpenManager,
        RestartState::OpeningService => RestartAction::OpenService,
        RestartState::Stopping => RestartAction::SendStop,
        RestartState::PollStopped { .. } => RestartAction::QueryStatus,
        RestartState::PauseStopped { .. } => RestartAction::Sleep(SERVICE_POLL_INTERVAL_MS),
        RestartState::Starting => RestartAction::SendStart,
        RestartState::PollRunning { .. } => RestartAction::QueryStatus,
        RestartState::PauseRunning { .. } => RestartAction::Sleep(SERVICE_POLL_INTERVAL_MS),
        RestartState::Done(o) => {
            let opened_service = match o {
                RestartOutcome::ManagerUnavailable => false,
                RestartOutcome::ServiceUnavailable => false,
                _ => true,
            };
            let opened_manager = match o {
                RestartOutcome::ManagerUnavailable => false,
                _ => true,
            };
            RestartAction::Finish {
                outcome: o,
                close_service: opened_service,
                close_manager: opened_manager,
            }
        },
    }
}

fn next_poll(elapsed_ms: u64, poll_stopped: bool) -> (r: RestartState)
    ensures
        r == if poll_stopped {
            after_pause(
                elapsed_ms,
                RestartState::PollStopped { elapsed_ms: (elapsed_ms + SERVICE_POLL_INTERVAL_MS) as u64 },
                RestartOutcome::StopTimedOut,
            )
        } else {
            after_pause(
                elapsed_ms,
                RestartState::PollRunning { elapsed_ms: (elapsed_ms + SERVICE_POLL_INTERVAL_MS) as u64 },
                RestartOutcome::StartTimedOut,
            )
        },
{
    if elapsed_ms < SERVICE_WAIT_TIMEOUT_MS && service_wait_continues(
        elapsed_ms + SERVICE_POLL_INTERVAL_MS,
    ) {
        let next = elapsed_ms + SERVICE_POLL_INTERVAL_MS;
        if poll_stopped {
            RestartState::PollStopped { elapsed_ms: next }
        } else {
            RestartState::PollRunning { elapsed_ms: next }
        }
    } else if poll_stopped {
        RestartState::Done(RestartOutcome::StopTimedOut)
    } else {
        RestartState::Done(RestartOutcome::StartTimedOut)
    }
}

/// Advances a restart by one event: the next state and the action it waits on.
pub fn restart_step(s: RestartState, ev: ServiceEvent) -> (r: (RestartState, RestartAction))
    ensures
        r.0 == spec_restart_step(s, ev),
        r.1 == pending_action(r.0),
{
    let next = match (s, ev) {
        (RestartState::OpeningManager, ServiceEvent::Called(ok)) => if ok {
            RestartState::OpeningService
        } else {
            RestartState::Done(RestartOutcome::ManagerUnavailable)
        },
        (RestartState::OpeningService, ServiceEvent::Called(ok)) => if ok {
            RestartState::Stopping
        } else {
            RestartState::Done(RestartOutcome::ServiceUnavailable)
        },
        (RestartState::Stopping, ServiceEvent::Called(ok)) => if ok {
            RestartState::PollStopped { elapsed_ms: 0 }
        } else {
            RestartState::Done(RestartOutcome::StopCommandFailed)
        },
        (RestartState::PollStopped { elapsed_ms }, ServiceEvent::Status(st)) => {
            let seen = match st {
                Some(v) => v == SERVICE_STOPPED,
                None => false,
            };
            if seen {
                RestartState::Starting
            } else {
                RestartState::PauseStopped { elapsed_ms }
            }
        },
        (RestartState::PauseStopped { elapsed_ms }, ServiceEvent::Slept) => next_poll(elapsed_ms, true),
        (RestartState::Starting, ServiceEvent::Called(ok)) => if ok {
            RestartState::PollRunning { elapsed_ms: 0 }
        } else {
            RestartState::Done(RestartOutcome::StartFailed)
        },
        (RestartState::PollRunning { elapsed_ms }, ServiceEvent::Status(st)) => {
            let seen = match st {
                Some(v) => v == SERVICE_RUNNING,
                None => false,
            };
            if seen {
                RestartState::Done(RestartOutcome::Running)
            } else {
                RestartState::PauseRunning { elapsed_ms }
            }
        },
        (RestartState::PauseRunning { elapsed_ms }, ServiceEvent::Slept) => next_poll(elapsed_ms, false),
        _ => s,
    };
    (next, restart_action(next))
}

/// The states a restart passes through on its own: each wait's clock is a
/// multiple of 200 ms below 10 000 ms, so each wait makes at most 50 queries.
pub open spec fn restart_wf(s: RestartState) -> bool {
    match s {
        RestartState::PollStopped { elapsed_ms } => elapsed_ms < SERVICE_WAIT_TIMEOUT_MS
            && elapsed_ms % SERVICE_POLL_INTERVAL_MS == 0,
        RestartState::PauseStopped { elapsed_ms } => elapsed_ms < SERVICE_WAIT_TIMEOUT_MS
            && elapsed_ms % SERVICE_POLL_INTERVAL_MS == 0,
        RestartState::PollRunning { elapsed_ms } => elapsed_ms < SERVICE_WAIT_TIMEOUT_MS
            && elapsed_ms % SERVICE_POLL_INTERVAL_MS == 0,
        RestartState::PauseRunning { elapsed_ms } => elapsed_ms < SERVICE_WAIT_TIMEOUT_MS
            && elapsed_ms % SERVICE_POLL_INTERVAL_MS == 0,
        _ => true,
    }
}

/// A restart succeeds only at the end of the whole sequence, and each stage
/// is entered only from the one before it:
/// - it ends `Running` only when a query while waiting for it to run (within
///   10 000 ms) saw RUNNING;
/// - that wait begins only when the start call succeeded, in the `Starting`
///   stage;
/// - `Starting` is entered only when a query while waiting for the stop
///   (within 10 000 ms) saw STOPPED;
/// - that wait begins only when the stop command succeeded;
/// - the stop is sent only once TermService is open, and TermService is
///   opened only once the manager is open.
/// Every step keeps each wait's clock a multiple of 200 ms below 10 000 ms,
/// and a finished restart stays finished.
pub proof fn lemma_restart_stages(s: RestartState, ev: ServiceEvent)
    ensures
        ({
            let n = spec_restart_step(s, ev);
            &&& restart_wf(s) ==> restart_wf(n)
            &&& s is Done ==> n == s
            &&& (n == RestartState::Done(RestartOutcome::Running) && s != n) ==> (s matches RestartState::PollRunning { elapsed_ms } && (restart_wf(s) ==> elapsed_ms
                < SERVICE_WAIT_TIMEOUT_MS)) && ev == ServiceEvent::Status(Some(SERVICE_RUNNING))
            &&& (n is PollRunning && !(s is PollRunning || s is PauseRunning)) ==> s
                == RestartState::Starting && ev == ServiceEvent::Called(true)
            &&& (n is PauseRunning && s != n) ==> s is PollRunning
            &&& (n is PollRunning && s is PauseRunning) ==> ev == ServiceEvent::Slept
            &&& (n == RestartState::Starting && s != n) ==> (s matches RestartState::PollStopped { elapsed_ms } && (restart_wf(s) ==> elapsed_ms
                < SERVICE_WAIT_TIMEOUT_MS)) && ev == ServiceEvent::Status(Some(SERVICE_STOPPED))
            &&& (n is PollStopped && !(s is PollStopped || s is PauseStopped)) ==> s
                == RestartState::Stopping && ev == ServiceEvent::Called(true)
            &&& (n is PauseStopped && s != n) ==> s is PollStopped
            &&& (n == RestartState::Stopping && s != n) ==> s == RestartState::OpeningService
                && ev == ServiceEvent::Called(true)
            &&& (n == RestartState::OpeningService && s != n) ==> s
                == RestartState::OpeningManager && ev == ServiceEvent::Called(true)
        }),
{
}

/// The state a restart reaches from `s` on the events `evs`, in order.
pub open spec fn restart_run(s: RestartState, evs: Seq<ServiceEvent>) -> RestartState
    decreases evs.len(),
{
    if evs.len() == 0 {
        s
    } else {
        restart_run(spec_restart_step(s, evs[0]), evs.drop_first())
    }
}

/// What must happen, in this order, for a restart to succeed: the manager
/// opens, TermService opens, the stop command succeeds, a query sees
/// STOPPED, the start succeeds, a query sees RUNNING.
pub open spec fn restart_milestones() -> Seq<ServiceEvent> {
    seq![
        ServiceEvent::Called(true),
        ServiceEvent::Called(true),
        ServiceEvent::Called(true),
        ServiceEvent::Status(Some(SERVICE_STOPPED)),
        ServiceEvent::Called(true),
        ServiceEvent::Status(Some(SERVICE_RUNNING)),
    ]
}

/// Whether `m` occurs in `evs` in order, not necessarily next to each other.
pub open spec fn occurs_in_order(m: Seq<ServiceEvent>, evs: Seq<ServiceEvent>) -> bool
    decreases evs.len(),
{
    if m.len() == 0 {
        true
    } else if evs.len() == 0 {
        false
    } else if evs[0] == m[0] {
        occurs_in_order(m.drop_first(), evs.drop_first())
    } else {
        occurs_in_order(m, evs.drop_first())
    }
}

/// How many of the milestones state `s` has passed.
spec fn restart_stage(s: RestartState) -> int {
    match s {
        RestartState::OpeningManager => 0,
        RestartState::OpeningService => 1,
        RestartState::Stopping => 2,
        RestartState::PollStopped { .. } => 3,
        RestartState::PauseStopped { .. } => 3,
        RestartState::Starting => 4,
        RestartState::PollRunning { .. } => 5,
        RestartState::PauseRunning { .. } => 5,
        RestartState::Done(_) => 6,
    }
}

proof fn lemma_run_stays_done(o: RestartOutcome, evs: Seq<ServiceEvent>)
    ensures
        restart_run(RestartState::Done(o), evs) == RestartState::Done(o),
    decreases evs.len(),
{
    if evs.len() > 0 {
        lemma_run_stays_done(o, evs.drop_first());
    }
}

proof fn lemma_order_drop_first(m: Seq<ServiceEvent>, evs: Seq<ServiceEvent>)
    requires
        m.len() > 0,
        occurs_in_order(m, evs),
    ensures
        occurs_in_order(m.drop_first(), evs),
    decreases evs.len(),
{
    let m1 = m.drop_first();
    let rest = evs.drop_first();
    if evs[0] != m[0] {
        lemma_order_drop_first(m, rest);
    }
    // Now the rest of the events hold `m1` in order.
    if m1.len() > 0 && evs[0] == m1[0] {
        lemma_order_drop_first(m1, rest);
    }
}

proof fn lemma_run_passes_milestones(s: RestartState, evs: Seq<ServiceEvent>)
    requires
        restart_run(s, evs) == RestartState::Done(RestartOutcome::Running),
    ensures
        occurs_in_order(restart_milestones().skip(restart_stage(s)), evs),
    decreases evs.len(),
{
    let m = restart_milestones().skip(restart_stage(s));
    if let RestartState::Done(o) = s {
        lemma_run_stays_done(o, evs);
        assert(m.len() == 0);
    } else if evs.len() == 0 {
    } else {
        let e = evs[0];
        let rest = evs.drop_first();
        let n = spec_restart_step(s, e);
        lemma_run_passes_milestones(n, rest);
        if let RestartState::Done(o) = n {
            lemma_run_stays_done(o, rest);
        }
        assert(m.len() > 0);
        let k = restart_stage(s);
        assert(m[0] == restart_milestones()[k]);
        if restart_stage(n) == restart_stage(s) {
            if e == m[0] {
                lemma_order_drop_first(m, rest);
            }
        } else {
            assert(restart_stage(n) == restart_stage(s) + 1);
            assert(e == m[0]);
            assert(m.drop_first() =~= restart_milestones().skip(restart_stage(n)));
        }
    }
}

/// A restart ends `Running` only when, in this order, the manager and
/// TermService were opened, the stop command succeeded, a status query saw
/// STOPPED, the start succeeded and a status query saw RUNNING.
pub proof fn lemma_restart_succeeds_only_after_every_stage(evs: Seq<ServiceEvent>)
    ensures
        restart_run(RestartState::OpeningManager, evs) == RestartState::Done(RestartOutcome::Running)
            ==> occurs_in_order(restart_milestones(), evs),
{
    if restart_run(RestartState::OpeningManager, evs) == RestartState::Done(RestartOutcome::Running) {
        lemma_run_passes_milestones(RestartState::OpeningManager, evs);
        assert(restart_milestones().skip(0) =~= restart_milestones());
    }
}

/// The result of enabling child sessions.
pub fn fix_enable_child_sessions(enabled: bool) -> (r: FixResult)
    ensures
        r.step == FixStep::EnableChildSessions,
        r.success == enabled,
        r.detail@ == if enabled {
            "子会话已启用"@
        } else {
            "启用失败"@
        },
{
    fix(FixStep::EnableChildSessions, enabled, if enabled { owned("子会话已启用") } else { owned("启用失败") })
}

/// The nine fix steps, in their fixed order.
pub open spec fn spec_fix_steps() -> Seq<FixStep> {
    seq![
        FixStep::DisableRdpWrapperHook,
        FixStep::SetDenyTSConnections,
        FixStep::SetSingleSessionPerUser,
        FixStep::SetStartRcm,
        FixStep::SetSecurityLayer,
        FixStep::EnsureFirewallLoopbackRule,
        FixStep::RestartTermService,
        FixStep::EnableChildSessions,
        FixStep::RecheckAll,
    ]
}

/// The results of the nine fix steps, in order; the final re-check is left to the caller.
pub fn run_all_fixes(o: &FixOutcomes) -> (results: Vec<FixResult>)
    ensures
        results@.len() == FIX_STEP_COUNT,
        forall|k: int| 0 <= k < 9 ==> (#[trigger] results@[k]).step == spec_fix_steps()[k],
        (results@[0].success, results@[0].detail@) == spec_hook_fix(o.hook),
        (results@[1].success, results@[1].detail@) == spec_reg_write_fix(o.deny_ts_connections, "fDenyTSConnections=0"@),
        (results@[2].success, results@[2].detail@) == spec_reg_write_fix(o.single_session_per_user, "fSingleSessionPerUser=0"@),
        (results@[3].success, results@[3].detail@) == spec_reg_write_fix(o.start_rcm, "StartRCM=1"@),
        (results@[4].success, results@[4].detail@) == spec_security_layer_fix(o.security_layer),
        (results@[5].success, results@[5].detail@) == spec_firewall_fix(o.firewall),
        (results@[6].success, results@[6].detail@) == spec_restart_fix(o.restart),
        results@[7].success == o.child_sessions_enabled,
        results@[8].success,
        results@[8].detail@ == "复测由调用者执行"@,
{
    let mut results: Vec<FixResult> = Vec::new();
    results.push(fix_disable_rdp_wrapper_hook(&o.hook));
    results.push(reg_write_fix(FixStep::SetDenyTSConnections, &o.deny_ts_connections, "fDenyTSConnections=0"));
    results.push(reg_write_fix(FixStep::SetSingleSessionPerUser, &o.single_session_per_user, "fSingleSessionPerUser=0"));
    results.push(reg_write_fix(FixStep::SetStartRcm, &o.start_rcm, "StartRCM=1"));
    results.push(fix_set_security_layer(&o.security_layer));
    results.push(fix_ensure_firewall_loopback_rule(&o.firewall));
    results.push(fix_restart_term_service(o.restart));
    results.push(fix_enable_child_sessions(o.child_sessions_enabled));
    results.push(fix(FixStep::RecheckAll, true, owned("复测由调用者执行")));
    results
}

/// The number of failed steps.
pub fn count_failures(results: &[FixResult]) -> (n: usize)
    ensures
        n == results@.filter(|r: FixResult| !r.success).len(),
{
    let mut n: usize = 0;
    let mut i: usize = 0;
    while i < results.len()
        invariant
            i <= results@.len(),
            n == results@.subrange(0, i as int).filter(|r: FixResult| !r.success).len(),
            n <= i,
        decreases results@.len() - i,
    {
        proof {
            let prefix = results@.subrange(0, i as int);
            assert(results@.subrange(0, i + 1) =~= prefix.push(results@[i as int]));
            prefix.lemma_filter_len_push(|r: FixResult| !r.success, results@[i as int]);
        }
        if !results[i].success {
            n = n + 1;
        }
        i = i + 1;
    }
    assert(results@.subrange(0, results@.len() as int) =~= results@);
    n
}

} // verus!
