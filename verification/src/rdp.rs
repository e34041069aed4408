//! Events of the RDP ActiveX host and the diagnostics it reports.
use vstd::prelude::*;
use crate::text::{append_decimal, dec_chars, owned};

verus! {

/// COM variant type of a boolean.
pub const VT_BOOL: u16 = 11;
/// COM variant type of a 16-bit integer.
pub const VT_I2: u16 = 2;

#[derive(Debug, Clone)]
pub enum RdpEvent {
    Connected,
    Disconnected(i32, String),
    LoginComplete(i32),
    FatalError(i32),
    Warning(i32),
    RemoteDesktopSizeChange(i32, i32),
    IdleTimeoutNotification,
    RequestContainerMinimize,
    ConfirmClose,
    ReceivedCapabilities,
    ConnectionBarPullDown,
    NetworkBandwidthChanged(i32),
    AutoReconnecting(i32, i32),
    AutoReconnected,
    AuthenticationFailed,
    ServiceMessageReceived,
    TunnelCreated,
    TunnelDestroyed,
}

/// The diagnostics attached to a disconnect.
pub fn disconnect_diagnostics(
    server: &str,
    user: &str,
    domain: &str,
    width: &str,
    height: &str,
    color: &str,
    error: &str,
) -> (s: String)
    ensures
        s@ == "server="@ + server@ + " user="@ + user@ + " domain="@ + domain@ + " width="@
            + width@ + " height="@ + height@ + " color="@ + color@ + " error="@ + error@,
{
    let mut s = owned("server=");
    s.append(server);
    s.append(" user=");
    s.append(user);
    s.append(" domain=");
    s.append(domain);
    s.append(" width=");
    s.append(width);
    s.append(" height=");
    s.append(height);
    s.append(" color=");
    s.append(color);
    s.append(" error=");
    s.append(error);
    s
}

/// How a read-back property is reported: booleans and 16-bit integers as
/// `true`/`false`, anything else by its variant type.
pub fn variant_bool_str(vt: u16, bool_val: i16, int_val: i16) -> (s: String)
    ensures
        s@ == if vt == VT_BOOL {
            if bool_val != 0 {
                "true"@
            } else {
                "false"@
            }
        } else if vt == VT_I2 {
            if int_val != 0 {
                "true"@
            } else {
                "false"@
            }
        } else {
            "vt="@ + dec_chars(vt as nat) + " unknown"@
        },
{
    if vt == VT_BOOL {
        return if bool_val != 0 { owned("true") } else { owned("false") };
    }
    if vt == VT_I2 {
        return if int_val != 0 { owned("true") } else { owned("false") };
    }
    let mut s = owned("vt=");
    append_decimal(&mut s, vt as u64);
    s.append(" unknown");
    s
}

/// The pause after failed connect attempt `attempt` (of three): 1 s, then 2 s, then none.
pub fn connect_retry_delay_s(attempt: usize) -> (d: Option<u64>)
    ensures
        d == if attempt == 0 {
            Some(1u64)
        } else if attempt == 1 {
            Some(2u64)
        } else {
            None
        },
{
    if attempt == 0 {
        Some(1)
    } else if attempt == 1 {
        Some(2)
    } else {
        None
    }
}

/// How many times a connect calls `Connect` before it gives up.
pub const CONNECT_ATTEMPTS: usize = 3;

/// `E_FAIL` (0x80004005), the COM code of an unspecified failure.
pub const E_FAIL: i32 = -2147467259;

/// A failed COM call of the RDP host: its `HRESULT` and message.
#[derive(Debug, Clone)]
pub struct RdpError {
    pub hresult: i32,
    pub message: String,
}

/// A connect needs the ActiveX control: with the fallback window, or with no
/// control created, it is refused with `E_FAIL` before any property is set.
pub fn connect_guard(use_fallback: bool, has_control: bool) -> (r: Result<(), RdpError>)
    ensures
        r is Ok <==> !use_fallback && has_control,
        r matches Err(e) ==> e.hresult == E_FAIL && e.message@ == "未初始化 RDP 控件"@,
{
    if use_fallback || !has_control {
        return Err(RdpError { hresult: E_FAIL, message: owned("未初始化 RDP 控件") });
    }
    Ok(())
}

/// What a connect does after `Connect` call number `attempt` (from 0).
#[derive(Debug, Clone, Copy, PartialEq, Eq, Structural)]
pub enum ConnectStep {
    /// The call succeeded: the connect returns `Ok`.
    Connected,
    /// The call failed: wait this many seconds, then call again.
    RetryAfter(u64),
    /// The last call failed: the connect returns its error.
    GiveUp,
}

pub open spec fn spec_connect_step(attempt: nat, succeeded: bool) -> ConnectStep {
    if succeeded {
        ConnectStep::Connected
    } else if attempt == 0 {
        ConnectStep::RetryAfter(1)
    } else if attempt == 1 {
        ConnectStep::RetryAfter(2)
    } else {
        ConnectStep::GiveUp
    }
}

/// The step after `Connect` call number `attempt` succeeded or failed.
pub fn connect_step(attempt: usize, succeeded: bool) -> (s: ConnectStep)
    requires
        attempt < CONNECT_ATTEMPTS,
    ensures
        s == spec_connect_step(attempt as nat, succeeded),
{
    if succeeded {
        return ConnectStep::Connected;
    }
    match connect_retry_delay_s(attempt) {
        Some(d) => ConnectStep::RetryAfter(d),
        None => ConnectStep::GiveUp,
    }
}

/// A connect driven by `connect_step` from call number `attempt` on, where
/// call `i` succeeds exactly when `outcomes[i]`: how many calls it makes in
/// all, the pauses it takes between them in seconds, and whether it ends
/// connected.
pub open spec fn connect_run(outcomes: Seq<bool>, attempt: nat) -> (nat, Seq<u64>, bool)
    decreases CONNECT_ATTEMPTS - attempt,
{
    if attempt >= CONNECT_ATTEMPTS || attempt >= outcomes.len() {
        (attempt, Seq::empty(), false)
    } else {
        match spec_connect_step(attempt, outcomes[attempt as int]) {
            ConnectStep::Connected => (attempt + 1, Seq::empty(), true),
            ConnectStep::RetryAfter(d) => {
                let rest = connect_run(outcomes, attempt + 1);
                (rest.0, seq![d] + rest.1, rest.2)
            },
            ConnectStep::GiveUp => (attempt + 1, Seq::empty(), false),
        }
    }
}

/// A connect calls `Connect` at most three times and stops at the first call
/// that succeeds; it ends connected exactly when one of the three calls
/// would succeed, and it pauses 1 s after a first failure and 2 s after a
/// second, never after the last call.
pub proof fn lemma_connect_attempts(outcomes: Seq<bool>)
    requires
        outcomes.len() == CONNECT_ATTEMPTS,
    ensures
        ({
            let (calls, pauses, connected) = connect_run(outcomes, 0);
            &&& 1 <= calls <= CONNECT_ATTEMPTS
            &&& connected <==> outcomes.contains(true)
            &&& forall|i: int| 0 <= i < calls - 1 ==> !outcomes[i]
            &&& connected ==> outcomes[calls - 1]
            &&& !connected ==> calls == CONNECT_ATTEMPTS
            &&& pauses == seq![1u64, 2u64].take(calls - 1)
        }),
{
    reveal_with_fuel(connect_run, 4);
    let r = connect_run(outcomes, 0);
    if outcomes[0] {
        assert(outcomes.contains(true));
        assert(r.1 =~= seq![1u64, 2u64].take(0));
    } else if outcomes[1] {
        assert(outcomes.contains(true));
        assert(r.1 =~= seq![1u64, 2u64].take(1));
    } else if outcomes[2] {
        assert(outcomes.contains(true));
        assert(r.1 =~= seq![1u64, 2u64].take(2));
    } else {
        assert(!outcomes.contains(true)) by {
            assert forall|i: int| 0 <= i < outcomes.len() implies outcomes[i] != true by {}
        }
        assert(r.1 =~= seq![1u64, 2u64].take(2));
    }
}

/// The objects of the RDP control whose properties a connect sets.
#[derive(Debug, Clone, Copy, PartialEq, Eq, Structural)]
pub enum RdpObject {
    Control,
    SecuredSettings2,
    AdvancedSettings7,
    AdvancedSettings9,
    AdvancedSettings8,
    NonScriptable,
    ExtendedSettings,
}

/// One property that a connect sets: on which object, its name, its value.
#[derive(Debug, Clone)]
pub struct PropertyWrite {
    pub object: RdpObject,
    pub name: &'static str,
    pub value: String,
}

pub open spec fn write_view(w: PropertyWrite) -> (RdpObject, Seq<char>, Seq<char>) {
    (w.object, w.name@, w.value@)
}

pub open spec fn plan_view(plan: Seq<PropertyWrite>) -> Seq<(RdpObject, Seq<char>, Seq<char>)> {
    plan.map_values(|w: PropertyWrite| write_view(w))
}

/// Every property a connect sets, in order: the server, the user and the
/// domain where they are given, the session's size and texts, keyboard and
/// audio, port and security, no redirections, the network type, the
/// password, and the child session.
pub open spec fn spec_connect_plan(
    server: Seq<char>,
    user: Seq<char>,
    domain: Seq<char>,
    password: Seq<char>,
) -> Seq<(RdpObject, Seq<char>, Seq<char>)> {
    let s0 = Seq::empty().push((RdpObject::Control, "Server"@, server));
    let s1 = if user.len() == 0 {
        s0
    } else {
        s0.push((RdpObject::Control, "UserName"@, user))
    };
    let s2 = if domain.len() == 0 {
        s1
    } else {
        s1.push((RdpObject::Control, "Domain"@, domain))
    };
    s2.push((RdpObject::Control, "DesktopWidth"@, "1920"@)).push(
        (RdpObject::Control, "DesktopHeight"@, "1080"@),
    ).push((RdpObject::Control, "ColorDepth"@, "32"@)).push(
        (RdpObject::Control, "ConnectingText"@, "正在连接..."@),
    ).push((RdpObject::Control, "DisconnectedText"@, "已断开连接"@)).push(
        (RdpObject::SecuredSettings2, "KeyboardHookMode"@, "1"@),
    ).push((RdpObject::SecuredSettings2, "AudioRedirectionMode"@, "1"@)).push(
        (RdpObject::AdvancedSettings7, "RDPPort"@, "3389"@),
    ).push((RdpObject::AdvancedSettings7, "EnableCredSspSupport"@, "1"@)).push(
        (RdpObject::AdvancedSettings7, "EnableWindowsKey"@, "1"@),
    ).push((RdpObject::AdvancedSettings7, "SmartSizing"@, "1"@)).push(
        (RdpObject::AdvancedSettings9, "AuthenticationLevel"@, "2"@),
    ).push((RdpObject::AdvancedSettings9, "RedirectClipboard"@, "0"@)).push(
        (RdpObject::AdvancedSettings9, "RedirectDrives"@, "0"@),
    ).push((RdpObject::AdvancedSettings9, "RedirectDevices"@, "0"@)).push(
        (RdpObject::AdvancedSettings9, "RedirectPrinters"@, "0"@),
    ).push((RdpObject::AdvancedSettings9, "RedirectSmartCards"@, "0"@)).push(
        (RdpObject::AdvancedSettings9, "PerformanceFlags"@, "143"@),
    ).push((RdpObject::AdvancedSettings8, "NetworkConnectionType"@, "6"@)).push(
        (RdpObject::NonScriptable, "ClearTextPassword"@, password),
    ).push((RdpObject::Control, "WTSEnableChildSessions"@, "1"@)).push(
        (RdpObject::ExtendedSettings, "ConnectToChildSession"@, "1"@),
    )
}

/// Every connect asks for a 1920x1080 session in 32-bit colour, whatever
/// the server and credentials: the plan sets `DesktopWidth` to "1920" and
/// `DesktopHeight` to "1080" on the control, and any write of either
/// property in the plan carries exactly that value.
pub proof fn lemma_connect_plan_session_size(
    server: Seq<char>,
    user: Seq<char>,
    domain: Seq<char>,
    password: Seq<char>,
)
    ensures
        spec_connect_plan(server, user, domain, password).contains(
            (RdpObject::Control, "DesktopWidth"@, "1920"@),
        ),
        spec_connect_plan(server, user, domain, password).contains(
            (RdpObject::Control, "DesktopHeight"@, "1080"@),
        ),
        spec_connect_plan(server, user, domain, password).contains(
            (RdpObject::Control, "ColorDepth"@, "32"@),
        ),
        forall|i: int|
            0 <= i < spec_connect_plan(server, user, domain, password).len() && (
            #[trigger] spec_connect_plan(server, user, domain, password)[i]).1 == "DesktopWidth"@
                ==> spec_connect_plan(server, user, domain, password)[i].2 == "1920"@,
        forall|i: int|
            0 <= i < spec_connect_plan(server, user, domain, password).len() && (
            #[trigger] spec_connect_plan(server, user, domain, password)[i]).1 == "DesktopHeight"@
                ==> spec_connect_plan(server, user, domain, password)[i].2 == "1080"@,
{
    reveal_strlit("Server");
    reveal_strlit("UserName");
    reveal_strlit("Domain");
    reveal_strlit("DesktopWidth");
    reveal_strlit("DesktopHeight");
    reveal_strlit("ColorDepth");
    reveal_strlit("ConnectingText");
    reveal_strlit("DisconnectedText");
    reveal_strlit("KeyboardHookMode");
    reveal_strlit("AudioRedirectionMode");
    reveal_strlit("RDPPort");
    reveal_strlit("EnableCredSspSupport");
    reveal_strlit("EnableWindowsKey");
    reveal_strlit("SmartSizing");
    reveal_strlit("AuthenticationLevel");
    reveal_strlit("RedirectClipboard");
    reveal_strlit("RedirectDrives");
    reveal_strlit("RedirectDevices");
    reveal_strlit("RedirectPrinters");
    reveal_strlit("RedirectSmartCards");
    reveal_strlit("PerformanceFlags");
    reveal_strlit("NetworkConnectionType");
    reveal_strlit("ClearTextPassword");
    reveal_strlit("WTSEnableChildSessions");
    reveal_strlit("ConnectToChildSession");
    reveal_strlit("1920");
    reveal_strlit("1080");
    reveal_strlit("32");
    let plan = spec_connect_plan(server, user, domain, password);
    let k: int = 1 + (if user.len() == 0 {
        0int
    } else {
        1int
    }) + (if domain.len() == 0 {
        0int
    } else {
        1int
    });
    assert(plan[k] == (RdpObject::Control, "DesktopWidth"@, "1920"@));
    assert(plan[k + 1] == (RdpObject::Control, "DesktopHeight"@, "1080"@));
    assert(plan[k + 2] == (RdpObject::Control, "ColorDepth"@, "32"@));
    assert(plan.len() == k + 22);
    assert forall|i: int| 0 <= i < plan.len() && i != k implies #[trigger] plan[i].1.len() != 12 by {
        if i < k {
            assert(i == 0 || plan[i].1 == "UserName"@ || plan[i].1 == "Domain"@);
        }
    }
    assert forall|i: int| 0 <= i < plan.len() && i != k + 1 implies #[trigger] plan[i].1.len()
        != 13 by {
        if i < k {
            assert(i == 0 || plan[i].1 == "UserName"@ || plan[i].1 == "Domain"@);
        }
    }
    assert forall|i: int| 0 <= i < plan.len() && (#[trigger] plan[i]).1 == "DesktopWidth"@ implies plan[i].2
        == "1920"@ by {
        assert(plan[i].1.len() == 12);
    }
    assert forall|i: int| 0 <= i < plan.len() && (#[trigger] plan[i]).1 == "DesktopHeight"@ implies plan[i].2
        == "1080"@ by {
        assert(plan[i].1.len() == 13);
    }
}

fn push_write(plan: &mut Vec<PropertyWrite>, object: RdpObject, name: &'static str, value: String)
    ensures
        plan_view(final(plan)@) == plan_view(old(plan)@).push((object, name@, value@)),
{
    let ghost before = plan@;
    plan.push(PropertyWrite { object, name, value });
    proof {
        assert(plan_view(plan@) =~= plan_view(before).push((object, name@, value@)));
    }
}

/// The properties a connect sets on the control before it calls `Connect`.
pub fn connect_property_plan(server: &str, user: &str, domain: &str, password: &str) -> (plan: Vec<
    PropertyWrite,
>)
    ensures
        plan_view(plan@) == spec_connect_plan(server@, user@, domain@, password@),
{
    let mut plan: Vec<PropertyWrite> = Vec::new();
    proof {
        assert(plan_view(plan@) =~= Seq::empty());
    }
    push_write(&mut plan, RdpObject::Control, "Server", owned(server));
    if !user.is_empty() {
        push_write(&mut plan, RdpObject::Control, "UserName", owned(user));
    }
    if !domain.is_empty() {
        push_write(&mut plan, RdpObject::Control, "Domain", owned(domain));
    }
    push_write(&mut plan, RdpObject::Control, "DesktopWidth", owned("1920"));
    push_write(&mut plan, RdpObject::Control, "DesktopHeight", owned("1080"));
    push_write(&mut plan, RdpObject::Control, "ColorDepth", owned("32"));
    push_write(&mut plan, RdpObject::Control, "ConnectingText", owned("正在连接..."));
    push_write(&mut plan, RdpObject::Control, "DisconnectedText", owned("已断开连接"));
    push_write(&mut plan, RdpObject::SecuredSettings2, "KeyboardHookMode", owned("1"));
    push_write(&mut plan, RdpObject::SecuredSettings2, "AudioRedirectionMode", owned("1"));
    push_write(&mut plan, RdpObject::AdvancedSettings7, "RDPPort", owned("3389"));
    push_write(&mut plan, RdpObject::AdvancedSettings7, "EnableCredSspSupport", owned("1"));
    push_write(&mut plan, RdpObject::AdvancedSettings7, "EnableWindowsKey", owned("1"));
    push_write(&mut plan, RdpObject::AdvancedSettings7, "SmartSizing", owned("1"));
    push_write(&mut plan, RdpObject::AdvancedSettings9, "AuthenticationLevel", owned("2"));
    push_write(&mut plan, RdpObject::AdvancedSettings9, "RedirectClipboard", owned("0"));
    push_write(&mut plan, RdpObject::AdvancedSettings9, "RedirectDrives", owned("0"));
    push_write(&mut plan, RdpObject::AdvancedSettings9, "RedirectDevices", owned("0"));
    push_write(&mut plan, RdpObject::AdvancedSettings9, "RedirectPrinters", owned("0"));
    push_write(&mut plan, RdpObject::AdvancedSettings9, "RedirectSmartCards", owned("0"));
    push_write(&mut plan, RdpObject::AdvancedSettings9, "PerformanceFlags", owned("143"));
    push_write(&mut plan, RdpObject::AdvancedSettings8, "NetworkConnectionType", owned("6"));
    push_write(&mut plan, RdpObject::NonScriptable, "ClearTextPassword", owned(password));
    push_write(&mut plan, RdpObject::Control, "WTSEnableChildSessions", owned("1"));
    push_write(&mut plan, RdpObject::ExtendedSettings, "ConnectToChildSession", owned("1"));
    plan
}

/// What the diagnostics record after the child-session flag was read back.
pub fn child_session_diagnostic(read_back: &str) -> (s: String)
    ensures
        s@ == "child_session="@ + read_back@,
{
    let mut s = owned("child_session=");
    s.append(read_back);
    s
}

} // verus!
