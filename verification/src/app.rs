//! The application's decision core: connection state, reactions to RDP
//! events, tray and window messages, toasts and the staged shutdown.
use vstd::prelude::*;
use crate::rdp::RdpEvent;
use crate::text::{append_decimal, append_signed_decimal, dec_chars, owned, signed_dec_chars, str_eq};

verus! {

pub const WM_USER: u32 = 0x0400;
pub const WM_TRAYICON: u32 = 0x0401;
pub const WM_DESTROY: u32 = 0x0002;
pub const WM_CLOSE: u32 = 0x0010;
pub const WM_NCLBUTTONDOWN: u32 = 0x00A1;
pub const WM_LBUTTONDBLCLK: u32 = 0x0203;
pub const WM_RBUTTONDOWN: u32 = 0x0204;
pub const WM_RBUTTONUP: u32 = 0x0205;
pub const HTCAPTION: usize = 2;
/// A toast with the same title and message is not repeated within this time.
pub const TOAST_DEBOUNCE_MS: u64 = 15000;
/// A toast is hidden this long after it was shown.
pub const TOAST_HIDE_AFTER_MS: u64 = 15000;
/// Period of the status tick.
pub const STATUS_TICK_MS: u64 = 1000;

#[derive(Debug, Clone, Copy, PartialEq, Eq, Structural)]
pub enum ConnectionState {
    Disconnected,
    Connecting,
    Connected,
    Disconnecting,
}

#[derive(Debug, Clone)]
pub struct ConnectionDiagnostics {
    pub server: String,
    pub user: String,
    pub domain: String,
    pub width: String,
    pub height: String,
    pub color: String,
    pub error: String,
}

impl Default for ConnectionDiagnostics {
    fn default() -> (d: Self)
        ensures
            d.server@.len() == 0 && d.user@.len() == 0 && d.domain@.len() == 0 && d.width@.len()
                == 0 && d.height@.len() == 0 && d.color@.len() == 0 && d.error@.len() == 0,
    {
        ConnectionDiagnostics {
            server: String::new(),
            user: String::new(),
            domain: String::new(),
            width: String::new(),
            height: String::new(),
            color: String::new(),
            error: String::new(),
        }
    }
}

#[derive(Debug, Clone, Copy, PartialEq, Eq, Structural)]
pub enum ToastLevel {
    Info,
    Warning,
    Error,
}

#[derive(Debug, Clone)]
pub struct ToastMessage {
    pub title: String,
    pub message: String,
    pub level: ToastLevel,
}

#[derive(Debug)]
pub enum AppEvent {
    RdpEvent(RdpEvent),
    StatusTick,
    TrayClick(u32),
    TrayDoubleClick,
    Connect,
    Disconnect,
    Terminate,
    GameMouseToggle,
    LaunchProgram,
    EnvCheck,
    Settings,
    Exit,
    ToastShow(ToastMessage),
    ToastHide,
    WindowDrag,
    CloseSequence(u32),
    DoConnect,
}

pub open spec fn toast_view(t: ToastMessage) -> (Seq<char>, Seq<char>, ToastLevel) {
    (t.title@, t.message@, t.level)
}

/// `o` holds a toast with this title, message and level.
pub open spec fn shows_toast(
    o: Option<ToastMessage>,
    title: Seq<char>,
    message: Seq<char>,
    level: ToastLevel,
) -> bool {
    match o {
        Some(t) => toast_view(t) == (title, message, level),
        None => false,
    }
}

fn toast(title: &str, message: String, level: ToastLevel) -> (t: ToastMessage)
    ensures
        toast_view(t) == (title@, message@, level),
{
    ToastMessage { title: owned(title), message, level }
}

/// The event a tray menu command posts.
pub fn tray_command_event(cmd: u32) -> (e: Option<AppEvent>)
    ensures
        cmd == 1001 ==> e matches Some(AppEvent::Connect),
        cmd == 1002 ==> e matches Some(AppEvent::Disconnect),
        cmd == 1003 ==> e matches Some(AppEvent::Terminate),
        cmd == 1004 ==> e matches Some(AppEvent::GameMouseToggle),
        cmd == 1005 ==> e matches Some(AppEvent::LaunchProgram),
        cmd == 1006 ==> e matches Some(AppEvent::EnvCheck),
        cmd == 1007 ==> e matches Some(AppEvent::Settings),
        cmd == 1008 ==> e matches Some(AppEvent::Exit),
        (cmd < 1001 || cmd > 1008) ==> e is None,
{
    if cmd == 1001 {
        Some(AppEvent::Connect)
    } else if cmd == 1002 {
        Some(AppEvent::Disconnect)
    } else if cmd == 1003 {
        Some(AppEvent::Terminate)
    } else if cmd == 1004 {
        Some(AppEvent::GameMouseToggle)
    } else if cmd == 1005 {
        Some(AppEvent::LaunchProgram)
    } else if cmd == 1006 {
        Some(AppEvent::EnvCheck)
    } else if cmd == 1007 {
        Some(AppEvent::Settings)
    } else if cmd == 1008 {
        Some(AppEvent::Exit)
    } else {
        None
    }
}

/// What the window procedure does with a message.
#[derive(Debug)]
pub enum WindowAction {
    /// Post this event to the application and report the message handled.
    Post(AppEvent),
    /// Report the message handled without doing anything.
    Handled,
    /// Post `WM_QUIT`.
    Quit,
    /// Leave the message to the default window procedure.
    Default,
}

/// The window procedure's decision: tray double-click and right-click,
/// caption drag, close request, destruction.
pub fn window_message_action(msg: u32, wparam: usize, lparam: isize) -> (a: WindowAction)
    ensures
        msg == WM_TRAYICON && lparam as u32 == WM_LBUTTONDBLCLK ==> a matches WindowAction::Post(
            AppEvent::TrayDoubleClick,
        ),
        msg == WM_TRAYICON && (lparam as u32 == WM_RBUTTONDOWN || lparam as u32 == WM_RBUTTONUP)
            ==> (a matches WindowAction::Post(AppEvent::TrayClick(m)) && m == lparam as u32),
        msg == WM_TRAYICON && lparam as u32 != WM_LBUTTONDBLCLK && lparam as u32 != WM_RBUTTONDOWN
            && lparam as u32 != WM_RBUTTONUP ==> a is Handled,
        msg == WM_NCLBUTTONDOWN && wparam == HTCAPTION ==> a matches WindowAction::Post(
            AppEvent::WindowDrag,
        ),
        msg == WM_CLOSE ==> a matches WindowAction::Post(AppEvent::Exit),
        msg == WM_DESTROY ==> a is Quit,
        msg != WM_TRAYICON && !(msg == WM_NCLBUTTONDOWN && wparam == HTCAPTION) && msg != WM_CLOSE
            && msg != WM_DESTROY ==> a is Default,
{
    if msg == WM_TRAYICON {
        let event = lparam as u32;
        if event == WM_LBUTTONDBLCLK {
            return WindowAction::Post(AppEvent::TrayDoubleClick);
        } else if event == WM_RBUTTONDOWN || event == WM_RBUTTONUP {
            return WindowAction::Post(AppEvent::TrayClick(event));
        }
        return WindowAction::Handled;
    }
    if msg == WM_NCLBUTTONDOWN && wparam == HTCAPTION {
        return WindowAction::Post(AppEvent::WindowDrag);
    }
    if msg == WM_CLOSE {
        return WindowAction::Post(AppEvent::Exit);
    }
    if msg == WM_DESTROY {
        return WindowAction::Quit;
    }
    WindowAction::Default
}

/// A tray click posts a double-click event only for the double-click message.
pub fn tray_click_event(msg: u32) -> (e: Option<AppEvent>)
    ensures
        msg == WM_LBUTTONDBLCLK ==> e matches Some(AppEvent::TrayDoubleClick),
        msg != WM_LBUTTONDBLCLK ==> e is None,
{
    if msg == WM_LBUTTONDBLCLK {
        Some(AppEvent::TrayDoubleClick)
    } else {
        None
    }
}

/// What the application does when handling an RDP event.
pub struct RdpEventEffects {
    /// New tray tooltip, if it changes.
    pub tooltip: Option<&'static str>,
    /// Whether the connection state is pushed to the UI.
    pub emit_state: bool,
    /// Toast to show, if any.
    pub toast: Option<ToastMessage>,
}

/// The part of the application state the decisions work on.
pub struct AppCore {
    pub connection_state: ConnectionState,
    pub is_connecting: bool,
    pub shutdown_sequence: u32,
    pub status_tick_running: bool,
}

/// Toast text for an error code.
fn code_message(label: &str, code: i32) -> (s: String)
    ensures
        s@ == label@ + signed_dec_chars(code as int),
{
    let mut s = owned(label);
    append_signed_decimal(&mut s, code as i64);
    s
}

impl AppCore {
    pub fn new() -> (c: Self)
        ensures
            c.connection_state == ConnectionState::Disconnected,
            !c.is_connecting,
            c.shutdown_sequence == 0,
            !c.status_tick_running,
    {
        AppCore {
            connection_state: ConnectionState::Disconnected,
            is_connecting: false,
            shutdown_sequence: 0,
            status_tick_running: false,
        }
    }

    /// Reacts to an RDP event: a connect or disconnect settles the state and
    /// ends the connect attempt; errors, warnings and reconnects are toasted.
    pub fn handle_rdp_event(&mut self, event: &RdpEvent) -> (fx: RdpEventEffects)
        ensures
            event is Connected ==> (final(self).connection_state == ConnectionState::Connected
                && !final(self).is_connecting && fx.tooltip == Some("AkiSpace 已连接")
                && fx.emit_state && shows_toast(
                fx.toast,
                "连接成功"@,
                "RDP 会话已建立"@,
                ToastLevel::Info,
            )),
            event matches RdpEvent::Disconnected(reason, diag) ==> (final(self).connection_state
                == ConnectionState::Disconnected && !final(self).is_connecting && fx.tooltip
                == Some("AkiSpace 已断开") && fx.emit_state && shows_toast(
                fx.toast,
                "连接断开"@,
                "原因: "@ + signed_dec_chars(reason as int) + " 诊断: "@ + diag@,
                ToastLevel::Warning,
            )),
            event matches RdpEvent::FatalError(code) ==> (final(self).connection_state
                == ConnectionState::Disconnected && !final(self).is_connecting && fx.tooltip is None
                && fx.emit_state && shows_toast(
                fx.toast,
                "致命错误"@,
                "错误代码: "@ + signed_dec_chars(code as int),
                ToastLevel::Error,
            )),
            (event !is Connected && event !is Disconnected && event !is FatalError) ==> (
            final(self).connection_state == old(self).connection_state
                && final(self).is_connecting == old(self).is_connecting && fx.tooltip is None
                && !fx.emit_state),
            event matches RdpEvent::LoginComplete(code) ==> (if code != 0 {
                shows_toast(
                    fx.toast,
                    "登录失败"@,
                    "错误代码: "@ + signed_dec_chars(code as int),
                    ToastLevel::Error,
                )
            } else {
                fx.toast is None
            }),
            event matches RdpEvent::Warning(code) ==> shows_toast(
                fx.toast,
                "警告"@,
                "警告代码: "@ + signed_dec_chars(code as int),
                ToastLevel::Warning,
            ),
            event matches RdpEvent::AutoReconnecting(a, m) ==> shows_toast(
                fx.toast,
                "重连中"@,
                "尝试 "@ + signed_dec_chars(a as int) + "/"@ + signed_dec_chars(m as int),
                ToastLevel::Info,
            ),
            event is AutoReconnected ==> shows_toast(
                fx.toast,
                "重连成功"@,
                "RDP 会话已恢复"@,
                ToastLevel::Info,
            ),
            event is AuthenticationFailed ==> shows_toast(
                fx.toast,
                "认证失败"@,
                "用户名或密码错误"@,
                ToastLevel::Error,
            ),
            (event is Connected || event is Disconnected || event is FatalError
                || event is LoginComplete || event is Warning || event is AutoReconnecting
                || event is AutoReconnected || event is AuthenticationFailed) || fx.toast is None,
            final(self).shutdown_sequence == old(self).shutdown_sequence,
            final(self).status_tick_running == old(self).status_tick_running,
    {
        match event {
            RdpEvent::Connected => {
                self.connection_state = ConnectionState::Connected;
                self.is_connecting = false;
                RdpEventEffects {
                    tooltip: Some("AkiSpace 已连接"),
                    emit_state: true,
                    toast: Some(toast("连接成功", owned("RDP 会话已建立"), ToastLevel::Info)),
                }
            },
            RdpEvent::Disconnected(reason, diag) => {
                self.connection_state = ConnectionState::Disconnected;
                self.is_connecting = false;
                let mut m = code_message("原因: ", *reason);
                m.append(" 诊断: ");
                m.append(diag.as_str());
                RdpEventEffects {
                    tooltip: Some("AkiSpace 已断开"),
                    emit_state: true,
                    toast: Some(toast("连接断开", m, ToastLevel::Warning)),
                }
            },
            RdpEvent::FatalError(code) => {
                self.connection_state = ConnectionState::Disconnected;
                self.is_connecting = false;
                RdpEventEffects {
                    tooltip: None,
                    emit_state: true,
                    toast: Some(toast("致命错误", code_message("错误代码: ", *code), ToastLevel::Error)),
                }
            },
            RdpEvent::LoginComplete(code) => {
                let t = if *code != 0 {
                    Some(toast("登录失败", code_message("错误代码: ", *code), ToastLevel::Error))
                } else {
                    None
                };
                RdpEventEffects { tooltip: None, emit_state: false, toast: t }
            },
            RdpEvent::Warning(code) => RdpEventEffects {
                tooltip: None,
                emit_state: false,
                toast: Some(toast("警告", code_message("警告代码: ", *code), ToastLevel::Warning)),
            },
            RdpEvent::AutoReconnecting(attempt, max) => {
                let mut m = code_message("尝试 ", *attempt);
                m.append("/");
                append_signed_decimal(&mut m, *max as i64);
                RdpEventEffects {
                    tooltip: None,
                    emit_state: false,
                    toast: Some(toast("重连中", m, ToastLevel::Info)),
                }
            },
            RdpEvent::AutoReconnected => RdpEventEffects {
                tooltip: None,
                emit_state: false,
                toast: Some(toast("重连成功", owned("RDP 会话已恢复"), ToastLevel::Info)),
            },
            RdpEvent::AuthenticationFailed => RdpEventEffects {
                tooltip: None,
                emit_state: false,
                toast: Some(toast("认证失败", owned("用户名或密码错误"), ToastLevel::Error)),
            },
            _ => RdpEventEffects { tooltip: None, emit_state: false, toast: None },
        }
    }

    /// The status tick: a session the events reported as connected whose host
    /// window is gone is marked disconnected; the tooltip to show when the
    /// state changed is returned.
    pub fn status_tick(&mut self, host_window_alive: bool) -> (tooltip: Option<&'static str>)
        ensures
            old(self).connection_state == ConnectionState::Connected && !host_window_alive ==> final(self).connection_state == ConnectionState::Disconnected && tooltip == Some("AkiSpace 已断开"),
            !(old(self).connection_state == ConnectionState::Connected && !host_window_alive)
                ==> final(self).connection_state == old(self).connection_state && tooltip is None,
            final(self).is_connecting == old(self).is_connecting,
            final(self).shutdown_sequence == old(self).shutdown_sequence,
            final(self).status_tick_running == old(self).status_tick_running,
    {
        let is_connected = self.connection_state == ConnectionState::Connected;
        let final_connected = is_connected && host_window_alive;
        if final_connected != is_connected {
            self.connection_state = if final_connected {
                ConnectionState::Connected
            } else {
                ConnectionState::Disconnected
            };
            return Some(if final_connected { "AkiSpace 已连接" } else { "AkiSpace 已断开" });
        }
        None
    }

    /// Starts the one-second status tick.
    pub fn start_status_tick(&mut self)
        ensures
            *final(self) == (AppCore { status_tick_running: true, ..*old(self) }),
    {
        self.status_tick_running = true;
    }

    /// Whether the status tick keeps running.
    pub fn status_tick_continues(&self) -> (r: bool)
        ensures
            r == self.status_tick_running,
    {
        self.status_tick_running
    }

    /// Starts a connect attempt; `false` (nothing changes) while one is already running.
    pub fn begin_connect(&mut self) -> (started: bool)
        ensures
            started == !old(self).is_connecting,
            final(self).is_connecting,
            started ==> final(self).connection_state == ConnectionState::Connecting,
            !started ==> final(self).connection_state == old(self).connection_state,
            final(self).shutdown_sequence == old(self).shutdown_sequence,
            final(self).status_tick_running == old(self).status_tick_running,
    {
        if self.is_connecting {
            return false;
        }
        self.is_connecting = true;
        self.connection_state = ConnectionState::Connecting;
        true
    }

    /// A connect attempt failed before any RDP event.
    pub fn connect_failed(&mut self)
        ensures
            final(self).connection_state == ConnectionState::Disconnected,
            !final(self).is_connecting,
            final(self).shutdown_sequence == old(self).shutdown_sequence,
            final(self).status_tick_running == old(self).status_tick_running,
    {
        self.is_connecting = false;
        self.connection_state = ConnectionState::Disconnected;
    }

    /// A disconnect was requested.
    pub fn begin_disconnect(&mut self)
        ensures
            final(self).connection_state == ConnectionState::Disconnecting,
            final(self).is_connecting == old(self).is_connecting,
            final(self).shutdown_sequence == old(self).shutdown_sequence,
            final(self).status_tick_running == old(self).status_tick_running,
    {
        self.connection_state = ConnectionState::Disconnecting;
    }

    /// Exit was requested: the shutdown sequence starts at step 1.
    pub fn begin_exit(&mut self) -> (first_step: u32)
        ensures
            first_step == 1,
            *final(self) == (AppCore { shutdown_sequence: 1, ..*old(self) }),
    {
        self.shutdown_sequence = 1;
        1
    }

    /// Performs the bookkeeping of shutdown step `step`; returns its action and the next step.
    pub fn close_sequence(&mut self, step: u32) -> (r: Option<(CloseAction, Option<u32>)>)
        ensures
            r == spec_close_step(step),
            final(self).shutdown_sequence == match r {
                Some((_, Some(n))) => n,
                _ => old(self).shutdown_sequence,
            },
            final(self).status_tick_running == (old(self).status_tick_running && step != 3),
            final(self).connection_state == old(self).connection_state,
            final(self).is_connecting == old(self).is_connecting,
    {
        let r = close_step(step);
        match r {
            Some((_, Some(n))) => {
                self.shutdown_sequence = n;
            },
            _ => {},
        }
        if step == 3 {
            self.status_tick_running = false;
        }
        r
    }
}

/// One step of the staged shutdown.
#[derive(Debug, Clone, Copy, PartialEq, Eq, Structural)]
pub enum CloseAction {
    DisconnectRdp,
    RemoveTrayIcon,
    StopStatusTick,
    CloseEventQueue,
    CloseToastQueue,
    DestroyRdpHost,
    DestroyWindow,
    PostQuit,
}

pub open spec fn spec_close_step(step: u32) -> Option<(CloseAction, Option<u32>)> {
    if step == 1 {
        Some((CloseAction::DisconnectRdp, Some(2u32)))
    } else if step == 2 {
        Some((CloseAction::RemoveTrayIcon, Some(3u32)))
    } else if step == 3 {
        Some((CloseAction::StopStatusTick, Some(4u32)))
    } else if step == 4 {
        Some((CloseAction::CloseEventQueue, Some(5u32)))
    } else if step == 5 {
        Some((CloseAction::CloseToastQueue, Some(6u32)))
    } else if step == 6 {
        Some((CloseAction::DestroyRdpHost, Some(7u32)))
    } else if step == 7 {
        Some((CloseAction::DestroyWindow, Some(8u32)))
    } else if step == 8 {
        Some((CloseAction::PostQuit, None))
    } else {
        None
    }
}

/// The action of shutdown step `step` and the step posted after it.
pub fn close_step(step: u32) -> (r: Option<(CloseAction, Option<u32>)>)
    ensures
        r == spec_close_step(step),
{
    if step == 1 {
        Some((CloseAction::DisconnectRdp, Some(2)))
    } else if step == 2 {
        Some((CloseAction::RemoveTrayIcon, Some(3)))
    } else if step == 3 {
        Some((CloseAction::StopStatusTick, Some(4)))
    } else if step == 4 {
        Some((CloseAction::CloseEventQueue, Some(5)))
    } else if step == 5 {
        Some((CloseAction::CloseToastQueue, Some(6)))
    } else if step == 6 {
        Some((CloseAction::DestroyRdpHost, Some(7)))
    } else if step == 7 {
        Some((CloseAction::DestroyWindow, Some(8)))
    } else if step == 8 {
        Some((CloseAction::PostQuit, None))
    } else {
        None
    }
}

/// The shutdown visits steps 1 to 8 in order, each exactly once, and ends
/// by posting `WM_QUIT`.
pub proof fn lemma_close_sequence_advances(step: u32)
    requires
        1 <= step <= 8,
    ensures
        step < 8 ==> (spec_close_step(step) matches Some((_, Some(n))) && n == step + 1),
        step == 8 ==> spec_close_step(step) == Some((CloseAction::PostQuit, None::<u32>)),
{
}

/// Whether a toast is shown: never shown before, or last shown at least
/// 15 s ago (a clock that went back counts as no time passed).
pub fn toast_should_show(last_shown_ms: Option<u64>, now_ms: u64) -> (r: bool)
    ensures
        r == match last_shown_ms {
            None => true,
            Some(last) => now_ms >= last && now_ms - last >= TOAST_DEBOUNCE_MS,
        },
{
    match last_shown_ms {
        None => true,
        Some(last) => now_ms >= last && now_ms - last >= TOAST_DEBOUNCE_MS,
    }
}

/// An empty title and message is the signal to hide the toast.
pub fn is_toast_hide(t: &ToastMessage) -> (r: bool)
    ensures
        r == (t.title@.len() == 0 && t.message@.len() == 0),
{
    t.title.as_str().is_empty() && t.message.as_str().is_empty()
}

/// `{title}: {message}`, as shown in the tray tooltip.
pub fn toast_tooltip(t: &ToastMessage) -> (s: String)
    ensures
        s@ == t.title@ + ": "@ + t.message@,
{
    let mut s = owned(t.title.as_str());
    s.append(": ");
    s.append(t.message.as_str());
    s
}

/// The message of a toast event: the bare message when there is no title.
pub fn toast_event_message(t: &ToastMessage) -> (s: String)
    ensures
        s@ == if t.title@.len() == 0 {
            t.message@
        } else {
            t.title@ + ": "@ + t.message@
        },
{
    if t.title.as_str().is_empty() {
        owned(t.message.as_str())
    } else {
        toast_tooltip(t)
    }
}

/// The level name of a toast event.
pub fn toast_level_name(l: ToastLevel) -> (s: &'static str)
    ensures
        s@ == match l {
            ToastLevel::Info => "info"@,
            ToastLevel::Warning => "warning"@,
            ToastLevel::Error => "error"@,
        },
{
    match l {
        ToastLevel::Info => "info",
        ToastLevel::Warning => "warning",
        ToastLevel::Error => "error",
    }
}

/// The status shown by the UI; disconnecting is shown as disconnected.
pub fn connection_status_name(state: ConnectionState) -> (s: &'static str)
    ensures
        s@ == match state {
            ConnectionState::Connected => "connected"@,
            ConnectionState::Connecting => "connecting"@,
            _ => "disconnected"@,
        },
{
    match state {
        ConnectionState::Connected => "connected",
        ConnectionState::Connecting => "connecting",
        ConnectionState::Disconnecting | ConnectionState::Disconnected => "disconnected",
    }
}

/// The network status shown by the status tick.
pub fn network_status_name(state: ConnectionState) -> (s: &'static str)
    ensures
        s@ == if state == ConnectionState::Connected {
            "正常"@
        } else {
            "未连接"@
        },
{
    if state == ConnectionState::Connected {
        "正常"
    } else {
        "未连接"
    }
}

/// Physical memory in use, in MiB.
pub fn memory_used_mb(total_phys: u64, avail_phys: u64) -> (mb: u64)
    requires
        avail_phys <= total_phys,
    ensures
        mb == (total_phys - avail_phys) / 1024 / 1024,
{
    (total_phys - avail_phys) / 1024 / 1024
}

/// The toast after the game-mouse mode was toggled.
pub fn game_mouse_toast(enabled: bool) -> (t: ToastMessage)
    ensures
        toast_view(t) == ("游戏鼠标"@, if enabled { "已启用"@ } else { "已禁用"@ }, ToastLevel::Info),
{
    toast("游戏鼠标", if enabled { owned("已启用") } else { owned("已禁用") }, ToastLevel::Info)
}

/// The toast after a launch request: no program configured, no child
/// session, or the session it was started in.
pub fn launch_program_toast(path_configured: bool, child_session: Option<u32>) -> (t: ToastMessage)
    ensures
        !path_configured ==> toast_view(t) == ("启动失败"@, "未配置程序路径"@, ToastLevel::Warning),
        path_configured && child_session is None ==> toast_view(t) == (
            "启动失败"@,
            "未找到子会话"@,
            ToastLevel::Error,
        ),
        child_session matches Some(id) ==> path_configured ==> toast_view(t) == (
            "启动程序"@,
            "在会话 "@ + dec_chars(id as nat) + " 中启动"@,
            ToastLevel::Info,
        ),
{
    if !path_configured {
        return toast("启动失败", owned("未配置程序路径"), ToastLevel::Warning);
    }
    match child_session {
        None => toast("启动失败", owned("未找到子会话"), ToastLevel::Error),
        Some(id) => {
            let mut m = owned("在会话 ");
            append_decimal(&mut m, id as u64);
            m.append(" 中启动");
            toast("启动程序", m, ToastLevel::Info)
        },
    }
}

/// The server a connect goes to: the local machine's own RDP listener.
pub const LOOPBACK_SERVER: &'static str = "127.0.0.1";

/// The tooltip while a connect attempt runs.
pub const CONNECTING_TOOLTIP: &'static str = "AkiSpace 连接中...";

/// The tooltip after a disconnect was requested.
pub const DISCONNECTING_TOOLTIP: &'static str = "AkiSpace 断开中...";

/// The tooltip once a toast was hidden.
pub const IDLE_TOOLTIP: &'static str = "AkiSpace";

/// The toast when the RDP host could not be created.
pub fn host_creation_failed_toast(error: &str) -> (t: ToastMessage)
    ensures
        toast_view(t) == ("连接失败"@, "创建 RDP 主机失败: "@ + error@, ToastLevel::Error),
{
    let mut m = owned("创建 RDP 主机失败: ");
    m.append(error);
    toast("连接失败", m, ToastLevel::Error)
}

/// The toast when the connect call itself failed.
pub fn connect_failed_toast(error: &str) -> (t: ToastMessage)
    ensures
        toast_view(t) == ("连接失败"@, error@, ToastLevel::Error),
{
    toast("连接失败", owned(error), ToastLevel::Error)
}

/// The toast after the child session was logged off.
pub fn terminate_toast() -> (t: ToastMessage)
    ensures
        toast_view(t) == ("会话终止"@, "子会话已注销"@, ToastLevel::Info),
{
    toast("会话终止", owned("子会话已注销"), ToastLevel::Info)
}

/// The toast of the settings command.
pub fn settings_toast() -> (t: ToastMessage)
    ensures
        toast_view(t) == ("设置"@, "设置面板待实现"@, ToastLevel::Info),
{
    toast("设置", owned("设置面板待实现"), ToastLevel::Info)
}

/// The toast that hides the shown one: empty title and message.
pub fn hide_toast() -> (t: ToastMessage)
    ensures
        toast_view(t) == (Seq::<char>::empty(), Seq::<char>::empty(), ToastLevel::Info),
{
    ToastMessage { title: String::new(), message: String::new(), level: ToastLevel::Info }
}

/// The session id the UI is told of: the child session's, and only while connected.
pub fn reported_session_id(state: ConnectionState, child_session: Option<u32>) -> (id: Option<
    String,
>)
    ensures
        state == ConnectionState::Connected && child_session is Some ==> (id matches Some(s)
            && s@ == dec_chars(child_session->0 as nat)),
        !(state == ConnectionState::Connected && child_session is Some) ==> id is None,
{
    if state == ConnectionState::Connected {
        match child_session {
            Some(n) => {
                let mut s = String::new();
                append_decimal(&mut s, n as u64);
                Some(s)
            },
            None => None,
        }
    } else {
        None
    }
}

/// The lines of the environment report, in order.
pub open spec fn spec_env_report_lines(
    child_sessions: Result<bool, Seq<char>>,
    port: u16,
    listener_active: bool,
    wrapper_installed: bool,
    termsrv: Result<Seq<char>, Seq<char>>,
) -> Seq<Seq<char>> {
    seq![
        match child_sessions {
            Ok(true) => "子会话: 已启用"@,
            Ok(false) => "子会话: 未启用"@,
            Err(e) => "子会话检查失败: "@ + e,
        },
        "RDP 端口: "@ + dec_chars(port as nat),
        if listener_active {
            "RDP 监听: 正常"@
        } else {
            "RDP 监听: 异常"@
        },
        if wrapper_installed {
            "RDP Wrapper: 已安装"@
        } else {
            "RDP Wrapper: 未安装"@
        },
        match termsrv {
            Ok(v) => "termsrv.dll: "@ + v,
            Err(e) => "termsrv.dll 版本获取失败: "@ + e,
        },
    ]
}

/// The view of a `Result` of strings.
pub open spec fn str_result_view<T>(r: Result<T, String>) -> Result<T, Seq<char>> {
    match r {
        Ok(v) => Ok(v),
        Err(e) => Err(e@),
    }
}

/// Each yes/no line of the environment report tells the two answers apart:
/// the child-session line says 已启用 (enabled) for `Ok(true)` and 未启用
/// (not enabled) for `Ok(false)`, the listener line says 正常 only when the
/// listener is active, and the wrapper line says 已安装 only when the wrapper
/// is installed; the port line carries the port in decimal.
pub proof fn lemma_env_report_distinguishes(
    port: u16,
    listener_active: bool,
    wrapper_installed: bool,
    termsrv: Result<Seq<char>, Seq<char>>,
)
    ensures
        ({
            let on = spec_env_report_lines(Ok(true), port, listener_active, wrapper_installed, termsrv);
            let off = spec_env_report_lines(Ok(false), port, listener_active, wrapper_installed, termsrv);
            &&& on[0] != off[0]
            &&& on[0] == "子会话: "@ + "已启用"@
            &&& off[0] == "子会话: "@ + "未启用"@
            &&& on.subrange(1, 5) == off.subrange(1, 5)
        }),
        spec_env_report_lines(Ok(true), port, true, wrapper_installed, termsrv)[2]
            != spec_env_report_lines(Ok(true), port, false, wrapper_installed, termsrv)[2],
        spec_env_report_lines(Ok(true), port, listener_active, true, termsrv)[3]
            != spec_env_report_lines(Ok(true), port, listener_active, false, termsrv)[3],
        spec_env_report_lines(Ok(true), port, listener_active, wrapper_installed, termsrv)[1]
            == "RDP 端口: "@ + dec_chars(port as nat),
{
    reveal_strlit("子会话: 已启用");
    reveal_strlit("子会话: 未启用");
    reveal_strlit("子会话: ");
    reveal_strlit("已启用");
    reveal_strlit("未启用");
    reveal_strlit("RDP 监听: 正常");
    reveal_strlit("RDP 监听: 异常");
    reveal_strlit("RDP Wrapper: 已安装");
    reveal_strlit("RDP Wrapper: 未安装");
    let on = spec_env_report_lines(Ok(true), port, listener_active, wrapper_installed, termsrv);
    let off = spec_env_report_lines(Ok(false), port, listener_active, wrapper_installed, termsrv);
    assert(on[0] =~= "子会话: "@ + "已启用"@);
    assert(off[0] =~= "子会话: "@ + "未启用"@);
    assert(on[0][5] != off[0][5]);
    assert(on.subrange(1, 5) =~= off.subrange(1, 5));
    assert("RDP 监听: 正常"@[8] != "RDP 监听: 异常"@[8]);
    assert("RDP Wrapper: 已安装"@[13] != "RDP Wrapper: 未安装"@[13]);
}

/// The environment report the tray's check command shows: one line per
/// item, joined by newlines.
pub fn env_check_report(
    child_sessions: &Result<bool, String>,
    port: u16,
    listener_active: bool,
    wrapper_installed: bool,
    termsrv: &Result<String, String>,
) -> (s: String)
    ensures
        ({
            let l = spec_env_report_lines(
                str_result_view(*child_sessions),
                port,
                listener_active,
                wrapper_installed,
                match termsrv {
                    Ok(v) => Ok(v@),
                    Err(e) => Err(e@),
                },
            );
            s@ == l[0] + "\n"@ + l[1] + "\n"@ + l[2] + "\n"@ + l[3] + "\n"@ + l[4]
        }),
{
    let l0 = match child_sessions {
        Ok(true) => owned("子会话: 已启用"),
        Ok(false) => owned("子会话: 未启用"),
        Err(e) => {
            let mut m = owned("子会话检查失败: ");
            m.append(e.as_str());
            m
        },
    };
    let mut l1 = owned("RDP 端口: ");
    append_decimal(&mut l1, port as u64);
    let l2 = if listener_active { "RDP 监听: 正常" } else { "RDP 监听: 异常" };
    let l3 = if wrapper_installed { "RDP Wrapper: 已安装" } else { "RDP Wrapper: 未安装" };
    let l4 = match termsrv {
        Ok(v) => {
            let mut m = owned("termsrv.dll: ");
            m.append(v.as_str());
            m
        },
        Err(e) => {
            let mut m = owned("termsrv.dll 版本获取失败: ");
            m.append(e.as_str());
            m
        },
    };
    let mut s = l0;
    s.append("\n");
    s.append(l1.as_str());
    s.append("\n");
    s.append(l2);
    s.append("\n");
    s.append(l3);
    s.append("\n");
    s.append(l4.as_str());
    s
}

/// One remembered toast: title, message, when it was last shown (ms).
pub type ToastStamp = (String, String, u64);

/// The title and message a remembered toast is found by.
pub open spec fn stamp_key(e: ToastStamp) -> (Seq<char>, Seq<char>) {
    (e.0@, e.1@)
}

/// The table as a map from (title, message) to the time last shown; a later
/// entry for the same key wins.
pub open spec fn stamps_map(s: Seq<ToastStamp>) -> Map<(Seq<char>, Seq<char>), u64>
    decreases s.len(),
{
    if s.len() == 0 {
        Map::empty()
    } else {
        stamps_map(s.drop_last()).insert(stamp_key(s.last()), s.last().2)
    }
}

pub open spec fn keys_unique(s: Seq<ToastStamp>) -> bool {
    forall|i: int, j: int|
        0 <= i < j < s.len() ==> stamp_key(#[trigger] s[i]) != stamp_key(#[trigger] s[j])
}

proof fn lemma_stamps_contains(s: Seq<ToastStamp>, k: (Seq<char>, Seq<char>))
    ensures
        stamps_map(s).dom().contains(k) <==> exists|i: int|
            0 <= i < s.len() && stamp_key(#[trigger] s[i]) == k,
    decreases s.len(),
{
    if s.len() > 0 {
        let init = s.drop_last();
        lemma_stamps_contains(init, k);
        if stamps_map(s).dom().contains(k) {
            if stamp_key(s.last()) != k {
                let i = choose|i: int| 0 <= i < init.len() && stamp_key(#[trigger] init[i]) == k;
                assert(s[i] == init[i]);
            } else {
                assert(stamp_key(s[s.len() - 1]) == k);
            }
        }
        if exists|i: int| 0 <= i < s.len() && stamp_key(#[trigger] s[i]) == k {
            let i = choose|i: int| 0 <= i < s.len() && stamp_key(#[trigger] s[i]) == k;
            if i < s.len() - 1 {
                assert(init[i] == s[i]);
            }
        }
    }
}

proof fn lemma_stamps_value(s: Seq<ToastStamp>, i: int)
    requires
        keys_unique(s),
        0 <= i < s.len(),
    ensures
        stamps_map(s).dom().contains(stamp_key(s[i])),
        stamps_map(s)[stamp_key(s[i])] == s[i].2,
    decreases s.len(),
{
    let init = s.drop_last();
    if i < s.len() - 1 {
        assert(stamp_key(s[i]) != stamp_key(s[s.len() - 1]));
        assert(init[i] == s[i]);
        assert(keys_unique(init)) by {
            assert forall|a: int, b: int| 0 <= a < b < init.len() implies stamp_key(#[trigger] init[a])
                != stamp_key(#[trigger] init[b]) by {
                assert(init[a] == s[a] && init[b] == s[b]);
            }
        }
        lemma_stamps_value(init, i);
    }
}

proof fn lemma_stamps_update(s: Seq<ToastStamp>, i: int, e: ToastStamp)
    requires
        keys_unique(s),
        0 <= i < s.len(),
        stamp_key(e) == stamp_key(s[i]),
    ensures
        stamps_map(s.update(i, e)) == stamps_map(s).insert(stamp_key(e), e.2),
        keys_unique(s.update(i, e)),
    decreases s.len(),
{
    let t = s.update(i, e);
    let init = s.drop_last();
    assert(keys_unique(t)) by {
        assert forall|a: int, b: int| 0 <= a < b < t.len() implies stamp_key(#[trigger] t[a])
            != stamp_key(#[trigger] t[b]) by {
            assert(stamp_key(t[a]) == stamp_key(s[a]));
            assert(stamp_key(t[b]) == stamp_key(s[b]));
        }
    }
    if i == s.len() - 1 {
        assert(t.drop_last() =~= init);
        assert(stamps_map(t) =~= stamps_map(s).insert(stamp_key(e), e.2));
    } else {
        assert(keys_unique(init)) by {
            assert forall|a: int, b: int| 0 <= a < b < init.len() implies stamp_key(#[trigger] init[a])
                != stamp_key(#[trigger] init[b]) by {
                assert(init[a] == s[a] && init[b] == s[b]);
            }
        }
        lemma_stamps_update(init, i, e);
        assert(t.drop_last() =~= init.update(i, e));
        assert(t.last() == s.last());
        assert(stamp_key(s[i]) != stamp_key(s[s.len() - 1]));
        assert(stamps_map(t) =~= stamps_map(s).insert(stamp_key(e), e.2));
    }
}

/// When each toast was last shown, so a repeat within 15 s is suppressed.
pub struct ToastDebounce {
    entries: Vec<ToastStamp>,
}

impl ToastDebounce {
    #[verifier::type_invariant]
    spec fn inv(&self) -> bool {
        keys_unique(self.entries@)
    }

    /// Per (title, message): when that toast was last shown.
    pub closed spec fn shown(&self) -> Map<(Seq<char>, Seq<char>), u64> {
        stamps_map(self.entries@)
    }

    pub fn new() -> (d: Self)
        ensures
            d.shown() == Map::<(Seq<char>, Seq<char>), u64>::empty(),
    {
        ToastDebounce { entries: Vec::new() }
    }

    /// Whether the toast is shown now; if so, `now_ms` is remembered as
    /// when it was last shown.
    pub fn check_and_record(&mut self, title: &str, message: &str, now_ms: u64) -> (show: bool)
        ensures
            show == (!old(self).shown().dom().contains((title@, message@)) || ({
                let last = old(self).shown()[(title@, message@)];
                now_ms >= last && now_ms - last >= TOAST_DEBOUNCE_MS
            })),
            show ==> final(self).shown() == old(self).shown().insert((title@, message@), now_ms),
            !show ==> final(self).shown() == old(self).shown(),
    {
        proof {
            use_type_invariant(&*self);
        }
        let ghost k = (title@, message@);
        let n = self.entries.len();
        let mut i: usize = 0;
        while i < n
            invariant
                n == self.entries@.len(),
                i <= n,
                self.entries@ == old(self).entries@,
                keys_unique(self.entries@),
                k == (title@, message@),
                forall|j: int| 0 <= j < i ==> stamp_key(#[trigger] self.entries@[j]) != k,
            decreases n - i,
        {
            let same = str_eq(self.entries[i].0.as_str(), title) && str_eq(
                self.entries[i].1.as_str(),
                message,
            );
            if same {
                let last = self.entries[i].2;
                proof {
                    lemma_stamps_value(self.entries@, i as int);
                }
                if !toast_should_show(Some(last), now_ms) {
                    return false;
                }
                let e: ToastStamp = (owned(title), owned(message), now_ms);
                proof {
                    lemma_stamps_update(self.entries@, i as int, e);
                }
                let mut entries: Vec<ToastStamp> = Vec::new();
                std::mem::swap(&mut entries, &mut self.entries);
                entries.set(i, e);
                self.entries = entries;
                return true;
            }
            i = i + 1;
        }
        proof {
            lemma_stamps_contains(self.entries@, k);
        }
        let e: ToastStamp = (owned(title), owned(message), now_ms);
        let ghost before = self.entries@;
        let mut entries: Vec<ToastStamp> = Vec::new();
        std::mem::swap(&mut entries, &mut self.entries);
        entries.push(e);
        proof {
            assert(entries@.drop_last() =~= before);
            assert(keys_unique(entries@)) by {
                assert forall|a: int, b: int| 0 <= a < b < entries@.len() implies stamp_key(
                    #[trigger] entries@[a],
                ) != stamp_key(#[trigger] entries@[b]) by {
                    if b == entries@.len() - 1 {
                        assert(entries@[a] == before[a]);
                    } else {
                        assert(entries@[a] == before[a] && entries@[b] == before[b]);
                    }
                }
            }
        }
        self.entries = entries;
        true
    }
}

} // verus!
