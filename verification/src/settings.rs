//! Application settings and the three-state clone-account password: plain in
//! memory, `DPAPI:<base64>` on disk, and the on-disk literal when decryption fails.
use vstd::prelude::*;
use base64::Engine;
use crate::text::{owned, seq_starts_with, starts_with};

verus! {

/// Prefix of a protected password on disk.
pub const DPAPI_PREFIX: &'static str = "DPAPI:";

/// The character of the standard base64 alphabet for the six-bit value `v`:
/// `A`-`Z`, `a`-`z`, `0`-`9`, `+`, `/`.
pub open spec fn base64_digit(v: int) -> char {
    if v < 26 {
        ('A' as int + v) as char
    } else if v < 52 {
        ('a' as int + (v - 26)) as char
    } else if v < 62 {
        ('0' as int + (v - 52)) as char
    } else if v == 62 {
        '+'
    } else {
        '/'
    }
}

/// The padded standard base64 text of `bytes`: each group of three bytes
/// becomes four digits of six bits each, most significant first; a last
/// group of one or two bytes is filled with zero bits and padded with `=`
/// to four characters.
pub open spec fn spec_base64_encode(bytes: Seq<u8>) -> Seq<char>
    decreases bytes.len(),
{
    if bytes.len() == 0 {
        Seq::empty()
    } else if bytes.len() == 1 {
        let b0 = bytes[0] as int;
        seq![base64_digit(b0 / 4), base64_digit((b0 % 4) * 16), '=', '=']
    } else if bytes.len() == 2 {
        let b0 = bytes[0] as int;
        let b1 = bytes[1] as int;
        seq![
            base64_digit(b0 / 4),
            base64_digit((b0 % 4) * 16 + b1 / 16),
            base64_digit((b1 % 16) * 4),
            '=',
        ]
    } else {
        let b0 = bytes[0] as int;
        let b1 = bytes[1] as int;
        let b2 = bytes[2] as int;
        seq![
            base64_digit(b0 / 4),
            base64_digit((b0 % 4) * 16 + b1 / 16),
            base64_digit((b1 % 16) * 4 + b2 / 64),
            base64_digit(b2 % 64),
        ] + spec_base64_encode(bytes.skip(3))
    }
}

/// The bytes `base64` (standard alphabet, padded) decodes `text` to, if it is valid.
pub uninterp spec fn spec_base64_decode(text: Seq<char>) -> Option<Seq<u8>>;

/// The length of the padded base64 text of `n` bytes: four characters per
/// started group of three bytes.
pub open spec fn base64_len(n: nat) -> nat {
    (n / 3) * 4 + if n % 3 == 0 {
        0nat
    } else {
        4nat
    }
}

/// `base64::engine::general_purpose::STANDARD.encode`: the padded standard
/// encoding, which the same engine decodes back to the input. The engine
/// panics when the length of the text would overflow `usize`.
#[verifier::external_body]
fn base64_encode(bytes: &[u8]) -> (s: String)
    requires
        base64_len(bytes@.len()) <= usize::MAX,
    ensures
        s@ == spec_base64_encode(bytes@),
        spec_base64_decode(s@) == Some(bytes@),
{
    base64::engine::general_purpose::STANDARD.encode(bytes)
}

/// `base64::engine::general_purpose::STANDARD.decode`, with a decoding error as `None`.
#[verifier::external_body]
fn base64_decode(text: &str) -> (r: Option<Vec<u8>>)
    ensures
        match r {
            Some(b) => spec_base64_decode(text@) == Some(b@),
            None => spec_base64_decode(text@) is None,
        },
{
    base64::engine::general_purpose::STANDARD.decode(text).ok()
}

#[derive(Debug, Clone, Copy, PartialEq, Eq, Structural)]
pub enum ConnectionMode {
    StandardRdp,
    ChildSession,
}

impl Default for ConnectionMode {
    fn default() -> (m: Self)
        ensures
            m == ConnectionMode::StandardRdp,
    {
        ConnectionMode::StandardRdp
    }
}

#[derive(Debug, Clone)]
pub struct AppSettings {
    pub desktop_width: u32,
    pub desktop_height: u32,
    pub color_depth: u32,
    pub game_mouse_mode_enabled: bool,
    pub audio_redirected: bool,
    pub smart_sizing: bool,
    pub send_system_shortcuts_to_remote: bool,
    pub rdp_port: u16,
    pub auto_connect: bool,
    pub logoff_on_exit: bool,
    pub launch_program_path: Option<String>,
    pub connection_mode: ConnectionMode,
    pub clone_username: String,
    pub clone_password: String,
    pub minimize_to_tray: bool,
    pub show_performance: bool,
    pub enable_global_hotkey: bool,
    pub theme: String,
}

/// The settings of a fresh installation.
pub open spec fn is_default_settings(s: AppSettings) -> bool {
    &&& s.desktop_width == 1920
    &&& s.desktop_height == 1080
    &&& s.color_depth == 32
    &&& !s.game_mouse_mode_enabled
    &&& !s.audio_redirected
    &&& s.smart_sizing
    &&& s.send_system_shortcuts_to_remote
    &&& s.rdp_port == 3389
    &&& !s.auto_connect
    &&& s.logoff_on_exit
    &&& s.launch_program_path is None
    &&& s.connection_mode == ConnectionMode::StandardRdp
    &&& s.clone_username@ == "AkiSpaceUser"@
    &&& s.clone_password@ == Seq::<char>::empty()
    &&& s.minimize_to_tray
    &&& s.show_performance
    &&& s.enable_global_hotkey
    &&& s.theme@ == "dark"@
}

impl Default for AppSettings {
    fn default() -> (s: Self)
        ensures
            is_default_settings(s),
    {
        AppSettings {
            desktop_width: 1920,
            desktop_height: 1080,
            color_depth: 32,
            game_mouse_mode_enabled: false,
            audio_redirected: false,
            smart_sizing: true,
            send_system_shortcuts_to_remote: true,
            rdp_port: 3389,
            auto_connect: false,
            logoff_on_exit: true,
            launch_program_path: None,
            connection_mode: ConnectionMode::StandardRdp,
            clone_username: owned("AkiSpaceUser"),
            clone_password: String::new(),
            minimize_to_tray: true,
            show_performance: true,
            enable_global_hotkey: true,
            theme: owned("dark"),
        }
    }
}

/// `DPAPI:` followed by the base64 text of the encrypted blob.
pub open spec fn spec_envelope(ciphertext: Seq<u8>) -> Seq<char> {
    "DPAPI:"@ + spec_base64_encode(ciphertext)
}

/// The encrypted blob inside a stored password: present when the text starts
/// with `DPAPI:` and the rest is valid base64.
pub open spec fn spec_envelope_payload(stored: Seq<char>) -> Option<Seq<u8>> {
    if seq_starts_with(stored, "DPAPI:"@) {
        spec_base64_decode(stored.subrange(6, stored.len() as int))
    } else {
        None
    }
}

/// Wraps an encrypted password blob for storage.
pub fn dpapi_envelope(ciphertext: &[u8]) -> (s: String)
    requires
        base64_len(ciphertext@.len()) <= usize::MAX,
    ensures
        s@ == spec_envelope(ciphertext@),
        spec_envelope_payload(s@) == Some(ciphertext@),
{
    let mut s = owned("DPAPI:");
    let b64 = base64_encode(ciphertext);
    s.append(b64.as_str());
    proof {
        reveal_strlit("DPAPI:");
        assert(s@.subrange(0, 6) =~= "DPAPI:"@);
        assert(s@.subrange(6, s@.len() as int) =~= b64@);
    }
    s
}

/// The encrypted blob inside a stored password, if it is in envelope form.
pub fn dpapi_payload(stored: &str) -> (r: Option<Vec<u8>>)
    ensures
        match r {
            Some(b) => spec_envelope_payload(stored@) == Some(b@),
            None => spec_envelope_payload(stored@) is None,
        },
{
    if !starts_with(stored, "DPAPI:") {
        return None;
    }
    proof {
        reveal_strlit("DPAPI:");
    }
    let n = stored.unicode_len();
    let rest = stored.substring_char(6, n);
    base64_decode(rest)
}

/// The stored form of a password: its envelope when encryption produced a
/// blob, else the plaintext itself.
pub open spec fn spec_protected(plaintext: Seq<char>, ciphertext: Option<Seq<u8>>) -> Seq<char> {
    match ciphertext {
        Some(c) => spec_envelope(c),
        None => plaintext,
    }
}

pub open spec fn bytes_view(c: Option<Vec<u8>>) -> Option<Seq<u8>> {
    match c {
        Some(v) => Some(v@),
        None => None,
    }
}

/// The stored form of a password, given the result of encrypting it
/// (`None` when encryption failed).
pub fn protected_password(plaintext: &str, ciphertext: Option<Vec<u8>>) -> (s: String)
    requires
        ciphertext matches Some(c) ==> base64_len(c@.len()) <= usize::MAX,
    ensures
        s@ == spec_protected(plaintext@, bytes_view(ciphertext)),
{
    match ciphertext {
        Some(c) => dpapi_envelope(c.as_slice()),
        None => owned(plaintext),
    }
}

/// A password stored in plain text by an older version: non-empty and not
/// in envelope form. It is re-protected on load.
pub fn needs_password_upgrade(stored: &str) -> (r: bool)
    ensures
        r == (!seq_starts_with(stored@, "DPAPI:"@) && stored@.len() != 0),
{
    !starts_with(stored, "DPAPI:") && !stored.is_empty()
}

impl AppSettings {
    /// A field-by-field copy.
    pub fn copy(&self) -> (c: AppSettings)
        ensures
            c == *self,
    {
        AppSettings {
            desktop_width: self.desktop_width,
            desktop_height: self.desktop_height,
            color_depth: self.color_depth,
            game_mouse_mode_enabled: self.game_mouse_mode_enabled,
            audio_redirected: self.audio_redirected,
            smart_sizing: self.smart_sizing,
            send_system_shortcuts_to_remote: self.send_system_shortcuts_to_remote,
            rdp_port: self.rdp_port,
            auto_connect: self.auto_connect,
            logoff_on_exit: self.logoff_on_exit,
            launch_program_path: match &self.launch_program_path {
                Some(p) => Some(p.clone()),
                None => None,
            },
            connection_mode: self.connection_mode,
            clone_username: self.clone_username.clone(),
            clone_password: self.clone_password.clone(),
            minimize_to_tray: self.minimize_to_tray,
            show_performance: self.show_performance,
            enable_global_hotkey: self.enable_global_hotkey,
            theme: self.theme.clone(),
        }
    }

    /// The password in memory form: empty when none is stored, the decrypted
    /// text when decryption of the stored form succeeded (`decrypted`), and
    /// otherwise the stored text itself, envelope prefix included.
    pub fn get_clone_password(&self, decrypted: Option<String>) -> (p: String)
        ensures
            self.clone_password@.len() == 0 ==> p@.len() == 0,
            self.clone_password@.len() != 0 ==> p@ == match decrypted {
                Some(d) => d@,
                None => self.clone_password@,
            },
    {
        if self.clone_password.as_str().is_empty() {
            return String::new();
        }
        match decrypted {
            Some(plain) => plain,
            None => self.clone_password.clone(),
        }
    }

    /// Flips game-mouse mode; returns the new state.
    pub fn toggle_game_mouse(&mut self) -> (enabled: bool)
        ensures
            enabled == !old(self).game_mouse_mode_enabled,
            *final(self) == (AppSettings { game_mouse_mode_enabled: enabled, ..*old(self) }),
    {
        self.game_mouse_mode_enabled = !self.game_mouse_mode_enabled;
        self.game_mouse_mode_enabled
    }

    /// Stores a new password: empty stays empty, anything else is stored in
    /// protected form (`ciphertext`: the result of encrypting it).
    pub fn set_clone_password(&mut self, plaintext: &str, ciphertext: Option<Vec<u8>>)
        requires
            ciphertext matches Some(c) ==> base64_len(c@.len()) <= usize::MAX,
        ensures
            final(self).clone_password@ == if plaintext@.len() == 0 {
                Seq::<char>::empty()
            } else {
                spec_protected(plaintext@, bytes_view(ciphertext))
            },
            *final(self) == (AppSettings { clone_password: final(self).clone_password, ..*old(self) }),
    {
        self.clone_password = if plaintext.is_empty() {
            String::new()
        } else {
            protected_password(plaintext, ciphertext)
        };
    }
}

/// Holds the current settings.
pub struct SettingsService {
    inner: AppSettings,
}

impl SettingsService {
    pub closed spec fn settings(&self) -> AppSettings {
        self.inner
    }

    /// A service over the settings loaded at start-up.
    pub fn new(loaded: AppSettings) -> (s: Self)
        ensures
            s.settings() == loaded,
    {
        SettingsService { inner: loaded }
    }

    /// A copy of the current settings.
    pub fn current(&self) -> (s: AppSettings)
        ensures
            s == self.settings(),
    {
        self.inner.copy()
    }

    /// Replaces the settings with what `f` makes of them.
    pub fn update<F: FnOnce(AppSettings) -> AppSettings>(&mut self, f: F)
        requires
            f.requires((old(self).settings(),)),
        ensures
            f.ensures((old(self).settings(),), final(self).settings()),
    {
        let cur = self.inner.copy();
        self.inner = f(cur);
    }
}

} // verus!
