//! Session facts derived from the registry and the termsrv.dll version: the
//! configured RDP port, RDP Wrapper detection, and the version shown to the user.
use vstd::prelude::*;
use crate::text::{contains, owned, seq_contains};

verus! {

/// Port used when the registry holds no usable port.
pub const DEFAULT_RDP_PORT: u16 = 3389;

/// What `str::to_lowercase` makes of `s`.
pub uninterp spec fn spec_to_lowercase(s: Seq<char>) -> Seq<char>;

/// `str::to_lowercase`: the Unicode lowercase mapping of `s`.
#[verifier::external_body]
pub(crate) fn to_lowercase(s: &str) -> (r: String)
    ensures
        r@ == spec_to_lowercase(s@),
{
    s.to_lowercase()
}

/// An already-lowercased service DLL path that names an RDP Wrapper DLL.
pub open spec fn spec_names_wrapper_dll(lower: Seq<char>) -> bool {
    seq_contains(lower, "rdpwrap.dll"@) || seq_contains(lower, "termwrap.dll"@)
}

/// Whether a lowercased service DLL path names `rdpwrap.dll` or `termwrap.dll`.
pub fn names_wrapper_dll(lower: &str) -> (r: bool)
    ensures
        r == spec_names_wrapper_dll(lower@),
{
    contains(lower, "rdpwrap.dll") || contains(lower, "termwrap.dll")
}

/// Whether a TermService `ServiceDll` value points at an RDP Wrapper DLL, in any letter case.
pub fn is_wrapper_service_dll(service_dll: &str) -> (r: bool)
    ensures
        r == spec_names_wrapper_dll(spec_to_lowercase(service_dll@)),
{
    let lower = to_lowercase(service_dll);
    names_wrapper_dll(lower.as_str())
}

/// The RDP port from the `PortNumber` registry value (`None` when it could
/// not be read): a value in 1..=65535 is used, anything else falls back to 3389.
pub fn get_configured_rdp_port(port_value: Option<u32>) -> (port: u16)
    ensures
        port == match port_value {
            Some(p) => if 0 < p && p <= 65535 {
                p as u16
            } else {
                DEFAULT_RDP_PORT
            },
            None => DEFAULT_RDP_PORT,
        },
{
    match port_value {
        Some(p) => {
            if p > 0 && p <= 65535 {
                p as u16
            } else {
                DEFAULT_RDP_PORT
            }
        },
        None => DEFAULT_RDP_PORT,
    }
}

/// Whether RDP Wrapper is installed, from the TermService `ServiceDll` value
/// (`None` when it could not be read, which counts as not installed).
pub fn is_rdp_wrapper_installed(service_dll: Option<&str>) -> (r: bool)
    ensures
        r == match service_dll {
            Some(d) => spec_names_wrapper_dll(spec_to_lowercase(d@)),
            None => false,
        },
{
    match service_dll {
        Some(d) => is_wrapper_service_dll(d),
        None => false,
    }
}

/// The text up to (not including) the third `.`: the first three
/// dot-separated fields, as `split('.').take(3).join(".")` gives them.
pub open spec fn keep_fields(s: Seq<char>, dots_allowed: nat) -> Seq<char>
    decreases s.len(),
{
    if s.len() == 0 {
        s
    } else if s[0] == '.' {
        if dots_allowed == 0 {
            Seq::empty()
        } else {
            seq!['.'] + keep_fields(s.drop_first(), (dots_allowed - 1) as nat)
        }
    } else {
        seq![s[0]] + keep_fields(s.drop_first(), dots_allowed)
    }
}

/// A file version such as `10.0.19041.1` shortened to `10.0.19041`.
pub fn truncate_version(version: &str) -> (r: String)
    ensures
        r@ == keep_fields(version@, 2),
{
    let n = version.unicode_len();
    let mut dots: usize = 0;
    let mut i: usize = 0;
    assert(version@.subrange(0, n as int) =~= version@);
    assert(version@.subrange(0, 0) + version@ =~= version@);
    while i < n
        invariant
            n == version@.len(),
            i <= n,
            dots <= 2,
            keep_fields(version@, 2) == version@.subrange(0, i as int) + keep_fields(
                version@.subrange(i as int, n as int),
                (2 - dots) as nat,
            ),
        decreases n - i,
    {
        let c = version.get_char(i);
        let ghost tail = version@.subrange(i as int, n as int);
        assert(tail.drop_first() =~= version@.subrange(i + 1, n as int));
        assert(tail[0] == c);
        if c == '.' {
            if dots == 2 {
                assert(keep_fields(tail, 0) =~= Seq::<char>::empty());
                assert(version@.subrange(0, i as int) + Seq::<char>::empty() =~= version@.subrange(
                    0,
                    i as int,
                ));
                return owned(version.substring_char(0, i));
            }
            dots = dots + 1;
        }
        i = i + 1;
        assert(version@.subrange(0, i as int) =~= version@.subrange(0, i - 1) + seq![c]);
    }
    assert(version@.subrange(i as int, n as int) =~= Seq::<char>::empty());
    assert(version@.subrange(0, n as int) =~= version@);
    owned(version)
}

} // verus!
