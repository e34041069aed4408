//! Whitelist ACLs for the pipe and the nonce file: SID string validation,
//! SDDL construction and the runtime client check.
use vstd::prelude::*;
use crate::ipc::frame::const_eq;
use crate::text::{owned, seq_starts_with, starts_with, string_from_utf8};

verus! {

/// Longest SID string accepted (in bytes).
pub const MAX_SID_LEN: usize = 184;

/// Why a whitelist could not be turned into a DACL.
#[derive(Debug)]
pub enum AclError {
    /// The whitelist is empty; an open default ACL is never used instead.
    EmptyWhitelist,
    /// A SID is not UTF-8.
    NotUtf8,
    /// A SID string has characters outside `S-1-5-…` form.
    MalformedSid(String),
}

pub enum AclErrorView {
    EmptyWhitelist,
    NotUtf8,
    MalformedSid(Seq<char>),
}

impl View for AclError {
    type V = AclErrorView;

    open spec fn view(&self) -> AclErrorView {
        match self {
            AclError::EmptyWhitelist => AclErrorView::EmptyWhitelist,
            AclError::NotUtf8 => AclErrorView::NotUtf8,
            AclError::MalformedSid(s) => AclErrorView::MalformedSid(s@),
        }
    }
}

impl AclError {
    /// The human-readable description of the error.
    pub fn message(&self) -> (m: String)
        ensures
            m@ == match self@ {
                AclErrorView::EmptyWhitelist => "ACL 白名单 SID 列表为空"@,
                AclErrorView::NotUtf8 => "SID 非合法 UTF-8"@,
                AclErrorView::MalformedSid(s) => "SID 字符串形态非法: "@ + s,
            },
    {
        match self {
            AclError::EmptyWhitelist => owned("ACL 白名单 SID 列表为空"),
            AclError::NotUtf8 => owned("SID 非合法 UTF-8"),
            AclError::MalformedSid(s) => {
                let mut m = owned("SID 字符串形态非法: ");
                m.append(s.as_str());
                m
            },
        }
    }
}

pub open spec fn sid_char_ok(c: char) -> bool {
    ('0' <= c && c <= '9') || c == '-' || c == 's' || c == 'S'
}

/// A SID string: non-empty, at most 184 bytes, starting `S-`, made of
/// digits, `-` and `s`/`S` only.
pub open spec fn spec_valid_sid_string(s: Seq<char>) -> bool {
    &&& s.len() > 0
    &&& vstd::utf8::encode_utf8(s).len() <= MAX_SID_LEN
    &&& seq_starts_with(s, seq!['S', '-'])
    &&& forall|i: int| 0 <= i < s.len() ==> sid_char_ok(#[trigger] s[i])
}

/// Guards the SDDL text against injection: only `S-1-5-…` shaped SID strings pass.
pub fn valid_sid_string(s: &str) -> (r: bool)
    ensures
        r == spec_valid_sid_string(s@),
{
    if s.is_empty() {
        return false;
    }
    if s.as_bytes().len() > MAX_SID_LEN {
        return false;
    }
    proof {
        reveal_strlit("S-");
        assert("S-"@ =~= seq!['S', '-']);
    }
    if !starts_with(s, "S-") {
        assert(!seq_starts_with(s@, seq!['S', '-']));
        return false;
    }
    let n = s.unicode_len();
    let mut i: usize = 0;
    while i < n
        invariant
            n == s@.len(),
            i <= n,
            forall|k: int| 0 <= k < i ==> sid_char_ok(#[trigger] s@[k]),
        decreases n - i,
    {
        let c = s.get_char(i);
        if !(('0' <= c && c <= '9') || c == '-' || c == 's' || c == 'S') {
            assert(!sid_char_ok(s@[i as int]));
            return false;
        }
        i = i + 1;
    }
    assert(seq_starts_with(s@, seq!['S', '-']));
    true
}

/// What a SID contributes to the whitelist check: nothing when it is a
/// well-formed UTF-8 SID string, otherwise the error it raises.
pub open spec fn sid_problem(b: Seq<u8>) -> Option<AclErrorView> {
    if !vstd::utf8::valid_utf8(b) {
        Some(AclErrorView::NotUtf8)
    } else if !spec_valid_sid_string(vstd::utf8::decode_utf8(b)) {
        Some(AclErrorView::MalformedSid(vstd::utf8::decode_utf8(b)))
    } else {
        None
    }
}

/// The access-allowed entry that grants GENERIC_ALL to `sid`.
pub open spec fn ace(sid: Seq<char>) -> Seq<char> {
    "(A;;GA;;;"@ + sid + ")"@
}

/// The protected DACL (`D:P`, no inheritance) built from the SIDs, in order;
/// the first bad SID stops the build.
pub open spec fn sddl_prefix(sids: Seq<Seq<u8>>) -> Result<Seq<char>, AclErrorView>
    decreases sids.len(),
{
    if sids.len() == 0 {
        Ok("D:P"@)
    } else {
        match sddl_prefix(sids.drop_last()) {
            Err(e) => Err(e),
            Ok(acc) => match sid_problem(sids.last()) {
                Some(e) => Err(e),
                None => Ok(acc + ace(vstd::utf8::decode_utf8(sids.last()))),
            },
        }
    }
}

/// The DACL text for a whitelist of SIDs.
pub open spec fn spec_pipe_dacl(sids: Seq<Seq<u8>>) -> Result<Seq<char>, AclErrorView> {
    if sids.len() == 0 {
        Err(AclErrorView::EmptyWhitelist)
    } else {
        sddl_prefix(sids)
    }
}

pub open spec fn byte_lists(v: Seq<Vec<u8>>) -> Seq<Seq<u8>> {
    Seq::new(v.len(), |i: int| v[i]@)
}

pub open spec fn acl_result_view(r: Result<String, AclError>) -> Result<Seq<char>, AclErrorView> {
    match r {
        Ok(s) => Ok(s@),
        Err(e) => Err(e@),
    }
}

/// Builds the whitelist DACL (SDDL text) shared by the pipe and the nonce
/// file: `D:P` followed by one GENERIC_ALL entry per SID. An empty whitelist
/// or a malformed SID is an error, never an open default.
pub fn build_pipe_dacl_sddl(sids: &[Vec<u8>]) -> (res: Result<String, AclError>)
    ensures
        acl_result_view(res) == spec_pipe_dacl(byte_lists(sids@)),
{
    if sids.len() == 0 {
        return Err(AclError::EmptyWhitelist);
    }
    proof {
        reveal_strlit("D:P");
    }
    let mut sddl = owned("D:P");
    let n = sids.len();
    let mut i: usize = 0;
    while i < n
        invariant
            n == sids@.len(),
            i <= n,
            sddl_prefix(byte_lists(sids@).subrange(0, i as int)) == Ok::<
                Seq<char>,
                AclErrorView,
            >(sddl@),
        decreases n - i,
    {
        let ghost prefix = byte_lists(sids@).subrange(0, i as int);
        assert(byte_lists(sids@).subrange(0, i + 1).drop_last() =~= prefix);
        assert(byte_lists(sids@).subrange(0, i + 1).last() == sids@[i as int]@);
        let bytes = vstd::slice::slice_to_vec(sids[i].as_slice());
        let text = match string_from_utf8(bytes) {
            Some(t) => t,
            None => {
                proof {
                    lemma_sddl_prefix_error_persists(byte_lists(sids@), (i + 1) as int);
                }
                return Err(AclError::NotUtf8);
            },
        };
        if !valid_sid_string(text.as_str()) {
            proof {
                lemma_sddl_prefix_error_persists(byte_lists(sids@), (i + 1) as int);
            }
            return Err(AclError::MalformedSid(text));
        }
        sddl.append("(A;;GA;;;");
        sddl.append(text.as_str());
        sddl.append(")");
        i = i + 1;
        proof {
            assert(sddl@ =~= sddl_prefix(prefix)->Ok_0 + ace(text@));
        }
    }
    assert(byte_lists(sids@).subrange(0, n as int) =~= byte_lists(sids@));
    Ok(sddl)
}

/// Once a prefix of the whitelist fails, the whole whitelist fails the same way.
proof fn lemma_sddl_prefix_error_persists(sids: Seq<Seq<u8>>, k: int)
    requires
        0 <= k <= sids.len(),
        sddl_prefix(sids.subrange(0, k)) is Err,
    ensures
        sddl_prefix(sids) == sddl_prefix(sids.subrange(0, k)),
    decreases sids.len() - k,
{
    if k < sids.len() {
        assert(sids.subrange(0, k + 1).drop_last() =~= sids.subrange(0, k));
        lemma_sddl_prefix_error_persists(sids, k + 1);
    } else {
        assert(sids.subrange(0, k) =~= sids);
    }
}

/// The whitelist DACL can be built exactly when the whitelist is non-empty
/// and every SID is a well-formed UTF-8 SID string; it then begins with the
/// protected-DACL marker `D:P`.
pub proof fn lemma_pipe_dacl_ok_iff(sids: Seq<Seq<u8>>)
    ensures
        spec_pipe_dacl(sids) is Ok <==> (sids.len() > 0 && forall|i: int|
            0 <= i < sids.len() ==> sid_problem(#[trigger] sids[i]) is None),
        spec_pipe_dacl(sids) is Ok ==> seq_starts_with(spec_pipe_dacl(sids)->Ok_0, "D:P"@),
{
    lemma_sddl_prefix_ok_iff(sids);
}

proof fn lemma_sddl_prefix_ok_iff(sids: Seq<Seq<u8>>)
    ensures
        sddl_prefix(sids) is Ok <==> (forall|i: int|
            0 <= i < sids.len() ==> sid_problem(#[trigger] sids[i]) is None),
        sddl_prefix(sids) is Ok ==> seq_starts_with(sddl_prefix(sids)->Ok_0, "D:P"@),
    decreases sids.len(),
{
    reveal_strlit("D:P");
    if sids.len() > 0 {
        let init = sids.drop_last();
        lemma_sddl_prefix_ok_iff(init);
        if sddl_prefix(sids) is Ok {
            assert forall|i: int| 0 <= i < sids.len() implies sid_problem(
                #[trigger] sids[i],
            ) is None by {
                if i < sids.len() - 1 {
                    assert(init[i] == sids[i]);
                }
            }
            let acc = sddl_prefix(init)->Ok_0;
            let full = sddl_prefix(sids)->Ok_0;
            assert(full.subrange(0, 3) =~= acc.subrange(0, 3));
        } else {
            if forall|i: int| 0 <= i < sids.len() ==> sid_problem(#[trigger] sids[i]) is None {
                assert forall|i: int| 0 <= i < init.len() implies sid_problem(
                    #[trigger] init[i],
                ) is None by {
                    assert(sids[i] == init[i]);
                }
                assert(sid_problem(sids[sids.len() - 1]) is None);
            }
        }
    } else {
        reveal_strlit("D:P");
        assert("D:P"@.subrange(0, 3) =~= "D:P"@);
    }
}

/// The whitelist of the pipe and nonce file: the current user, SYSTEM and,
/// when given, the clone account.
pub fn allowed_sids(current_user: Vec<u8>, system: Vec<u8>, clone: Option<Vec<u8>>) -> (sids: Vec<
    Vec<u8>,
>)
    ensures
        sids@ == match clone {
            Some(c) => seq![current_user, system, c],
            None => seq![current_user, system],
        },
{
    let mut sids: Vec<Vec<u8>> = Vec::new();
    sids.push(current_user);
    sids.push(system);
    match clone {
        Some(c) => {
            sids.push(c);
        },
        None => {},
    }
    assert(sids@ =~= match clone {
        Some(c) => seq![current_user, system, c],
        None => seq![current_user, system],
    });
    sids
}

/// `sid` is one of the listed SIDs.
pub open spec fn sid_listed(list: Seq<Vec<u8>>, sid: Seq<u8>) -> bool {
    exists|i: int| 0 <= i < list.len() && (#[trigger] list[i])@ == sid
}

/// Whether the client's SID string is on the whitelist.
pub fn check_client_sid(client_sid: &[u8], allowed: &[Vec<u8>]) -> (r: bool)
    ensures
        r == sid_listed(allowed@, client_sid@),
{
    let n = allowed.len();
    let mut i: usize = 0;
    while i < n
        invariant
            n == allowed@.len(),
            i <= n,
            forall|k: int| 0 <= k < i ==> (#[trigger] allowed@[k])@ != client_sid@,
        decreases n - i,
    {
        if const_eq(allowed[i].as_slice(), client_sid) {
            return true;
        }
        i = i + 1;
    }
    false
}

/// The tightened DACL of a nonce file: current user and SYSTEM, then any
/// extra SIDs (such as the clone account, which must delete the file).
pub fn tight_file_dacl(current_user: &[u8], system: &[u8], extra_sids: &[Vec<u8>]) -> (res: Result<
    String,
    AclError,
>)
    ensures
        acl_result_view(res) == spec_pipe_dacl(
            seq![current_user@, system@] + byte_lists(extra_sids@),
        ),
{
    let mut sids: Vec<Vec<u8>> = Vec::new();
    sids.push(vstd::slice::slice_to_vec(current_user));
    sids.push(vstd::slice::slice_to_vec(system));
    let n = extra_sids.len();
    let mut i: usize = 0;
    while i < n
        invariant
            n == extra_sids@.len(),
            i <= n,
            byte_lists(sids@) == seq![current_user@, system@] + byte_lists(
                extra_sids@.subrange(0, i as int),
            ),
        decreases n - i,
    {
        let ghost before = sids@;
        let v = vstd::slice::slice_to_vec(extra_sids[i].as_slice());
        sids.push(v);
        assert(byte_lists(sids@) =~= byte_lists(before).push(extra_sids@[i as int]@));
        assert(byte_lists(extra_sids@.subrange(0, i + 1)) =~= byte_lists(
            extra_sids@.subrange(0, i as int),
        ).push(extra_sids@[i as int]@));
        i = i + 1;
        assert(byte_lists(sids@) =~= seq![current_user@, system@] + byte_lists(
            extra_sids@.subrange(0, i as int),
        ));
    }
    assert(extra_sids@.subrange(0, n as int) =~= extra_sids@);
    build_pipe_dacl_sddl(sids.as_slice())
}

} // verus!
