//! Nonce files: random GUID file names, selection of the newest nonce file in
//! a directory, the stale-file sweep, and the 32-byte length check.
use vstd::prelude::*;
use rand::RngCore;
use crate::ipc::frame::{FrameError, NONCE_LEN};
use crate::text::{ends_with, owned, seq_ends_with, seq_starts_with, starts_with};

verus! {

pub open spec fn is_lower_hex(c: char) -> bool {
    ('0' <= c && c <= '9') || ('a' <= c && c <= 'f')
}

/// `nonce_*.bin`: the names the sweep and the newest-file search look at.
pub open spec fn spec_is_nonce_file_name(name: Seq<char>) -> bool {
    seq_starts_with(name, "nonce_"@) && seq_ends_with(name, ".bin"@)
}

/// `Uuid::new_v4().as_simple().to_string()`: a random version-4 UUID in
/// simple form, which the uuid crate renders as 32 lowercase hexadecimal
/// digits. Which digits come out is left open.
#[verifier::external_body]
pub(crate) fn random_guid_simple() -> (s: String)
    ensures
        s@.len() == 32,
        forall|i: int| 0 <= i < 32 ==> is_lower_hex(#[trigger] s@[i]),
{
    uuid::Uuid::new_v4().as_simple().to_string()
}

/// `rand::thread_rng().fill_bytes`: 32 random bytes. Nothing is promised of
/// their values.
#[verifier::external_body]
fn random_nonce_bytes() -> (n: [u8; NONCE_LEN]) {
    let mut nonce = [0u8; NONCE_LEN];
    rand::thread_rng().fill_bytes(&mut nonce);
    nonce
}

/// A fresh random nonce.
pub fn generate_nonce() -> (n: [u8; NONCE_LEN]) {
    random_nonce_bytes()
}

/// Whether `name` has the `nonce_*.bin` shape.
pub fn is_nonce_file_name(name: &str) -> (r: bool)
    ensures
        r == spec_is_nonce_file_name(name@),
{
    starts_with(name, "nonce_") && ends_with(name, ".bin")
}

/// `nonce_<32 hex digits>.bin`, with a fresh random GUID so that concurrent
/// handshakes never share a file.
pub fn new_nonce_file_name() -> (name: String)
    ensures
        spec_is_nonce_file_name(name@),
        name@.len() == 42,
        forall|i: int| 6 <= i < 38 ==> is_lower_hex(#[trigger] name@[i]),
{
    let guid = random_guid_simple();
    let mut name = owned("nonce_");
    name.append(guid.as_str());
    name.append(".bin");
    proof {
        reveal_strlit("nonce_");
        reveal_strlit(".bin");
        assert(name@.subrange(0, 6) =~= "nonce_"@);
        assert(name@.subrange(38, 42) =~= ".bin"@);
        assert forall|i: int| 6 <= i < 38 implies is_lower_hex(#[trigger] name@[i]) by {
            assert(name@[i] == guid@[i - 6]);
        }
    }
    name
}

/// One entry of a directory listing: its file name, full path, and
/// modification time in nanoseconds relative to the Unix epoch (`None` when
/// the time could not be read).
pub struct NonceDirEntry {
    pub name: String,
    pub path: String,
    pub modified: Option<i128>,
}

/// Entry `i` is a candidate: a nonce file whose time could be read.
pub open spec fn candidate(entries: Seq<NonceDirEntry>, i: int) -> bool {
    0 <= i < entries.len() && spec_is_nonce_file_name(entries[i].name@)
        && entries[i].modified is Some
}

/// Entry `i` is the newest candidate, the first one listed among equally new ones.
pub open spec fn is_latest(entries: Seq<NonceDirEntry>, i: int) -> bool {
    &&& candidate(entries, i)
    &&& forall|j: int|
        #![trigger candidate(entries, j)]
        candidate(entries, j) ==> entries[j].modified->0 <= entries[i].modified->0
    &&& forall|j: int|
        #![trigger candidate(entries, j)]
        0 <= j < i && candidate(entries, j) ==> entries[j].modified->0 < entries[i].modified->0
}

/// The newest nonce file among the entries, if there is one.
pub fn latest_nonce_entry(entries: &[NonceDirEntry]) -> (r: Option<usize>)
    ensures
        r matches Some(i) ==> is_latest(entries@, i as int),
        r is None ==> forall|j: int| !candidate(entries@, j),
{
    let n = entries.len();
    let mut best: Option<usize> = None;
    let mut i: usize = 0;
    while i < n
        invariant
            n == entries@.len(),
            i <= n,
            best matches Some(b) ==> b < i && candidate(entries@, b as int) && (forall|j: int|
                #![trigger candidate(entries@, j)]
                0 <= j < i && candidate(entries@, j) ==> entries@[j].modified->0
                    <= entries@[b as int].modified->0) && (forall|j: int|
                #![trigger candidate(entries@, j)]
                0 <= j < b && candidate(entries@, j) ==> entries@[j].modified->0
                    < entries@[b as int].modified->0),
            best is None ==> forall|j: int| 0 <= j < i ==> !candidate(entries@, j),
        decreases n - i,
    {
        let e = &entries[i];
        if is_nonce_file_name(e.name.as_str()) {
            match e.modified {
                Some(t) => {
                    let better = match best {
                        None => true,
                        Some(b) => match entries[b].modified {
                            Some(bt) => t > bt,
                            None => true,
                        },
                    };
                    if better {
                        best = Some(i);
                    }
                },
                None => {},
            }
        }
        i = i + 1;
    }
    best
}

/// Where a nonce is read from: for a directory, the path of its newest nonce
/// file (if any); for anything else, the path itself.
pub fn resolve_nonce_target(path: &str, is_dir: bool, entries: &[NonceDirEntry]) -> (r: Option<
    String,
>)
    ensures
        !is_dir ==> (r matches Some(p) && p@ == path@),
        is_dir ==> (r is None <==> forall|j: int| !candidate(entries@, j)),
        is_dir ==> (r matches Some(p) ==> exists|i: int|
            is_latest(entries@, i) && p@ == (#[trigger] entries@[i]).path@),
{
    if !is_dir {
        return Some(owned(path));
    }
    match latest_nonce_entry(entries) {
        Some(i) => {
            let p = owned(entries[i].path.as_str());
            assert(is_latest(entries@, i as int) && p@ == entries@[i as int].path@);
            Some(p)
        },
        None => None,
    }
}

/// The entries a sweep deletes: every nonce file, nothing else.
pub fn sweep_targets(names: &[String]) -> (idx: Vec<usize>)
    ensures
        forall|k: int| 0 <= k < idx@.len() ==> idx@[k] < names@.len() && spec_is_nonce_file_name(
            names@[idx@[k] as int]@,
        ),
        forall|j: int|
            0 <= j < names@.len() && spec_is_nonce_file_name(#[trigger] names@[j]@) ==> idx@.contains(
                j as usize,
            ),
        forall|a: int, b: int| 0 <= a < b < idx@.len() ==> idx@[a] < idx@[b],
{
    let n = names.len();
    let mut idx: Vec<usize> = Vec::new();
    let mut i: usize = 0;
    while i < n
        invariant
            n == names@.len(),
            i <= n,
            forall|k: int| 0 <= k < idx@.len() ==> idx@[k] < i && spec_is_nonce_file_name(
                names@[idx@[k] as int]@,
            ),
            forall|j: int|
                0 <= j < i && spec_is_nonce_file_name(#[trigger] names@[j]@) ==> idx@.contains(
                    j as usize,
                ),
            forall|a: int, b: int| 0 <= a < b < idx@.len() ==> idx@[a] < idx@[b],
        decreases n - i,
    {
        if is_nonce_file_name(names[i].as_str()) {
            let ghost before = idx@;
            idx.push(i);
            assert forall|j: int|
                0 <= j < i + 1 && spec_is_nonce_file_name(#[trigger] names@[j]@) implies idx@.contains(
                j as usize,
            ) by {
                if j < i {
                    let w = choose|w: int| 0 <= w < before.len() && before[w] == j as usize;
                    assert(idx@[w] == j as usize);
                } else {
                    assert(idx@[idx@.len() - 1] == j as usize);
                }
            }
        }
        i = i + 1;
    }
    idx
}

/// The nonce held in a file's bytes: exactly 32 bytes, else `Nonce 长度错误`.
pub fn nonce_from_bytes(bytes: &[u8]) -> (r: Result<[u8; NONCE_LEN], FrameError>)
    ensures
        bytes@.len() == NONCE_LEN ==> (r matches Ok(n) && n@ == bytes@),
        bytes@.len() != NONCE_LEN ==> r == Err::<[u8; NONCE_LEN], FrameError>(
            FrameError::NonceLength,
        ),
{
    if bytes.len() != NONCE_LEN {
        return Err(FrameError::NonceLength);
    }
    let mut nonce = [0u8; NONCE_LEN];
    let mut i: usize = 0;
    while i < NONCE_LEN
        invariant
            bytes@.len() == NONCE_LEN,
            nonce@.len() == NONCE_LEN,
            i <= NONCE_LEN,
            forall|k: int| 0 <= k < i ==> nonce@[k] == bytes@[k],
        decreases NONCE_LEN - i,
    {
        nonce[i] = bytes[i];
        i = i + 1;
    }
    assert(nonce@ =~= bytes@);
    Ok(nonce)
}

} // verus!
