//! The clone password as DPAPI protects it: its UTF-16 text followed by a
//! terminating NUL unit, as little-endian bytes.
use vstd::prelude::*;
use crate::ipc::wire::{lemma_u16_roundtrip, u16_le, u16_of};
use crate::text::string_from_utf8;

verus! {

/// The UTF-16 code units of one character: the character itself below
/// U+10000, otherwise a high and a low surrogate.
pub open spec fn char_utf16(c: char) -> Seq<u16> {
    let v = c as u32;
    if v < 0x10000 {
        seq![v as u16]
    } else {
        seq![(0xD800 + (v - 0x10000) / 0x400) as u16, (0xDC00 + (v - 0x10000) % 0x400) as u16]
    }
}

/// The UTF-16 code units of `chars`, in order.
pub open spec fn spec_utf16(chars: Seq<char>) -> Seq<u16>
    decreases chars.len(),
{
    if chars.len() == 0 {
        Seq::empty()
    } else {
        spec_utf16(chars.drop_last()) + char_utf16(chars.last())
    }
}

/// Decoding UTF-16 as `String::from_utf16_lossy` does: a high surrogate
/// followed by a low one is one character, any other surrogate becomes
/// U+FFFD, and every other unit is the character of that value.
pub open spec fn spec_utf16_decode(units: Seq<u16>) -> Seq<char>
    decreases units.len(),
{
    if units.len() == 0 {
        Seq::empty()
    } else {
        let u0 = units[0] as u32;
        if 0xD800 <= u0 < 0xDC00 && units.len() >= 2 && 0xDC00 <= units[1] < 0xE000 {
            seq![(0x10000 + (u0 - 0xD800) * 0x400 + (units[1] - 0xDC00)) as char]
                + spec_utf16_decode(units.skip(2))
        } else if 0xD800 <= u0 < 0xE000 {
            seq!['\u{FFFD}'] + spec_utf16_decode(units.drop_first())
        } else {
            seq![u0 as char] + spec_utf16_decode(units.drop_first())
        }
    }
}

/// The units DPAPI protects for a password: its UTF-16 text and a NUL.
pub open spec fn spec_password_units(p: Seq<char>) -> Seq<u16> {
    spec_utf16(p).push(0u16)
}

/// The password read back from decrypted units: one terminating NUL, where
/// there is one, is dropped and the rest decoded.
pub open spec fn spec_password_text(units: Seq<u16>) -> Seq<char> {
    if units.len() > 0 && units.last() == 0 {
        spec_utf16_decode(units.drop_last())
    } else {
        spec_utf16_decode(units)
    }
}

fn push_char_utf16(out: &mut Vec<u16>, c: char)
    ensures
        final(out)@ == old(out)@ + char_utf16(c),
{
    let v = c as u32;
    if v < 0x10000 {
        out.push(v as u16);
    } else {
        let w = v - 0x10000;
        out.push((0xD800 + w / 0x400) as u16);
        out.push((0xDC00 + w % 0x400) as u16);
    }
    assert(final(out)@ =~= old(out)@ + char_utf16(c));
}

/// The UTF-16 text of `p` followed by a NUL unit.
pub fn password_to_utf16z(p: &str) -> (u: Vec<u16>)
    ensures
        u@ == spec_password_units(p@),
{
    let n = p.unicode_len();
    let mut u: Vec<u16> = Vec::new();
    let mut i: usize = 0;
    while i < n
        invariant
            n == p@.len(),
            i <= n,
            u@ == spec_utf16(p@.take(i as int)),
        decreases n - i,
    {
        let c = p.get_char(i);
        push_char_utf16(&mut u, c);
        assert(p@.take(i + 1).drop_last() =~= p@.take(i as int));
        i = i + 1;
    }
    assert(p@.take(n as int) =~= p@);
    u.push(0);
    u
}

/// Appends the UTF-8 bytes of the scalar value `v`.
fn push_scalar_utf8(out: &mut Vec<u8>, v: u32)
    ensures
        final(out)@ == old(out)@ + vstd::utf8::encode_scalar(v),
{
    if v <= 0x7F {
        out.push((v & 0x7F) as u8);
    } else if v <= 0x7FF {
        out.push(0xC0 | ((v >> 6) & 0x1F) as u8);
        out.push(0x80 | (v & 0x3F) as u8);
    } else if v <= 0xFFFF && !(0xD800 <= v && v <= 0xDFFF) {
        out.push(0xE0 | ((v >> 12) & 0x0F) as u8);
        out.push(0x80 | ((v >> 6) & 0x3F) as u8);
        out.push(0x80 | (v & 0x3F) as u8);
    } else {
        out.push(0xF0 | ((v >> 18) & 0x7) as u8);
        out.push(0x80 | ((v >> 12) & 0x3F) as u8);
        out.push(0x80 | ((v >> 6) & 0x3F) as u8);
        out.push(0x80 | (v & 0x3F) as u8);
    }
    assert(final(out)@ =~= old(out)@ + vstd::utf8::encode_scalar(v));
}

proof fn lemma_encode_utf8_push(a: Seq<char>, c: char)
    ensures
        vstd::utf8::encode_utf8(a.push(c)) == vstd::utf8::encode_utf8(a) + vstd::utf8::encode_scalar(
            c as u32,
        ),
    decreases a.len(),
{
    reveal_with_fuel(vstd::utf8::encode_utf8, 2);
    assert(a.push(c)[0] == if a.len() == 0 { c } else { a[0] });
    if a.len() == 0 {
        assert(a.push(c).drop_first() =~= Seq::<char>::empty());
        assert(vstd::utf8::encode_scalar(c as u32) + Seq::<u8>::empty() =~= vstd::utf8::encode_scalar(
            c as u32,
        ));
    } else {
        assert(a.push(c).drop_first() =~= a.drop_first().push(c));
        lemma_encode_utf8_push(a.drop_first(), c);
        let e0 = vstd::utf8::encode_scalar(a[0] as u32);
        assert(e0 + (vstd::utf8::encode_utf8(a.drop_first()) + vstd::utf8::encode_scalar(c as u32))
            =~= (e0 + vstd::utf8::encode_utf8(a.drop_first())) + vstd::utf8::encode_scalar(
            c as u32,
        ));
    }
}

/// Decodes the first `n` of `units` as `String::from_utf16_lossy` does.
fn decode_prefix(units: &[u16], n: usize) -> (s: String)
    requires
        n <= units@.len(),
    ensures
        s@ == spec_utf16_decode(units@.take(n as int)),
{
    let ghost w = units@.take(n as int);
    let ghost mut chars: Seq<char> = Seq::empty();
    let mut bytes: Vec<u8> = Vec::new();
    let mut i: usize = 0;
    assert(w.skip(0) =~= w);
    while i < n
        invariant
            n <= units@.len(),
            w == units@.take(n as int),
            i <= n,
            bytes@ == vstd::utf8::encode_utf8(chars),
            chars + spec_utf16_decode(w.skip(i as int)) == spec_utf16_decode(w),
        decreases n - i,
    {
        let ghost t = w.skip(i as int);
        let u0 = units[i] as u32;
        let paired = 0xD800 <= u0 && u0 < 0xDC00 && i + 1 < n && 0xDC00 <= units[i + 1]
            && units[i + 1] < 0xE000;
        let v: u32 = if paired {
            0x10000 + (u0 - 0xD800) * 0x400 + (units[i + 1] as u32 - 0xDC00)
        } else if 0xD800 <= u0 && u0 < 0xE000 {
            0xFFFD
        } else {
            u0
        };
        let step: usize = if paired { 2 } else { 1 };
        proof {
            assert(t[0] == units@[i as int]);
            if paired {
                assert(t[1] == units@[i + 1]);
                assert(t.skip(2) =~= w.skip(i + 2));
            } else {
                assert(t.drop_first() =~= w.skip(i + 1));
            }
            assert(spec_utf16_decode(t) == seq![v as char] + spec_utf16_decode(
                w.skip(i + step),
            ));
            lemma_encode_utf8_push(chars, v as char);
            assert(chars.push(v as char) + spec_utf16_decode(w.skip(i + step)) =~= chars + (
            seq![v as char] + spec_utf16_decode(w.skip(i + step))));
        }
        push_scalar_utf8(&mut bytes, v);
        proof {
            chars = chars.push(v as char);
        }
        i = i + step;
    }
    proof {
        assert(w.skip(n as int) =~= Seq::<u16>::empty());
        vstd::utf8::encode_utf8_valid_utf8(chars);
        vstd::utf8::encode_utf8_decode_utf8(chars);
    }
    match string_from_utf8(bytes) {
        Some(s) => s,
        None => String::new(),
    }
}

/// Decodes `units` as `String::from_utf16_lossy` does.
pub fn utf16_decode(units: &[u16]) -> (s: String)
    ensures
        s@ == spec_utf16_decode(units@),
{
    assert(units@.take(units@.len() as int) =~= units@);
    decode_prefix(units, units.len())
}

/// The password in decrypted units: a terminating NUL, where there is one,
/// is dropped and the rest decoded.
pub fn password_from_utf16z(units: &[u16]) -> (p: String)
    ensures
        p@ == spec_password_text(units@),
{
    let n = units.len();
    if n > 0 && units[n - 1] == 0 {
        assert(units@.take(n - 1) =~= units@.drop_last());
        decode_prefix(units, n - 1)
    } else {
        utf16_decode(units)
    }
}

/// What DPAPI hands back for a password is the password: UTF-16 text with a
/// terminating NUL reads back as the text it was made from, whatever
/// characters it holds.
pub proof fn lemma_password_units_roundtrip(p: Seq<char>)
    ensures
        spec_password_text(spec_password_units(p)) == p,
{
    assert(spec_password_units(p).drop_last() =~= spec_utf16(p));
    lemma_decode_utf16_append(p, Seq::empty());
    assert(spec_utf16(p) + Seq::<u16>::empty() =~= spec_utf16(p));
    assert(p + Seq::<char>::empty() =~= p);
}

proof fn lemma_decode_char_utf16(c: char, rest: Seq<u16>)
    ensures
        spec_utf16_decode(char_utf16(c) + rest) == seq![c] + spec_utf16_decode(rest),
{
    let v = c as u32;
    let u = char_utf16(c) + rest;
    if v < 0x10000 {
        assert(u.drop_first() =~= rest);
    } else {
        let w = (v - 0x10000) as int;
        assert(0x10000 + ((0xD800 + w / 0x400) - 0xD800) * 0x400 + ((0xDC00 + w % 0x400) - 0xDC00)
            == v) by (nonlinear_arith)
            requires
                w == v - 0x10000,
                0 <= w,
        ;
        assert(u.skip(2) =~= rest);
    }
}

proof fn lemma_decode_utf16_append(p: Seq<char>, rest: Seq<u16>)
    ensures
        spec_utf16_decode(spec_utf16(p) + rest) == p + spec_utf16_decode(rest),
    decreases p.len(),
{
    if p.len() == 0 {
        assert(spec_utf16(p) + rest =~= rest);
        assert(p + spec_utf16_decode(rest) =~= spec_utf16_decode(rest));
    } else {
        let c = p.last();
        let q = p.drop_last();
        lemma_decode_char_utf16(c, rest);
        lemma_decode_utf16_append(q, char_utf16(c) + rest);
        assert(spec_utf16(q) + char_utf16(c) + rest =~= spec_utf16(q) + (char_utf16(c) + rest));
        assert(q + (seq![c] + spec_utf16_decode(rest)) =~= p + spec_utf16_decode(rest));
    }
}

/// `units` as little-endian bytes, two per unit.
pub open spec fn spec_le_bytes(units: Seq<u16>) -> Seq<u8> {
    Seq::new(
        2 * units.len(),
        |k: int|
            if k % 2 == 0 {
                units[k / 2] as u8
            } else {
                (units[k / 2] >> 8u16) as u8
            },
    )
}

/// The units of little-endian `bytes`; an odd last byte is ignored.
pub open spec fn spec_units_of(bytes: Seq<u8>) -> Seq<u16> {
    Seq::new(bytes.len() / 2, |i: int| u16_of(bytes[2 * i], bytes[2 * i + 1]))
}

/// The bytes DPAPI protects for password `p`.
pub open spec fn spec_password_bytes(p: Seq<char>) -> Seq<u8> {
    spec_le_bytes(spec_password_units(p))
}

/// `units` as little-endian bytes.
pub fn utf16_le_bytes(units: &[u16]) -> (b: Vec<u8>)
    requires
        2 * units@.len() <= usize::MAX,
    ensures
        b@ == spec_le_bytes(units@),
{
    let mut b: Vec<u8> = Vec::new();
    let mut i: usize = 0;
    while i < units.len()
        invariant
            i <= units@.len(),
            b@.len() == 2 * i,
            forall|k: int|
                0 <= k < 2 * i ==> #[trigger] b@[k] == if k % 2 == 0 {
                    units@[k / 2] as u8
                } else {
                    (units@[k / 2] >> 8u16) as u8
                },
        decreases units@.len() - i,
    {
        let w = units[i];
        b.push(w as u8);
        b.push((w >> 8u16) as u8);
        i = i + 1;
    }
    assert(b@ =~= spec_le_bytes(units@));
    b
}

/// The units of little-endian `bytes`, as `chunks_exact(2)` reads them.
pub fn utf16_from_le_bytes(bytes: &[u8]) -> (u: Vec<u16>)
    ensures
        u@ == spec_units_of(bytes@),
{
    let len = bytes.len();
    let n = len / 2;
    let mut u: Vec<u16> = Vec::new();
    let mut i: usize = 0;
    while i < n
        invariant
            len == bytes@.len(),
            n == bytes@.len() / 2,
            i <= n,
            u@.len() == i,
            forall|j: int| 0 <= j < i ==> #[trigger] u@[j] == u16_of(bytes@[2 * j], bytes@[2 * j + 1]),
        decreases n - i,
    {
        assert(2 * i + 1 < bytes@.len()) by (nonlinear_arith)
            requires
                i < n,
                n == len / 2,
                len == bytes@.len(),
        ;
        let lo = bytes[2 * i];
        let hi = bytes[2 * i + 1];
        u.push((lo as u16) | ((hi as u16) << 8u16));
        i = i + 1;
    }
    assert(u@ =~= spec_units_of(bytes@));
    u
}

/// The bytes DPAPI protects for a password: its UTF-16 text and a NUL,
/// little-endian.
pub fn password_plain_bytes(p: &str) -> (b: Vec<u8>)
    requires
        4 * p@.len() + 2 <= usize::MAX,
    ensures
        b@ == spec_password_bytes(p@),
{
    let units = password_to_utf16z(p);
    proof {
        lemma_utf16_len(p@);
    }
    utf16_le_bytes(units.as_slice())
}

/// The password in the bytes DPAPI hands back.
pub fn password_from_plain_bytes(bytes: &[u8]) -> (p: String)
    ensures
        p@ == spec_password_text(spec_units_of(bytes@)),
{
    let units = utf16_from_le_bytes(bytes);
    password_from_utf16z(units.as_slice())
}

proof fn lemma_utf16_len(p: Seq<char>)
    ensures
        spec_utf16(p).len() <= 2 * p.len(),
    decreases p.len(),
{
    if p.len() > 0 {
        lemma_utf16_len(p.drop_last());
    }
}

/// Reading back the bytes a password was stored as gives the password.
pub proof fn lemma_password_bytes_roundtrip(p: Seq<char>)
    ensures
        spec_password_text(spec_units_of(spec_password_bytes(p))) == p,
{
    let u = spec_password_units(p);
    let b = spec_le_bytes(u);
    assert forall|i: int| 0 <= i < u.len() implies #[trigger] spec_units_of(b)[i] == u[i] by {
        assert(b[2 * i] == u[i] as u8);
        assert(b[2 * i + 1] == (u[i] >> 8u16) as u8);
        lemma_u16_roundtrip(u[i]);
    }
    assert(spec_units_of(b) =~= u);
    lemma_password_units_roundtrip(p);
}

} // verus!
