//! UTF-16 as guest strings store it: code units of two little-endian bytes.
use vstd::prelude::*;

verus! {

broadcast use vstd::utf8::char_is_scalar, vstd::utf8::char_u32_cast;

/// A high (leading) surrogate.
pub open spec fn is_high_surrogate(u: u16) -> bool {
    0xD800 <= u && u < 0xDC00
}

/// A low (trailing) surrogate.
pub open spec fn is_low_surrogate(u: u16) -> bool {
    0xDC00 <= u && u < 0xE000
}

/// The code units that encode one character.
pub open spec fn char_units(c: char) -> Seq<u16> {
    let v = c as u32;
    if v < 0x10000 {
        seq![v as u16]
    } else {
        seq![(0xD800 + (v - 0x10000) / 0x400) as u16, (0xDC00 + (v - 0x10000) % 0x400) as u16]
    }
}

/// The UTF-16 encoding of a string.
pub open spec fn utf16_encode(s: Seq<char>) -> Seq<u16>
    decreases s.len(),
{
    if s.len() == 0 {
        seq![]
    } else {
        char_units(s[0]) + utf16_encode(s.drop_first())
    }
}

/// Decodes UTF-16, putting U+FFFD for each unpaired surrogate.
pub open spec fn utf16_decode_lossy(u: Seq<u16>) -> Seq<char>
    decreases u.len(),
{
    if u.len() == 0 {
        seq![]
    } else if u.len() >= 2 && is_high_surrogate(u[0]) && is_low_surrogate(u[1]) {
        seq![
            (0x10000 + (u[0] - 0xD800) * 0x400 + (u[1] - 0xDC00)) as u32 as char,
        ] + utf16_decode_lossy(u.subrange(2, u.len() as int))
    } else if is_high_surrogate(u[0]) || is_low_surrogate(u[0]) {
        seq!['\u{FFFD}'] + utf16_decode_lossy(u.drop_first())
    } else {
        seq![u[0] as u32 as char] + utf16_decode_lossy(u.drop_first())
    }
}

/// The little-endian bytes of a sequence of code units.
pub open spec fn units_to_bytes(u: Seq<u16>) -> Seq<u8> {
    Seq::new(
        2 * u.len(),
        |i: int|
            if i % 2 == 0 {
                (u[i / 2] % 256) as u8
            } else {
                (u[i / 2] / 256) as u8
            },
    )
}

/// The code units held by pairs of little-endian bytes; a last odd byte is
/// left out.
pub open spec fn bytes_to_units(b: Seq<u8>) -> Seq<u16> {
    Seq::new(b.len() / 2, |i: int| (b[2 * i] + 256 * b[2 * i + 1]) as u16)
}

/// Decoding the UTF-16 encoding of a string gives the string back.
pub proof fn lemma_decode_encode(s: Seq<char>)
    ensures
        utf16_decode_lossy(utf16_encode(s)) == s,
    decreases s.len(),
{
    if s.len() > 0 {
        let c = s[0];
        let rest = s.drop_first();
        let u = utf16_encode(s);
        let cu = char_units(c);
        lemma_decode_encode(rest);
        assert(u == cu + utf16_encode(rest));
        let v = c as u32;
        vstd::utf8::char_is_scalar(c);
        vstd::utf8::char_u32_cast(c, v);
        if v < 0x10000 {
            assert(u[0] == v as u16);
            assert(u[0] as u32 == v);
            assert(u.drop_first() =~= utf16_encode(rest));
            assert(!is_high_surrogate(u[0]) && !is_low_surrogate(u[0]));
            assert(utf16_decode_lossy(u) == seq![c] + rest);
        } else {
            assert(u.subrange(2, u.len() as int) =~= utf16_encode(rest));
            let w = v - 0x10000;
            assert(0x10000 + (u[0] - 0xD800) * 0x400 + (u[1] - 0xDC00) == v);
            assert(utf16_decode_lossy(u) == seq![c] + rest);
        }
        assert(seq![c] + rest =~= s);
    }
}

/// Encoding a character in front of a string puts its units in front.
pub proof fn lemma_encode_cons(c: char, rest: Seq<char>)
    ensures
        utf16_encode(seq![c] + rest) == char_units(c) + utf16_encode(rest),
{
    let t = seq![c] + rest;
    assert(t[0] == c);
    assert(t.drop_first() =~= rest);
}

/// Re-encoding a lossy decoding gives as many code units as were decoded:
/// a pair gives back two units, and every other unit, replaced or not, one.
pub proof fn lemma_decode_length(u: Seq<u16>)
    ensures
        utf16_encode(utf16_decode_lossy(u)).len() == u.len(),
    decreases u.len(),
{
    if u.len() > 0 {
        if u.len() >= 2 && is_high_surrogate(u[0]) && is_low_surrogate(u[1]) {
            let v = (0x10000 + (u[0] - 0xD800) * 0x400 + (u[1] - 0xDC00)) as u32;
            let c = v as char;
            assert(0x10000 <= v <= 0x10FFFF);
            assert(c as u32 == v);
            let rest = u.subrange(2, u.len() as int);
            lemma_decode_length(rest);
            lemma_encode_cons(c, utf16_decode_lossy(rest));
        } else if is_high_surrogate(u[0]) || is_low_surrogate(u[0]) {
            let c = '\u{FFFD}';
            assert(c as u32 == 0xFFFD);
            lemma_decode_length(u.drop_first());
            lemma_encode_cons(c, utf16_decode_lossy(u.drop_first()));
        } else {
            let v = u[0] as u32;
            let c = v as char;
            assert(c as u32 == v);
            lemma_decode_length(u.drop_first());
            lemma_encode_cons(c, utf16_decode_lossy(u.drop_first()));
        }
    }
}

/// Units turned into bytes and back are the same units.
pub proof fn lemma_units_bytes(u: Seq<u16>)
    ensures
        bytes_to_units(units_to_bytes(u)) == u,
        units_to_bytes(u).len() == 2 * u.len(),
{
    let b = units_to_bytes(u);
    assert forall|i: int| 0 <= i < u.len() implies #[trigger] bytes_to_units(b)[i] == u[i] by {
        assert((2 * i) % 2 == 0);
        assert((2 * i + 1) % 2 == 1);
        assert((2 * i) / 2 == i);
        assert((2 * i + 1) / 2 == i);
        assert(u[i] == 256 * (u[i] / 256) + u[i] % 256);
    }
    assert(bytes_to_units(b) =~= u);
}

/// Relies on str::encode_utf16: the UTF-16 code units of the string.
#[verifier::external_body]
pub(crate) fn encode_utf16(s: &str) -> (r: Vec<u16>)
    ensures
        r@ == utf16_encode(s@),
{
    s.encode_utf16().collect()
}

/// Relies on String::from_utf16_lossy: decodes UTF-16 and puts U+FFFD for
/// each unpaired surrogate.
#[verifier::external_body]
pub(crate) fn decode_utf16_lossy(u: &[u16]) -> (r: String)
    ensures
        r@ == utf16_decode_lossy(u@),
{
    String::from_utf16_lossy(u)
}

/// Lays code units out as little-endian bytes.
pub fn units_to_le_bytes(u: &[u16]) -> (r: Vec<u8>)
    requires
        u@.len() <= usize::MAX / 2,
    ensures
        r@ == units_to_bytes(u@),
{
    let mut r: Vec<u8> = Vec::new();
    let mut i: usize = 0;
    while i < u.len()
        invariant
            i <= u@.len() <= usize::MAX / 2,
            r@.len() == 2 * i,
            forall|j: int| 0 <= j < 2 * i ==> r@[j] == #[trigger] units_to_bytes(u@)[j],
        decreases u@.len() - i,
    {
        let x = u[i];
        r.push((x % 256) as u8);
        r.push((x / 256) as u8);
        proof {
            let k = 2 * i as int;
            assert(k % 2 == 0 && k / 2 == i);
            assert((k + 1) % 2 == 1 && (k + 1) / 2 == i);
        }
        i = i + 1;
    }
    assert(r@ =~= units_to_bytes(u@));
    r
}

/// Reads pairs of little-endian bytes as code units.
pub fn le_bytes_to_units(b: &[u8]) -> (r: Vec<u16>)
    ensures
        r@ == bytes_to_units(b@),
{
    let mut r: Vec<u16> = Vec::new();
    let n = b.len() / 2;
    let mut i: usize = 0;
    assert(2 * n <= b@.len());
    while i < n
        invariant
            n == b@.len() / 2,
            2 * n <= b@.len() <= usize::MAX,
            i <= n,
            r@.len() == i,
            forall|j: int| 0 <= j < i ==> r@[j] == #[trigger] bytes_to_units(b@)[j],
        decreases n - i,
    {
        let k: usize = 2 * i;
        let x: u16 = b[k] as u16 + 256 * (b[k + 1] as u16);
        r.push(x);
        i = i + 1;
    }
    assert(r@ =~= bytes_to_units(b@));
    r
}

} // verus!
