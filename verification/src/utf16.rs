//! UTF-16, the encoding in which the store keeps key names and texts.
//!
//! Encoding is exact. Decoding is lossy: a surrogate that has no partner
//! becomes U+FFFD, so decoding never fails. What was encoded here decodes to
//! the text it came from.

use vstd::prelude::*;
use vstd::slice::slice_subrange;
use crate::text::push_char;

verus! {

/// The character that stands in for a unit that cannot be decoded.
pub const REPLACEMENT: char = '\u{FFFD}';

pub open spec fn is_high_surrogate(u: u16) -> bool {
    0xD800 <= u <= 0xDBFF
}

pub open spec fn is_low_surrogate(u: u16) -> bool {
    0xDC00 <= u <= 0xDFFF
}

pub open spec fn is_surrogate(u: u16) -> bool {
    0xD800 <= u <= 0xDFFF
}

/// Whether `v` is a Unicode scalar value, that is, the number of a `char`.
pub open spec fn is_scalar_value(v: u32) -> bool {
    v < 0xD800 || 0xE000 <= v <= 0x10FFFF
}

/// The code units of one character: itself below U+10000, a surrogate pair
/// from there on.
pub open spec fn encode_char(c: char) -> Seq<u16> {
    let v = c as u32;
    if v < 0x10000 {
        seq![v as u16]
    } else {
        seq![(0xD800 + (v - 0x10000) / 0x400) as u16, (0xDC00 + (v - 0x10000) % 0x400) as u16]
    }
}

/// The code units of a text: those of its characters, in order.
pub open spec fn encode(s: Seq<char>) -> Seq<u16>
    decreases s.len(),
{
    if s.len() == 0 {
        Seq::empty()
    } else {
        encode_char(s[0]) + encode(s.drop_first())
    }
}

/// The character that a high and a low surrogate stand for together.
pub open spec fn pair_char(high: u16, low: u16) -> char {
    (0x10000 + (high - 0xD800) * 0x400 + (low - 0xDC00)) as char
}

/// The text that a sequence of code units stands for. A unit outside the
/// surrogate range is the character of that number; a high surrogate directly
/// followed by a low one is the character of the pair; any other surrogate is
/// `REPLACEMENT`.
pub open spec fn decode_lossy(units: Seq<u16>) -> Seq<char>
    decreases units.len(),
{
    if units.len() == 0 {
        Seq::empty()
    } else if !is_surrogate(units[0]) {
        seq![units[0] as char] + decode_lossy(units.drop_first())
    } else if is_high_surrogate(units[0]) && units.len() >= 2 && is_low_surrogate(units[1]) {
        seq![pair_char(units[0], units[1])] + decode_lossy(units.skip(2))
    } else {
        seq![REPLACEMENT] + decode_lossy(units.drop_first())
    }
}

/// The units before the first zero unit, or all of them where there is none:
/// a stored text ends at its terminator.
pub open spec fn until_nul(units: Seq<u16>) -> Seq<u16>
    decreases units.len(),
{
    if units.len() == 0 || units[0] == 0 {
        Seq::empty()
    } else {
        seq![units[0]] + until_nul(units.drop_first())
    }
}

/// Encoding distributes over concatenation.
pub proof fn lemma_encode_concat(a: Seq<char>, b: Seq<char>)
    ensures
        encode(a + b) == encode(a) + encode(b),
    decreases a.len(),
{
    if a.len() == 0 {
        assert(a + b =~= b);
        assert(encode(a) + encode(b) =~= encode(b));
    } else {
        lemma_encode_concat(a.drop_first(), b);
        assert((a + b).drop_first() =~= a.drop_first() + b);
        assert((a + b)[0] == a[0]);
        assert(encode(a + b) =~= encode(a) + encode(b));
    }
}

/// Encoding a text with one more character appends that character's units.
pub proof fn lemma_encode_push(s: Seq<char>, c: char)
    ensures
        encode(s.push(c)) == encode(s) + encode_char(c),
{
    lemma_encode_concat(s, seq![c]);
    assert(s.push(c) =~= s + seq![c]);
    assert(seq![c].drop_first() =~= Seq::<char>::empty());
    assert(encode(seq![c].drop_first()) =~= Seq::<u16>::empty());
    assert(encode(seq![c]) =~= encode_char(c));
}

/// Decoding reads back a character whose units stand in front.
pub proof fn lemma_decode_encoded_char(c: char, rest: Seq<u16>)
    ensures
        decode_lossy(encode_char(c) + rest) == seq![c] + decode_lossy(rest),
{
    let units = encode_char(c) + rest;
    let v = c as u32;
    if v < 0x10000 {
        assert(units[0] == v as u16);
        assert(!is_surrogate(units[0]));
        assert(units[0] as char == c);
        assert(units.drop_first() =~= rest);
    } else {
        let w = (v - 0x10000) as int;
        assert(0 <= w <= 0xFFFFF);
        assert(units[0] == (0xD800 + w / 0x400) as u16);
        assert(units[1] == (0xDC00 + w % 0x400) as u16);
        assert(is_high_surrogate(units[0]));
        assert(is_low_surrogate(units[1]));
        assert(0x10000 + (units[0] - 0xD800) * 0x400 + (units[1] - 0xDC00) == v);
        assert(pair_char(units[0], units[1]) == c);
        assert(units.skip(2) =~= rest);
    }
}

/// What was encoded decodes to the text it came from.
pub proof fn lemma_decode_encode(s: Seq<char>)
    ensures
        decode_lossy(encode(s)) == s,
    decreases s.len(),
{
    if s.len() == 0 {
        assert(decode_lossy(encode(s)) =~= s);
    } else {
        lemma_decode_encode(s.drop_first());
        lemma_decode_encoded_char(s[0], encode(s.drop_first()));
        assert(seq![s[0]] + s.drop_first() =~= s);
    }
}

/// The units of a character other than that of number zero are not zero.
pub proof fn lemma_encode_char_nonzero(c: char)
    requires
        c != '\0',
    ensures
        forall|j: int| 0 <= j < encode_char(c).len() ==> encode_char(c)[j] != 0,
{
    let v = c as u32;
    if v >= 0x10000 {
        let w = (v - 0x10000) as int;
        assert(0 <= w <= 0xFFFFF);
        assert(0 <= w / 0x400 <= 0x3FF);
        assert(0 <= w % 0x400 <= 0x3FF);
    }
}

/// The encoding of a text without the character of number zero holds no zero
/// unit.
pub proof fn lemma_encode_nonzero(s: Seq<char>)
    requires
        forall|i: int| 0 <= i < s.len() ==> s[i] != '\0',
    ensures
        forall|j: int| 0 <= j < encode(s).len() ==> encode(s)[j] != 0,
    decreases s.len(),
{
    if s.len() > 0 {
        lemma_encode_nonzero(s.drop_first());
        let head = encode_char(s[0]);
        lemma_encode_char_nonzero(s[0]);
        assert forall|j: int| 0 <= j < encode(s).len() implies encode(s)[j] != 0 by {
            if j >= head.len() {
                assert(encode(s)[j] == encode(s.drop_first())[j - head.len()]);
            }
        }
    }
}

/// Units without a zero among them are kept whole in front of a terminator.
pub proof fn lemma_until_nul_prefix(units: Seq<u16>, rest: Seq<u16>)
    requires
        forall|j: int| 0 <= j < units.len() ==> units[j] != 0,
    ensures
        until_nul(units + rest) == units + until_nul(rest),
    decreases units.len(),
{
    if units.len() == 0 {
        assert(units + rest =~= rest);
        assert(units + until_nul(rest) =~= until_nul(rest));
    } else {
        lemma_until_nul_prefix(units.drop_first(), rest);
        assert((units + rest).drop_first() =~= units.drop_first() + rest);
        assert((units + rest)[0] == units[0]);
        assert(until_nul(units + rest) =~= units + until_nul(rest));
    }
}

/// `until_nul` is a prefix of its argument, and stops at a zero or at the end.
pub proof fn lemma_until_nul_is_prefix(units: Seq<u16>)
    ensures
        until_nul(units).len() <= units.len(),
        until_nul(units) == units.take(until_nul(units).len() as int),
        forall|j: int| 0 <= j < until_nul(units).len() ==> units[j] != 0,
        until_nul(units).len() < units.len() ==> units[until_nul(units).len() as int] == 0,
    decreases units.len(),
{
    if units.len() == 0 || units[0] == 0 {
        assert(until_nul(units) =~= units.take(0));
    } else {
        let tail = units.drop_first();
        lemma_until_nul_is_prefix(tail);
        let n = until_nul(tail).len() as int;
        assert(until_nul(units) =~= units.take(n + 1)) by {
            assert(tail.take(n) =~= units.take(n + 1).drop_first());
        }
        assert forall|j: int| 0 <= j < until_nul(units).len() implies units[j] != 0 by {
            if j > 0 {
                assert(units[j] == tail[j - 1]);
            }
        }
        if (n + 1) < units.len() {
            assert(units[n + 1] == tail[n]);
        }
    }
}

/// `char::from_u32` of the standard library: the character of a number that is
/// a Unicode scalar value, and nothing for any other number.
pub assume_specification[ char::from_u32 ](i: u32) -> (c: Option<char>)
    ensures
        is_scalar_value(i) ==> c == Some(i as char),
        !is_scalar_value(i) ==> c is None,
;

/// The character of number `v`.
fn scalar(v: u32) -> (c: char)
    requires
        is_scalar_value(v),
    ensures
        c == v as char,
{
    match char::from_u32(v) {
        Some(c) => c,
        None => REPLACEMENT,
    }
}

/// Encodes a text as UTF-16.
pub fn encode_utf16(s: &str) -> (units: Vec<u16>)
    ensures
        units@ == encode(s@),
{
    let mut units: Vec<u16> = Vec::new();
    for c in it: s.chars()
        invariant
            it.seq() == s@,
            units@ == encode(s@.take(it.index())),
    {
        proof {
            lemma_encode_push(s@.take(it.index()), c);
            assert(s@.take(it.index() + 1) =~= s@.take(it.index()).push(c));
        }
        let v: u32 = c as u32;
        if v < 0x10000 {
            units.push(v as u16);
            assert(units@ =~= encode(s@.take(it.index())) + encode_char(c));
        } else {
            let w: u32 = v - 0x10000;
            units.push((0xD800 + w / 0x400) as u16);
            units.push((0xDC00 + w % 0x400) as u16);
            assert(units@ =~= encode(s@.take(it.index())) + encode_char(c));
        }
    }
    assert(s@.take(s@.len() as int) =~= s@);
    units
}

/// Decodes UTF-16 code units into a text, replacing what cannot be decoded.
pub fn decode_utf16_lossy(units: &[u16]) -> (text: String)
    ensures
        text@ == decode_lossy(units@),
{
    let mut text = String::new();
    let mut i: usize = 0;
    assert(units@.skip(0) =~= units@);
    while i < units.len()
        invariant
            i <= units.len(),
            text@ + decode_lossy(units@.skip(i as int)) == decode_lossy(units@),
        decreases units.len() - i,
    {
        let ghost before = text@;
        let ghost tail = units@.skip(i as int);
        let u: u16 = units[i];
        assert(tail[0] == u);
        if u < 0xD800 || u > 0xDFFF {
            push_char(&mut text, scalar(u as u32));
            assert(tail.drop_first() =~= units@.skip(i + 1));
            assert(text@ + decode_lossy(units@.skip(i + 1)) =~= before + decode_lossy(tail));
            i = i + 1;
        } else if u <= 0xDBFF && i + 1 < units.len() && units[i + 1] >= 0xDC00 && units[i + 1]
            <= 0xDFFF {
            let low: u16 = units[i + 1];
            assert(tail[1] == low);
            let v: u32 = 0x10000 + (u as u32 - 0xD800) * 0x400 + (low as u32 - 0xDC00);
            push_char(&mut text, scalar(v));
            assert(tail.skip(2) =~= units@.skip(i + 2));
            assert(text@ + decode_lossy(units@.skip(i + 2)) =~= before + decode_lossy(tail));
            i = i + 2;
        } else {
            push_char(&mut text, REPLACEMENT);
            assert(tail.drop_first() =~= units@.skip(i + 1));
            assert(text@ + decode_lossy(units@.skip(i + 1)) =~= before + decode_lossy(tail));
            i = i + 1;
        }
    }
    assert(units@.skip(units@.len() as int) =~= Seq::<u16>::empty());
    assert(text@ + Seq::<char>::empty() =~= text@);
    text
}

/// The number of units in front of the first zero unit.
pub fn nul_position(units: &[u16]) -> (n: usize)
    ensures
        n == until_nul(units@).len(),
        n <= units@.len(),
        units@.take(n as int) == until_nul(units@),
{
    proof {
        lemma_until_nul_is_prefix(units@);
    }
    let mut i: usize = 0;
    while i < units.len() && units[i] != 0
        invariant
            i <= units.len(),
            i <= until_nul(units@).len() <= units@.len(),
            forall|j: int| 0 <= j < until_nul(units@).len() ==> units@[j] != 0,
            until_nul(units@).len() < units@.len() ==> units@[until_nul(units@).len() as int] == 0,
        decreases units.len() - i,
    {
        i = i + 1;
    }
    i
}

/// Decodes a stored text: the units up to the terminator, or all of them
/// where the terminator is missing.
pub fn decode_terminated(units: &[u16]) -> (text: String)
    ensures
        text@ == decode_lossy(until_nul(units@)),
{
    let n = nul_position(units);
    decode_utf16_lossy(slice_subrange(units, 0, n))
}

} // verus!
