//! Strings as sequences of characters.
//!
//! Contracts in this crate speak of a string through its view, a `Seq<char>`.
//! The functions here move between `str`, `String` and `Vec<char>` and provide
//! the few searches and rewrites the rest of the crate needs.

use vstd::prelude::*;

verus! {

/// Equality of two string slices, as `==` on `str` in the standard library
/// decides it: the two hold the same characters in the same order.
#[verifier::external_body]
pub(crate) fn str_eq(a: &str, b: &str) -> (same: bool)
    ensures
        same == (a@ == b@),
{
    a == b
}

/// `String::push` of the standard library: the character is appended at the
/// end and nothing else changes.
#[verifier::external_body]
pub(crate) fn push_char(s: &mut String, c: char)
    ensures
        final(s)@ == old(s)@.push(c),
{
    s.push(c)
}

/// The characters of `s`, in order.
pub fn chars_of(s: &str) -> (out: Vec<char>)
    ensures
        out@ == s@,
{
    let mut out: Vec<char> = Vec::new();
    for c in it: s.chars()
        invariant
            it.seq() == s@,
            out@ == s@.take(it.index()),
    {
        out.push(c);
        assert(s@.take(it.index() + 1) =~= s@.take(it.index()).push(s@[it.index()]));
    }
    assert(s@.take(s@.len() as int) =~= s@);
    out
}

/// The string made of `chars[from..to]`.
pub fn string_from(chars: &Vec<char>, from: usize, to: usize) -> (out: String)
    requires
        from <= to <= chars.len(),
    ensures
        out@ == chars@.subrange(from as int, to as int),
{
    let mut out = String::new();
    let mut i: usize = from;
    while i < to
        invariant
            from <= i <= to <= chars.len(),
            out@ == chars@.subrange(from as int, i as int),
        decreases to - i,
    {
        push_char(&mut out, chars[i]);
        assert(chars@.subrange(from as int, i + 1) =~= chars@.subrange(from as int, i as int).push(
            chars@[i as int],
        ));
        i = i + 1;
    }
    out
}

/// The string made of all of `chars`.
pub fn string_of(chars: &Vec<char>) -> (out: String)
    ensures
        out@ == chars@,
{
    let out = string_from(chars, 0, chars.len());
    assert(chars@.subrange(0, chars.len() as int) =~= chars@);
    out
}

/// `a` followed by `b`.
pub fn join2(a: &str, b: &str) -> (out: String)
    ensures
        out@ == a@ + b@,
{
    let mut out = a.to_owned();
    out.append(b);
    out
}

/// `a`, `b` and `c` in a row.
pub fn join3(a: &str, b: &str, c: &str) -> (out: String)
    ensures
        out@ == a@ + b@ + c@,
{
    let mut out = a.to_owned();
    out.append(b);
    out.append(c);
    out
}

/// Whether `pattern` stands in `s` at position `i`.
pub open spec fn occurs_at(s: Seq<char>, pattern: Seq<char>, i: int) -> bool {
    0 <= i && i + pattern.len() <= s.len() && s.subrange(i, i + pattern.len()) == pattern
}

/// The first position from `from` on at which `pattern` stands in `s`.
pub open spec fn first_from(s: Seq<char>, pattern: Seq<char>, from: int) -> Option<int>
    decreases s.len() - from + 1,
{
    if from < 0 || from + pattern.len() > s.len() {
        None
    } else if occurs_at(s, pattern, from) {
        Some(from)
    } else {
        first_from(s, pattern, from + 1)
    }
}

/// The position that a search reports is the first, from `from` on, at which
/// the pattern stands; a search that reports nothing has no such position.
pub proof fn lemma_first_occurrence(s: Seq<char>, pattern: Seq<char>, from: int)
    requires
        0 <= from,
    ensures
        match first_from(s, pattern, from) {
            Some(i) => from <= i && occurs_at(s, pattern, i) && forall|j: int|
                from <= j < i ==> !occurs_at(s, pattern, j),
            None => forall|j: int| from <= j ==> !occurs_at(s, pattern, j),
        },
    decreases s.len() - from + 1,
{
    if from + pattern.len() <= s.len() && !occurs_at(s, pattern, from) {
        lemma_first_occurrence(s, pattern, from + 1);
    }
}

/// `s` with the first occurrence of `pattern` replaced by `value`; `s` itself
/// where `pattern` does not occur.
pub open spec fn replaced_first(s: Seq<char>, pattern: Seq<char>, value: Seq<char>) -> Seq<char> {
    match first_from(s, pattern, 0) {
        Some(i) => s.subrange(0, i) + value + s.subrange(i + pattern.len(), s.len() as int),
        None => s,
    }
}

/// What follows position `from` in `s`, with every occurrence of `pattern`
/// replaced by `value`. Occurrences are taken from left to right and do not
/// overlap; what was put in is not searched again.
pub open spec fn replaced_from(s: Seq<char>, pattern: Seq<char>, value: Seq<char>, from: int) -> Seq<
    char,
>
    decreases s.len() - from,
{
    match first_from(s, pattern, from) {
        Some(i) => {
            let next = i + pattern.len();
            if from <= i && from < next <= s.len() {
                s.subrange(from, i) + value + replaced_from(s, pattern, value, next)
            } else {
                s.subrange(from, s.len() as int)
            }
        },
        None => s.subrange(from, s.len() as int),
    }
}

/// `s` with every occurrence of `pattern` replaced by `value`; `s` itself
/// where `pattern` is empty.
pub open spec fn replaced_all(s: Seq<char>, pattern: Seq<char>, value: Seq<char>) -> Seq<char> {
    if pattern.len() == 0 {
        s
    } else {
        replaced_from(s, pattern, value, 0)
    }
}

/// Whether `pattern` stands in `s` at position `i`.
fn matches_at(s: &Vec<char>, pattern: &Vec<char>, i: usize) -> (same: bool)
    requires
        i + pattern.len() <= s.len(),
    ensures
        same == occurs_at(s@, pattern@, i as int),
{
    let ghost window = s@.subrange(i as int, i + pattern.len());
    let mut k: usize = 0;
    while k < pattern.len()
        invariant
            k <= pattern.len(),
            i + pattern.len() <= s.len(),
            window == s@.subrange(i as int, i + pattern.len()),
            forall|j: int| 0 <= j < k ==> window[j] == pattern@[j],
        decreases pattern.len() - k,
    {
        if s[i + k] != pattern[k] {
            assert(window[k as int] != pattern@[k as int]);
            return false;
        }
        k = k + 1;
    }
    assert(window =~= pattern@);
    true
}

/// The first position from `from` on at which `pattern` stands in `s`.
pub fn find(s: &Vec<char>, pattern: &Vec<char>, from: usize) -> (found: Option<usize>)
    ensures
        match found {
            Some(i) => first_from(s@, pattern@, from as int) == Some(i as int) && from <= i && i
                + pattern.len() <= s.len(),
            None => first_from(s@, pattern@, from as int) is None,
        },
{
    if pattern.len() > s.len() || from > s.len() - pattern.len() {
        return None;
    }
    let last: usize = s.len() - pattern.len();
    let mut i: usize = from;
    loop
        invariant
            from <= i <= last,
            last == s.len() - pattern.len(),
            pattern.len() <= s.len(),
            first_from(s@, pattern@, from as int) == first_from(s@, pattern@, i as int),
        decreases last - i,
    {
        if matches_at(s, pattern, i) {
            return Some(i);
        }
        if i == last {
            return None;
        }
        i = i + 1;
    }
}

/// `template` with the first occurrence of `pattern` replaced by `value`.
pub fn replace_first(template: &str, pattern: &str, value: &str) -> (out: String)
    ensures
        out@ == replaced_first(template@, pattern@, value@),
{
    let s = chars_of(template);
    let p = chars_of(pattern);
    match find(&s, &p, 0) {
        Some(i) => {
            let head = string_from(&s, 0, i);
            let tail = string_from(&s, i + p.len(), s.len());
            join3(head.as_str(), value, tail.as_str())
        },
        None => template.to_owned(),
    }
}

/// `template` with every occurrence of `pattern` replaced by `value`.
pub fn replace_all(template: &str, pattern: &str, value: &str) -> (out: String)
    ensures
        out@ == replaced_all(template@, pattern@, value@),
{
    let s = chars_of(template);
    let p = chars_of(pattern);
    if p.len() == 0 {
        return template.to_owned();
    }
    let mut out = String::new();
    let mut from: usize = 0;
    assert(out@ + replaced_from(s@, p@, value@, 0) =~= replaced_from(s@, p@, value@, 0));
    loop
        invariant_except_break
            out@ + replaced_from(s@, p@, value@, from as int) == replaced_from(s@, p@, value@, 0),
        invariant
            from <= s.len(),
            p.len() > 0,
            s@ == template@,
            p@ == pattern@,
        ensures
            out@ == replaced_from(s@, p@, value@, 0),
        decreases s.len() - from,
    {
        let ghost before = out@;
        match find(&s, &p, from) {
            Some(i) => {
                let piece = string_from(&s, from, i);
                out.append(piece.as_str());
                out.append(value);
                assert(out@ + replaced_from(s@, p@, value@, i + p.len()) =~= before + replaced_from(
                    s@,
                    p@,
                    value@,
                    from as int,
                ));
                from = i + p.len();
            },
            None => {
                let piece = string_from(&s, from, s.len());
                out.append(piece.as_str());
                break ;
            },
        }
    }
    out
}

/// Whether `prefix` stands at the beginning of `s`.
pub open spec fn has_prefix(s: Seq<char>, prefix: Seq<char>) -> bool {
    occurs_at(s, prefix, 0)
}

/// Whether `prefix` stands at the beginning of `s`.
pub fn starts_with(s: &str, prefix: &str) -> (yes: bool)
    ensures
        yes == has_prefix(s@, prefix@),
{
    let whole = chars_of(s);
    let front = chars_of(prefix);
    if front.len() > whole.len() {
        return false;
    }
    matches_at(&whole, &front, 0)
}

/// Whether a character is white space: a character with the Unicode property
/// `White_Space`.
pub open spec fn is_whitespace(c: char) -> bool {
    let v = c as u32;
    ||| 0x09 <= v <= 0x0D
    ||| v == 0x20
    ||| v == 0x85
    ||| v == 0xA0
    ||| v == 0x1680
    ||| 0x2000 <= v <= 0x200A
    ||| v == 0x2028
    ||| v == 0x2029
    ||| v == 0x202F
    ||| v == 0x205F
    ||| v == 0x3000
}

/// Whether a character is white space.
pub fn char_is_whitespace(c: char) -> (yes: bool)
    ensures
        yes == is_whitespace(c),
{
    let v: u32 = c as u32;
    (0x09 <= v && v <= 0x0D) || v == 0x20 || v == 0x85 || v == 0xA0 || v == 0x1680 || (0x2000 <= v
        && v <= 0x200A) || v == 0x2028 || v == 0x2029 || v == 0x202F || v == 0x205F || v == 0x3000
}

/// `s` without the white space at its beginning.
pub open spec fn skip_leading(s: Seq<char>) -> Seq<char>
    decreases s.len(),
{
    if s.len() > 0 && is_whitespace(s[0]) {
        skip_leading(s.drop_first())
    } else {
        s
    }
}

/// `s` without the white space at its end.
pub open spec fn skip_trailing(s: Seq<char>) -> Seq<char>
    decreases s.len(),
{
    if s.len() > 0 && is_whitespace(s.last()) {
        skip_trailing(s.drop_last())
    } else {
        s
    }
}

/// `s` without the white space at its beginning and at its end.
pub open spec fn trimmed(s: Seq<char>) -> Seq<char> {
    skip_trailing(skip_leading(s))
}

/// `s` without the white space at its beginning and at its end.
pub fn trim(s: &str) -> (out: String)
    ensures
        out@ == trimmed(s@),
{
    let chars = chars_of(s);
    let mut start: usize = 0;
    assert(chars@.subrange(0, chars@.len() as int) =~= chars@);
    while start < chars.len() && char_is_whitespace(chars[start])
        invariant
            start <= chars.len(),
            skip_leading(chars@) == skip_leading(chars@.subrange(start as int, chars@.len() as int)),
        decreases chars.len() - start,
    {
        assert(chars@.subrange(start as int, chars@.len() as int).drop_first() =~= chars@.subrange(
            start + 1,
            chars@.len() as int,
        ));
        start = start + 1;
    }
    let ghost middle = chars@.subrange(start as int, chars@.len() as int);
    assert(skip_leading(chars@) == middle);
    let mut end: usize = chars.len();
    while end > start && char_is_whitespace(chars[end - 1])
        invariant
            start <= end <= chars.len(),
            middle == chars@.subrange(start as int, chars@.len() as int),
            skip_trailing(middle) == skip_trailing(chars@.subrange(start as int, end as int)),
        decreases end - start,
    {
        assert(chars@.subrange(start as int, end as int).drop_last() =~= chars@.subrange(
            start as int,
            end - 1,
        ));
        end = end - 1;
    }
    string_from(&chars, start, end)
}

/// What the standard library's `str::to_lowercase` makes of a text: each
/// character replaced by its lowercase form, as Unicode defines it.
pub uninterp spec fn lowercase_of(s: Seq<char>) -> Seq<char>;

/// `str::to_lowercase` of the standard library.
#[verifier::external_body]
pub(crate) fn to_lowercase(s: &str) -> (out: String)
    ensures
        out@ == lowercase_of(s@),
{
    s.to_lowercase()
}

/// `n` times the character `c`.
pub open spec fn repeated(c: char, n: nat) -> Seq<char> {
    Seq::new(n, |i: int| c)
}

/// `n` times the character `c`.
pub fn repeat_char(c: char, n: usize) -> (out: String)
    ensures
        out@ == repeated(c, n as nat),
{
    let mut out = String::new();
    let mut i: usize = 0;
    while i < n
        invariant
            i <= n,
            out@ == repeated(c, i as nat),
        decreases n - i,
    {
        push_char(&mut out, c);
        assert(out@ =~= repeated(c, (i + 1) as nat));
        i = i + 1;
    }
    out
}

/// `s` in a field of `width` characters: cut after `width` characters, and
/// filled up with spaces at the end.
pub open spec fn fitted(s: Seq<char>, width: nat) -> Seq<char> {
    if s.len() >= width {
        s.subrange(0, width as int)
    } else {
        s + repeated(' ', (width - s.len()) as nat)
    }
}

/// `s` in a field of `width` characters.
pub fn fit(s: &str, width: usize) -> (out: String)
    ensures
        out@ == fitted(s@, width as nat),
{
    let chars = chars_of(s);
    if chars.len() >= width {
        string_from(&chars, 0, width)
    } else {
        let padding = repeat_char(' ', width - chars.len());
        join2(s, padding.as_str())
    }
}

} // verus!
