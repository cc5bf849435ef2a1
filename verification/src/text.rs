//! Text primitives over sequences of characters.
//!
//! Every rule of this library that reads or builds text is stated over
//! `Seq<char>`, the view of `str` and `String`. This module gives those
//! statements their vocabulary (trimming, substring search, replacement,
//! joining, decimal numerals) together with executable functions that are
//! proved to compute them.

use vstd::prelude::*;

verus! {

// ---------------------------------------------------------------------------
// Conversions between strings and vectors of characters
// ---------------------------------------------------------------------------

/// `String::push` appends one character to the end of the string.
pub assume_specification[ String::push ](s: &mut String, c: char)
    ensures
        final(s)@ == old(s)@.push(c),
;

/// The characters of `s`, in order.
pub fn chars_of(s: &str) -> (out: Vec<char>)
    ensures
        out@ == s@,
{
    let mut out: Vec<char> = Vec::new();
    for c in it: s.chars()
        invariant
            out@ == it.seq().take(it.index()),
            it.seq() == s@,
    {
        out.push(c);
    }
    out
}

/// The string that holds the characters `v[from..to]`, in order.
pub(crate) fn string_of_range(v: &Vec<char>, from: usize, to: usize) -> (out: String)
    requires
        from <= to <= v.len(),
    ensures
        out@ == v@.subrange(from as int, to as int),
{
    let mut out = String::new();
    let mut i: usize = from;
    while i < to
        invariant
            from <= i <= to <= v.len(),
            out@ == v@.subrange(from as int, i as int),
        decreases to - i,
    {
        out.push(v[i]);
        i += 1;
    }
    out
}

/// The string that holds the characters of `v`, in order.
pub fn string_of(v: &Vec<char>) -> (out: String)
    ensures
        out@ == v@,
{
    let out = string_of_range(v, 0, v.len());
    assert(v@.subrange(0, v.len() as int) == v@);
    out
}

/// Appends the characters of `tail` to `out`.
pub fn push_all(out: &mut Vec<char>, tail: &Vec<char>)
    ensures
        final(out)@ == old(out)@ + tail@,
{
    let mut i: usize = 0;
    while i < tail.len()
        invariant
            i <= tail.len(),
            out@ == old(out)@ + tail@.take(i as int),
        decreases tail.len() - i,
    {
        out.push(tail[i]);
        i += 1;
    }
    assert(tail@.take(tail.len() as int) == tail@);
}

/// Appends the characters of the string `tail` to `out`.
pub fn push_str(out: &mut Vec<char>, tail: &str)
    ensures
        final(out)@ == old(out)@ + tail@,
{
    let t = chars_of(tail);
    push_all(out, &t);
}

/// The text `a` followed by the text `b`.
pub fn concat_str(a: &str, b: &str) -> (out: String)
    ensures
        out@ == a@ + b@,
{
    let mut v = chars_of(a);
    push_str(&mut v, b);
    string_of(&v)
}

/// The texts `a`, `b` and `c`, one after the other.
pub fn concat3(a: &str, b: &str, c: &str) -> (out: String)
    ensures
        out@ == a@ + b@ + c@,
{
    let mut v = chars_of(a);
    push_str(&mut v, b);
    push_str(&mut v, c);
    string_of(&v)
}

/// A copy of the text `s`.
pub fn owned(s: &str) -> (out: String)
    ensures
        out@ == s@,
{
    let v = chars_of(s);
    string_of(&v)
}

/// Whether two vectors hold the same characters.
pub fn same_chars(a: &Vec<char>, b: &Vec<char>) -> (r: bool)
    ensures
        r == (a@ == b@),
{
    if a.len() != b.len() {
        return false;
    }
    let mut i: usize = 0;
    while i < a.len()
        invariant
            i <= a.len(),
            a.len() == b.len(),
            a@.take(i as int) == b@.take(i as int),
        decreases a.len() - i,
    {
        if a[i] != b[i] {
            return false;
        }
        assert(a@.take(i + 1) == a@.take(i as int).push(a@[i as int]));
        assert(b@.take(i + 1) == b@.take(i as int).push(b@[i as int]));
        i += 1;
    }
    assert(a@.take(a.len() as int) == a@);
    assert(b@.take(b.len() as int) == b@);
    true
}

/// Whether the vector `a` holds exactly the characters of the string `b`.
pub fn is_text(a: &Vec<char>, b: &str) -> (r: bool)
    ensures
        r == (a@ == b@),
{
    let bv = chars_of(b);
    same_chars(a, &bv)
}

/// Whether two strings hold the same characters.
pub fn str_eq(a: &str, b: &str) -> (r: bool)
    ensures
        r == (a@ == b@),
{
    let av = chars_of(a);
    let bv = chars_of(b);
    same_chars(&av, &bv)
}

// ---------------------------------------------------------------------------
// White space and trimming
// ---------------------------------------------------------------------------

/// White space in the sense of Unicode's `White_Space` property.
pub open spec fn is_space(c: char) -> bool {
    let n = c as u32;
    ||| 0x09 <= n <= 0x0D
    ||| n == 0x20
    ||| n == 0x85
    ||| n == 0xA0
    ||| n == 0x1680
    ||| 0x2000 <= n <= 0x200A
    ||| n == 0x2028
    ||| n == 0x2029
    ||| n == 0x202F
    ||| n == 0x205F
    ||| n == 0x3000
}

/// Decides `is_space`.
pub fn is_space_char(c: char) -> (r: bool)
    ensures
        r == is_space(c),
{
    let n: u32 = c as u32;
    (0x09 <= n && n <= 0x0D) || n == 0x20 || n == 0x85 || n == 0xA0 || n == 0x1680 || (0x2000 <= n
        && n <= 0x200A) || n == 0x2028 || n == 0x2029 || n == 0x202F || n == 0x205F || n == 0x3000
}

/// A class of characters that can be stripped from the ends of a text.
#[derive(Clone, Copy, Debug, PartialEq, Eq)]
pub enum CharClass {
    /// White space.
    Space,
    /// The marks `.`, `?` and `,`.
    StopMark,
}

/// Whether `c` belongs to the class `k`.
pub open spec fn in_class(c: char, k: CharClass) -> bool {
    match k {
        CharClass::Space => is_space(c),
        CharClass::StopMark => c == '.' || c == '?' || c == ',',
    }
}

/// Decides `in_class`.
pub fn class_has(c: char, k: CharClass) -> (r: bool)
    ensures
        r == in_class(c, k),
{
    match k {
        CharClass::Space => is_space_char(c),
        CharClass::StopMark => c == '.' || c == '?' || c == ',',
    }
}

/// `s` without its leading characters of class `k`.
pub open spec fn strip_start_of(s: Seq<char>, k: CharClass) -> Seq<char>
    decreases s.len(),
{
    if s.len() > 0 && in_class(s[0], k) {
        strip_start_of(s.drop_first(), k)
    } else {
        s
    }
}

/// `s` without its trailing characters of class `k`.
pub open spec fn strip_end_of(s: Seq<char>, k: CharClass) -> Seq<char>
    decreases s.len(),
{
    if s.len() > 0 && in_class(s.last(), k) {
        strip_end_of(s.drop_last(), k)
    } else {
        s
    }
}

/// `s` without leading and trailing characters of class `k`.
pub open spec fn strip_of(s: Seq<char>, k: CharClass) -> Seq<char> {
    strip_end_of(strip_start_of(s, k), k)
}

/// `s` without leading and trailing white space.
pub open spec fn trim_of(s: Seq<char>) -> Seq<char> {
    strip_of(s, CharClass::Space)
}

/// Whether `s` is empty once trimmed.
pub open spec fn is_blank(s: Seq<char>) -> bool {
    trim_of(s).len() == 0
}

/// The bounds `(a, b)` with `v[a..b]` the text of `v` stripped of class `k`.
pub fn strip_bounds(v: &Vec<char>, k: CharClass) -> (r: (usize, usize))
    ensures
        r.0 <= r.1 <= v.len(),
        v@.subrange(r.0 as int, r.1 as int) == strip_of(v@, k),
{
    let mut a: usize = 0;
    assert(v@.skip(0) == v@);
    while a < v.len() && class_has(v[a], k)
        invariant
            a <= v.len(),
            strip_start_of(v@, k) == strip_start_of(v@.skip(a as int), k),
        decreases v.len() - a,
    {
        assert(v@.skip(a as int).drop_first() == v@.skip(a + 1));
        a += 1;
    }
    assert(strip_start_of(v@, k) == v@.skip(a as int));
    let ghost t = v@.skip(a as int);
    let mut b: usize = v.len();
    assert(t.take(b - a) == t);
    while b > a && class_has(v[b - 1], k)
        invariant
            a <= b <= v.len(),
            t == v@.skip(a as int),
            strip_end_of(t, k) == strip_end_of(t.take(b - a), k),
        decreases b - a,
    {
        assert(t.take(b - a).last() == v@[b - 1]);
        assert(t.take(b - a).drop_last() == t.take(b - 1 - a));
        b -= 1;
    }
    assert(t.take(b - a) == v@.subrange(a as int, b as int));
    assert(b > a ==> t.take(b - a).last() == v@[b - 1]);
    (a, b)
}

/// The bounds `(a, b)` with `v[a..b]` the trimmed text of `v`.
pub fn trim_bounds(v: &Vec<char>) -> (r: (usize, usize))
    ensures
        r.0 <= r.1 <= v.len(),
        v@.subrange(r.0 as int, r.1 as int) == trim_of(v@),
{
    strip_bounds(v, CharClass::Space)
}

/// The text of `v` stripped of class `k` at both ends.
pub fn strip_chars(v: &Vec<char>, k: CharClass) -> (out: Vec<char>)
    ensures
        out@ == strip_of(v@, k),
{
    let (a, b) = strip_bounds(v, k);
    slice_chars(v, a, b)
}

/// The trimmed text of `v`.
pub fn trim_chars(v: &Vec<char>) -> (out: Vec<char>)
    ensures
        out@ == trim_of(v@),
{
    let (a, b) = trim_bounds(v);
    slice_chars(v, a, b)
}

/// A copy of `v[from..to]`.
pub(crate) fn slice_chars(v: &Vec<char>, from: usize, to: usize) -> (out: Vec<char>)
    requires
        from <= to <= v.len(),
    ensures
        out@ == v@.subrange(from as int, to as int),
{
    let mut out: Vec<char> = Vec::new();
    let mut i: usize = from;
    while i < to
        invariant
            from <= i <= to <= v.len(),
            out@ == v@.subrange(from as int, i as int),
        decreases to - i,
    {
        out.push(v[i]);
        i += 1;
    }
    out
}

/// The trimmed text of `s`.
pub fn trim(s: &str) -> (out: String)
    ensures
        out@ == trim_of(s@),
{
    let v = chars_of(s);
    let (a, b) = trim_bounds(&v);
    string_of_range(&v, a, b)
}

/// Whether `s` is empty once trimmed.
pub fn is_blank_str(s: &str) -> (r: bool)
    ensures
        r == is_blank(s@),
{
    let v = chars_of(s);
    let (a, b) = trim_bounds(&v);
    a == b
}

// ---------------------------------------------------------------------------
// Substrings
// ---------------------------------------------------------------------------

/// Whether `p` occurs in `s` at position `i`.
pub open spec fn found_at(s: Seq<char>, i: int, p: Seq<char>) -> bool {
    0 <= i && i + p.len() <= s.len() && s.subrange(i, i + p.len()) == p
}

/// Whether `p` occurs somewhere in `s`.
pub open spec fn found_in(s: Seq<char>, p: Seq<char>) -> bool {
    exists|i: int| found_at(s, i, p)
}

/// Whether `s` starts with `p`.
pub open spec fn begins_with(s: Seq<char>, p: Seq<char>) -> bool {
    found_at(s, 0, p)
}

/// Decides `found_at`.
pub fn occurs_at(s: &Vec<char>, i: usize, p: &Vec<char>) -> (r: bool)
    ensures
        r == found_at(s@, i as int, p@),
{
    if i > s.len() || p.len() > s.len() - i {
        return false;
    }
    let mut j: usize = 0;
    while j < p.len()
        invariant
            j <= p.len(),
            i + p.len() <= s.len(),
            s@.subrange(i as int, i + j) == p@.take(j as int),
        decreases p.len() - j,
    {
        if s[i + j] != p[j] {
            assert(s@.subrange(i as int, i + p.len())[j as int] != p@[j as int]);
            return false;
        }
        assert(s@.subrange(i as int, i + j + 1) == s@.subrange(i as int, i + j).push(
            s@[i + j],
        ));
        assert(p@.take(j + 1) == p@.take(j as int).push(p@[j as int]));
        j += 1;
    }
    assert(p@.take(p.len() as int) == p@);
    true
}

/// Decides `found_in`.
pub fn contains_chars(s: &Vec<char>, p: &Vec<char>) -> (r: bool)
    ensures
        r == found_in(s@, p@),
{
    if p.len() > s.len() {
        return false;
    }
    let last: usize = s.len() - p.len();
    let mut i: usize = 0;
    loop
        invariant
            i <= last,
            last == s.len() - p.len(),
            forall|k: int| 0 <= k < i ==> !found_at(s@, k, p@),
        decreases last - i,
    {
        if occurs_at(s, i, p) {
            return true;
        }
        if i == last {
            return false;
        }
        i += 1;
    }
}

/// Whether the string `p` occurs somewhere in `s`.
pub fn contains_str(s: &Vec<char>, p: &str) -> (r: bool)
    ensures
        r == found_in(s@, p@),
{
    let pv = chars_of(p);
    contains_chars(s, &pv)
}

/// Whether `s` starts with the string `p`.
pub fn starts_with_str(s: &Vec<char>, p: &str) -> (r: bool)
    ensures
        r == begins_with(s@, p@),
{
    let pv = chars_of(p);
    occurs_at(s, 0, &pv)
}

/// Whether one of `patterns` occurs somewhere in `s`.
pub open spec fn any_found_in(s: Seq<char>, patterns: Seq<Seq<char>>) -> bool {
    exists|i: int| 0 <= i < patterns.len() && found_in(s, #[trigger] patterns[i])
}

/// The views of the strings of `items`, in order.
pub open spec fn strs_view<'a>(items: Seq<&'a str>) -> Seq<Seq<char>> {
    items.map_values(|p: &'a str| p@)
}

/// Decides `any_found_in`.
pub fn contains_any<'a>(s: &Vec<char>, patterns: &Vec<&'a str>) -> (r: bool)
    ensures
        r == any_found_in(s@, strs_view(patterns@)),
{
    let ghost all = strs_view(patterns@);
    let mut i: usize = 0;
    while i < patterns.len()
        invariant
            i <= patterns.len(),
            all == strs_view(patterns@),
            forall|k: int| 0 <= k < i ==> !found_in(s@, #[trigger] all[k]),
        decreases patterns.len() - i,
    {
        assert(all[i as int] == patterns@[i as int]@);
        if contains_str(s, patterns[i]) {
            return true;
        }
        i += 1;
    }
    false
}

/// The number of characters of class `k` at the start of `s`.
pub open spec fn leading_count(s: Seq<char>, k: CharClass) -> nat
    decreases s.len(),
{
    if s.len() > 0 && in_class(s[0], k) {
        1 + leading_count(s.drop_first(), k)
    } else {
        0
    }
}

/// The number of characters of class `k` at the end of `s`.
pub open spec fn trailing_count(s: Seq<char>, k: CharClass) -> nat
    decreases s.len(),
{
    if s.len() > 0 && in_class(s.last(), k) {
        1 + trailing_count(s.drop_last(), k)
    } else {
        0
    }
}

/// Stripping at the start drops exactly the leading characters of the class.
pub proof fn lemma_strip_start(s: Seq<char>, k: CharClass)
    ensures
        leading_count(s, k) <= s.len(),
        strip_start_of(s, k) == s.skip(leading_count(s, k) as int),
        forall|j: int| 0 <= j < leading_count(s, k) ==> in_class(#[trigger] s[j], k),
    decreases s.len(),
{
    if s.len() > 0 && in_class(s[0], k) {
        let t = s.drop_first();
        lemma_strip_start(t, k);
        assert(t.skip(leading_count(t, k) as int) == s.skip(leading_count(s, k) as int));
        assert forall|j: int| 0 <= j < leading_count(s, k) implies in_class(#[trigger] s[j], k) by {
            if j > 0 {
                assert(s[j] == t[j - 1]);
            }
        }
    } else {
        assert(s.skip(0) == s);
    }
}

/// Stripping at the end drops exactly the trailing characters of the class.
pub proof fn lemma_strip_end(s: Seq<char>, k: CharClass)
    ensures
        trailing_count(s, k) <= s.len(),
        strip_end_of(s, k) == s.take(s.len() - trailing_count(s, k)),
        forall|j: int| s.len() - trailing_count(s, k) <= j < s.len() ==> in_class(#[trigger] s[j], k),
    decreases s.len(),
{
    if s.len() > 0 && in_class(s.last(), k) {
        let t = s.drop_last();
        lemma_strip_end(t, k);
        assert(t.take(t.len() - trailing_count(t, k)) == s.take(s.len() - trailing_count(s, k)));
        assert forall|j: int| s.len() - trailing_count(s, k) <= j < s.len() implies in_class(
            #[trigger] s[j],
            k,
        ) by {
            if j < s.len() - 1 {
                assert(s[j] == t[j]);
            }
        }
    } else {
        assert(s.take(s.len() as int) == s);
    }
}

/// A text that starts and ends outside the class `k` and occurs in `s` still
/// occurs in `s` once `s` is stripped of `k`.
pub proof fn lemma_strip_keeps_occurrence(s: Seq<char>, p: Seq<char>, k: CharClass)
    requires
        found_in(s, p),
        p.len() > 0,
        !in_class(p[0], k),
        !in_class(p.last(), k),
    ensures
        found_in(strip_of(s, k), p),
{
    let i = choose|i: int| found_at(s, i, p);
    assert(s.subrange(i, i + p.len())[0] == p[0]);
    assert(s.subrange(i, i + p.len())[p.len() - 1] == p.last());
    lemma_strip_start(s, k);
    let lead = leading_count(s, k) as int;
    assert(i >= lead) by {
        if i < lead {
            assert(in_class(s[i], k));
        }
    }
    let t = s.skip(lead);
    lemma_strip_end(t, k);
    let keep = t.len() - trailing_count(t, k);
    let last = i + p.len() - 1 - lead;
    assert(t[last] == p.last());
    assert(last < keep) by {
        if last >= keep {
            assert(in_class(t[last], k));
        }
    }
    let u = t.take(keep);
    assert(u.subrange(i - lead, i - lead + p.len()) == s.subrange(i, i + p.len()));
    assert(found_at(u, i - lead, p));
}

// ---------------------------------------------------------------------------
// Replacement
// ---------------------------------------------------------------------------

/// `s` with every occurrence of `from` replaced by `to`, scanning from the
/// left and skipping over each occurrence once it is replaced. An empty
/// `from` replaces nothing.
pub open spec fn replaced(s: Seq<char>, from: Seq<char>, to: Seq<char>) -> Seq<char>
    decreases s.len(),
{
    if s.len() == 0 {
        s
    } else if from.len() > 0 && found_at(s, 0, from) {
        to + replaced(s.skip(from.len() as int), from, to)
    } else {
        seq![s[0]] + replaced(s.skip(1), from, to)
    }
}

/// Replacing a character by another leaves none of the first, and keeps the
/// length.
pub proof fn lemma_replaced_char(s: Seq<char>, a: char, b: char)
    requires
        a != b,
    ensures
        replaced(s, seq![a], seq![b]).len() == s.len(),
        forall|i: int|
            0 <= i < s.len() ==> #[trigger] replaced(s, seq![a], seq![b])[i] == if s[i] == a {
                b
            } else {
                s[i]
            },
    decreases s.len(),
{
    if s.len() > 0 {
        let rest = s.skip(1);
        lemma_replaced_char(rest, a, b);
        let r = replaced(s, seq![a], seq![b]);
        if found_at(s, 0, seq![a]) {
            assert(s.subrange(0, 1)[0] == a);
            assert(s.skip(seq![a].len() as int) == rest);
            assert(r == seq![b] + replaced(rest, seq![a], seq![b]));
        } else {
            if s[0] == a {
                assert(s.subrange(0, 1) == seq![a]);
            }
            assert(r == seq![s[0]] + replaced(rest, seq![a], seq![b]));
        }
        assert forall|i: int| 0 <= i < s.len() implies #[trigger] r[i] == if s[i] == a {
            b
        } else {
            s[i]
        } by {
            if i > 0 {
                assert(r[i] == replaced(rest, seq![a], seq![b])[i - 1]);
                assert(rest[i - 1] == s[i]);
            }
        }
    }
}

/// Computes `replaced`.
pub fn replace_chars(s: &Vec<char>, from: &Vec<char>, to: &Vec<char>) -> (out: Vec<char>)
    ensures
        out@ == replaced(s@, from@, to@),
{
    let mut out: Vec<char> = Vec::new();
    let mut i: usize = 0;
    assert(s@.skip(0) == s@);
    assert(out@ + replaced(s@, from@, to@) == replaced(s@, from@, to@));
    while i < s.len()
        invariant
            i <= s.len(),
            out@ + replaced(s@.skip(i as int), from@, to@) == replaced(s@, from@, to@),
        decreases s.len() - i,
    {
        let ghost rest = s@.skip(i as int);
        let ghost before = out@;
        if from.len() > 0 && occurs_at(s, i, from) {
            assert(found_at(rest, 0, from@)) by {
                assert(rest.subrange(0, from.len() as int) == s@.subrange(
                    i as int,
                    i + from.len(),
                ));
            }
            push_all(&mut out, to);
            assert(rest.skip(from.len() as int) == s@.skip(i + from.len()));
            assert(before + (to@ + replaced(rest.skip(from.len() as int), from@, to@)) == (before
                + to@) + replaced(rest.skip(from.len() as int), from@, to@));
            i += from.len();
        } else {
            assert(!(from.len() > 0 && found_at(rest, 0, from@))) by {
                if from.len() > 0 && found_at(rest, 0, from@) {
                    assert(rest.subrange(0, from.len() as int) == s@.subrange(
                        i as int,
                        i + from.len(),
                    ));
                }
            }
            out.push(s[i]);
            assert(rest.skip(1) == s@.skip(i + 1));
            assert(before + (seq![rest[0]] + replaced(rest.skip(1), from@, to@)) == before.push(
                rest[0],
            ) + replaced(rest.skip(1), from@, to@));
            i += 1;
        }
    }
    assert(replaced(s@.skip(s.len() as int), from@, to@) == Seq::<char>::empty());
    assert(out@ + Seq::<char>::empty() == out@);
    out
}

/// `replaced` with the pattern and its replacement given as strings.
pub fn replace_str(s: &Vec<char>, from: &str, to: &str) -> (out: Vec<char>)
    ensures
        out@ == replaced(s@, from@, to@),
{
    let f = chars_of(from);
    let t = chars_of(to);
    replace_chars(s, &f, &t)
}

// ---------------------------------------------------------------------------
// Splitting
// ---------------------------------------------------------------------------

/// The position of the first `c` in `s`, or the length of `s` where it has
/// none.
pub open spec fn first_index(s: Seq<char>, c: char) -> int
    decreases s.len(),
{
    if s.len() == 0 || s[0] == c {
        0
    } else {
        1 + first_index(s.drop_first(), c)
    }
}

/// `first_index` lies within the text.
pub proof fn lemma_first_index_bounds(s: Seq<char>, c: char)
    ensures
        0 <= first_index(s, c) <= s.len(),
    decreases s.len(),
{
    if s.len() == 0 || s[0] == c {
    } else {
        lemma_first_index_bounds(s.drop_first(), c);
    }
}

/// A position with no `c` before it, which holds `c` or ends the text, is
/// `first_index`.
pub proof fn lemma_first_index_is(s: Seq<char>, c: char, k: int)
    requires
        0 <= k <= s.len(),
        forall|j: int| 0 <= j < k ==> s[j] != c,
        k == s.len() || s[k] == c,
    ensures
        first_index(s, c) == k,
    decreases s.len(),
{
    if s.len() == 0 || s[0] == c {
    } else {
        let t = s.drop_first();
        assert forall|j: int| 0 <= j < k - 1 implies t[j] != c by {
            assert(t[j] == s[j + 1]);
        }
        lemma_first_index_is(t, c, k - 1);
    }
}

/// The part of `v` before its first `c`: all of `v` where it has none.
pub fn before_first(v: &Vec<char>, c: char) -> (out: Vec<char>)
    ensures
        out@ == v@.take(first_index(v@, c)),
{
    let mut k: usize = 0;
    while k < v.len() && v[k] != c
        invariant
            k <= v.len(),
            forall|j: int| 0 <= j < k ==> v@[j] != c,
        decreases v.len() - k,
    {
        k += 1;
    }
    proof {
        lemma_first_index_is(v@, c, k as int);
    }
    let out = slice_chars(v, 0, k);
    assert(v@.subrange(0, k as int) == v@.take(k as int));
    out
}

/// The pieces of `s` between occurrences of `c`. A text without `c` is one
/// piece; a `c` at either end bounds an empty piece.
pub open spec fn split_on(s: Seq<char>, c: char) -> Seq<Seq<char>>
    decreases s.len(),
{
    let k = first_index(s, c);
    if 0 <= k < s.len() {
        seq![s.take(k)] + split_on(s.skip(k + 1), c)
    } else {
        seq![s]
    }
}

/// Every piece of a text occurs in the text.
pub proof fn lemma_pieces_occur(s: Seq<char>, c: char, k: int)
    requires
        0 <= k < split_on(s, c).len(),
    ensures
        found_in(s, split_on(s, c)[k]),
    decreases s.len(),
{
    lemma_first_index_bounds(s, c);
    let f = first_index(s, c);
    if 0 <= f < s.len() {
        let rest = s.skip(f + 1);
        if k == 0 {
            assert(s.subrange(0, f) == s.take(f));
            assert(found_at(s, 0, s.take(f)));
        } else {
            assert(split_on(s, c)[k] == split_on(rest, c)[k - 1]);
            lemma_pieces_occur(rest, c, k - 1);
            let p = split_on(rest, c)[k - 1];
            let i = choose|i: int| found_at(rest, i, p);
            assert(s.subrange(f + 1 + i, f + 1 + i + p.len()) == rest.subrange(i, i + p.len()));
            assert(found_at(s, f + 1 + i, p));
        }
    } else {
        assert(s.subrange(0, s.len() as int) == s);
        assert(found_at(s, 0, s));
    }
}

/// Computes `split_on`.
pub fn split_chars(v: &Vec<char>, c: char) -> (out: Vec<Vec<char>>)
    ensures
        views_of(out@) == split_on(v@, c),
{
    let mut out: Vec<Vec<char>> = Vec::new();
    let mut start: usize = 0;
    let mut i: usize = 0;
    assert(v@.skip(0) == v@);
    assert(views_of(out@) == Seq::<Seq<char>>::empty());
    assert(Seq::<Seq<char>>::empty() + split_on(v@, c) == split_on(v@, c));
    while i < v.len()
        invariant
            start <= i <= v.len(),
            views_of(out@) + split_on(v@.skip(start as int), c) == split_on(v@, c),
            forall|j: int| start <= j < i ==> v@[j] != c,
        decreases v.len() - i,
    {
        if v[i] == c {
            let piece = slice_chars(v, start, i);
            let ghost rest = v@.skip(start as int);
            let ghost before = views_of(out@);
            proof {
                lemma_first_index_is(rest, c, i - start);
                assert(rest.take(i - start) == piece@);
                assert(rest.skip(i - start + 1) == v@.skip(i + 1));
            }
            out.push(piece);
            assert(views_of(out@) == before.push(piece@));
            assert(before + (seq![piece@] + split_on(v@.skip(i + 1), c)) == before.push(piece@)
                + split_on(v@.skip(i + 1), c));
            start = i + 1;
        }
        i += 1;
    }
    let piece = slice_chars(v, start, v.len());
    let ghost rest = v@.skip(start as int);
    let ghost before = views_of(out@);
    proof {
        lemma_first_index_is(rest, c, v.len() - start);
        assert(rest == piece@);
    }
    out.push(piece);
    assert(views_of(out@) == before.push(piece@));
    assert(before + seq![piece@] == before.push(piece@));
    out
}

// ---------------------------------------------------------------------------
// Joining
// ---------------------------------------------------------------------------

/// The parts in order, with `sep` between neighbours.
pub open spec fn joined(parts: Seq<Seq<char>>, sep: Seq<char>) -> Seq<char>
    decreases parts.len(),
{
    if parts.len() == 0 {
        Seq::<char>::empty()
    } else if parts.len() == 1 {
        parts[0]
    } else {
        joined(parts.drop_last(), sep) + sep + parts.last()
    }
}

/// The views of the vectors of `parts`, in order.
pub open spec fn views_of(parts: Seq<Vec<char>>) -> Seq<Seq<char>> {
    parts.map_values(|p: Vec<char>| p@)
}

/// Computes `joined`.
pub fn join_chars(parts: &Vec<Vec<char>>, sep: &str) -> (out: Vec<char>)
    ensures
        out@ == joined(views_of(parts@), sep@),
{
    let mut out: Vec<char> = Vec::new();
    let sepv = chars_of(sep);
    let ghost all = views_of(parts@);
    let mut i: usize = 0;
    while i < parts.len()
        invariant
            i <= parts.len(),
            all == views_of(parts@),
            sepv@ == sep@,
            out@ == joined(all.take(i as int), sep@),
        decreases parts.len() - i,
    {
        let ghost head = all.take(i + 1);
        assert(head.drop_last() == all.take(i as int));
        assert(head.last() == parts@[i as int]@);
        if i > 0 {
            push_all(&mut out, &sepv);
        }
        push_all(&mut out, &parts[i]);
        assert(out@ == joined(head, sep@)) by {
            if i == 0 {
                assert(joined(all.take(0), sep@) == Seq::<char>::empty());
                assert(Seq::<char>::empty() + parts@[0]@ == parts@[0]@);
            }
        }
        i += 1;
    }
    assert(all.take(parts.len() as int) == all);
    out
}

// ---------------------------------------------------------------------------
// Decimal numerals
// ---------------------------------------------------------------------------

/// The character of the decimal digit `d`.
pub open spec fn digit_char(d: nat) -> char {
    (0x30 + d) as char
}

/// The decimal numeral of `n`, without leading zeros.
pub open spec fn decimal(n: nat) -> Seq<char>
    decreases n,
{
    if n < 10 {
        seq![digit_char(n)]
    } else {
        decimal(n / 10).push(digit_char(n % 10))
    }
}

/// The decimal numeral of the integer `n`, with `-` before a negative one.
pub open spec fn signed_decimal(n: int) -> Seq<char> {
    if n < 0 {
        seq!['-'] + decimal((-n) as nat)
    } else {
        decimal(n as nat)
    }
}

/// Appends the decimal numeral of `n` to `out`.
pub fn push_decimal(out: &mut Vec<char>, n: u64)
    ensures
        final(out)@ == old(out)@ + decimal(n as nat),
    decreases n,
{
    if n >= 10 {
        push_decimal(out, n / 10);
    }
    let d: u8 = (n % 10) as u8;
    let c: char = (0x30u8 + d) as char;
    out.push(c);
    assert(c == digit_char((n % 10) as nat));
    assert(final(out)@ == old(out)@ + decimal(n as nat)) by {
        if n < 10 {
            assert(old(out)@.push(c) == old(out)@ + seq![c]);
        } else {
            assert((old(out)@ + decimal((n / 10) as nat)).push(c) == old(out)@ + decimal(
                (n / 10) as nat,
            ).push(c));
        }
    }
}

/// Appends the decimal numeral of the signed integer `n` to `out`.
pub fn push_signed_decimal(out: &mut Vec<char>, n: i64)
    ensures
        final(out)@ == old(out)@ + signed_decimal(n as int),
{
    if n < 0 {
        out.push('-');
        let m: u64 = if n == i64::MIN {
            0x8000_0000_0000_0000u64
        } else {
            (-n) as u64
        };
        push_decimal(out, m);
        assert(old(out)@.push('-') + decimal(m as nat) == old(out)@ + (seq!['-'] + decimal(
            m as nat,
        )));
    } else {
        push_decimal(out, n as u64);
    }
}

/// The decimal numeral of `n` as a string.
pub fn decimal_string(n: u64) -> (out: String)
    ensures
        out@ == decimal(n as nat),
{
    let mut v: Vec<char> = Vec::new();
    push_decimal(&mut v, n);
    assert(Seq::<char>::empty() + decimal(n as nat) == decimal(n as nat));
    string_of(&v)
}

// ---------------------------------------------------------------------------
// Lower case
// ---------------------------------------------------------------------------

/// The lower-case form of a text, as `str::to_lowercase` computes it.
pub uninterp spec fn lowercase(s: Seq<char>) -> Seq<char>;

/// `str::to_lowercase` maps a text to its lower-case form by Unicode's
/// rules; the result depends on the text alone.
#[verifier::external_body]
pub(crate) fn to_lowercase(s: &str) -> (out: String)
    ensures
        out@ == lowercase(s@),
{
    s.to_lowercase()
}

/// The lower-case form of `s`, as characters.
pub fn lowercase_chars(s: &str) -> (out: Vec<char>)
    ensures
        out@ == lowercase(s@),
{
    let l = to_lowercase(s);
    chars_of(l.as_str())
}

} // verus!
