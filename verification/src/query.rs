//! What a search query asks for: whether it implies recency, whether it asks
//! who holds a national office, and how it is rewritten before it is sent.
//!
//! Queries are classified by their lower-case form. Each rule comes twice: as
//! a function of the query, and as a function of a text that is already in
//! lower case, which is where the rule itself is decided.

use crate::text::{
    any_found_in, begins_with, chars_of, contains_any, contains_str, found_in, is_text, lowercase,
    lowercase_chars, owned, push_signed_decimal, push_str, replace_chars, replaced, signed_decimal,
    slice_chars, starts_with_str, string_of, strip_chars, strip_of, strs_view, to_lowercase,
    trim_chars, trim_of, CharClass,
};
use vstd::prelude::*;

verus! {

// ---------------------------------------------------------------------------
// Recency
// ---------------------------------------------------------------------------

/// The markers of a query that asks for something recent.
pub open spec fn time_patterns() -> Seq<Seq<char>> {
    seq![
        "today"@,
        "yesterday"@,
        "few days ago"@,
        "a few days ago"@,
        "latest"@,
        "current"@,
        "this week"@,
        "this month"@,
        "this year"@,
        "recent"@,
        "just"@,
        "super bowl"@,
        "superbowl"@,
        "winner"@,
        "champion"@,
        "score"@,
        "result"@,
    ]
}

/// Whether a lower-case text holds one of the recency markers.
pub open spec fn time_sensitive(lower: Seq<char>) -> bool {
    any_found_in(lower, time_patterns())
}

fn time_pattern_list() -> (v: Vec<&'static str>)
    ensures
        strs_view(v@) == time_patterns(),
{
    let v = vec![
        "today",
        "yesterday",
        "few days ago",
        "a few days ago",
        "latest",
        "current",
        "this week",
        "this month",
        "this year",
        "recent",
        "just",
        "super bowl",
        "superbowl",
        "winner",
        "champion",
        "score",
        "result",
    ];
    assert(strs_view(v@) =~= time_patterns());
    v
}

/// Whether the lower-case text `lower` holds one of the recency markers.
pub fn is_time_sensitive_text(lower: &str) -> (r: bool)
    ensures
        r == time_sensitive(lower@),
{
    let l = chars_of(lower);
    let patterns = time_pattern_list();
    contains_any(&l, &patterns)
}

/// Whether the query implies recency: its lower-case form holds one of the
/// recency markers.
pub fn is_time_sensitive_query(q: &str) -> (r: bool)
    ensures
        r == time_sensitive(lowercase(q@)),
{
    let lower = to_lowercase(q);
    is_time_sensitive_text(lower.as_str())
}

/// The query as it is sent: trimmed, and followed by a space and the year
/// where it is not empty and `sensitive` says that it implies recency.
pub open spec fn with_year(query: Seq<char>, sensitive: bool, year: int) -> Seq<char> {
    let q = trim_of(query);
    if q.len() > 0 && sensitive {
        q + seq![' '] + signed_decimal(year)
    } else {
        q
    }
}

/// The query as it is sent in the year `year`.
pub open spec fn rewritten_query(query: Seq<char>, year: int) -> Seq<char> {
    with_year(query, time_sensitive(lowercase(trim_of(query))), year)
}

/// Builds the query to send from a query and the verdict on its recency.
pub fn append_year(query: &str, sensitive: bool, year: i32) -> (out: String)
    ensures
        out@ == with_year(query@, sensitive, year as int),
{
    let raw = chars_of(query);
    let mut q = trim_chars(&raw);
    if q.len() > 0 && sensitive {
        q.push(' ');
        push_signed_decimal(&mut q, year as i64);
        assert(trim_of(query@).push(' ') + signed_decimal(year as int) == trim_of(query@)
            + seq![' '] + signed_decimal(year as int));
    }
    string_of(&q)
}

/// Rewrites a query for recency: the trimmed query, with the year appended
/// where the query is time-sensitive. The second component is the recency
/// window in days, which is the default handed in.
pub fn rewrite_web_search_query(query: &str, recency_days_default: u32, year: i32) -> (r: (
    String,
    u32,
))
    ensures
        r.0@ == rewritten_query(query@, year as int),
        r.1 == recency_days_default,
{
    let raw = chars_of(query);
    let q = trim_chars(&raw);
    let trimmed = string_of(&q);
    let sensitive = is_time_sensitive_query(trimmed.as_str());
    (append_year(query, sensitive, year), recency_days_default)
}

// ---------------------------------------------------------------------------
// Office holders
// ---------------------------------------------------------------------------

/// The phrases of a query that asks who holds a national office.
pub open spec fn office_patterns() -> Seq<Seq<char>> {
    seq![
        "current president of"@,
        "who is the president of"@,
        "president of the"@,
        "current prime minister of"@,
        "who is the prime minister of"@,
        "prime minister of the"@,
        "current leader of"@,
        "who is the leader of"@,
        "leader of the"@,
    ]
}

/// Whether a lower-case text holds one of the office phrases.
pub open spec fn asks_officeholder(lower: Seq<char>) -> bool {
    any_found_in(lower, office_patterns())
}

fn office_pattern_list() -> (v: Vec<&'static str>)
    ensures
        strs_view(v@) == office_patterns(),
{
    let v = vec![
        "current president of",
        "who is the president of",
        "president of the",
        "current prime minister of",
        "who is the prime minister of",
        "prime minister of the",
        "current leader of",
        "who is the leader of",
        "leader of the",
    ];
    assert(strs_view(v@) =~= office_patterns());
    v
}

/// Whether the lower-case text `lower` holds one of the office phrases.
pub fn is_officeholder_text(lower: &str) -> (r: bool)
    ensures
        r == asks_officeholder(lower@),
{
    let l = chars_of(lower);
    let patterns = office_pattern_list();
    contains_any(&l, &patterns)
}

/// Whether the query asks who holds a national office: its lower-case form
/// holds one of the office phrases.
pub fn is_officeholder_query(q: &str) -> (r: bool)
    ensures
        r == asks_officeholder(lowercase(q@)),
{
    let lower = to_lowercase(q);
    is_officeholder_text(lower.as_str())
}

/// The office a lower-case text names: `prime minister` before `president`
/// before `leader`.
pub open spec fn office_label(lower: Seq<char>) -> Option<Seq<char>> {
    if found_in(lower, "prime minister"@) {
        Some("prime minister"@)
    } else if found_in(lower, "president"@) {
        Some("president"@)
    } else if found_in(lower, "leader"@) {
        Some("leader"@)
    } else {
        None
    }
}

/// The knowledge-graph property that holds an office: `P6`, head of
/// government, for a prime minister; `P35`, head of state, for the others.
pub open spec fn office_property(label: Seq<char>) -> Seq<char> {
    if label == "prime minister"@ {
        "P6"@
    } else {
        "P35"@
    }
}

/// `lower` without the phrases that lead up to the country, for the office
/// `label`: `current <label> of`, `who is the <label> of`, `<label> of the`,
/// removed in this order.
pub open spec fn without_office(lower: Seq<char>, label: Seq<char>) -> Seq<char> {
    let none = Seq::<char>::empty();
    replaced(
        replaced(replaced(lower, "current "@ + label + " of"@, none), "who is the "@ + label
            + " of"@, none),
        label + " of the"@,
        none,
    )
}

/// The country in what is left of a query. Where the text, trimmed and
/// stripped of `.`, `?` and `,` at its ends, starts with `the `, the country
/// is what follows; else it is the text as it is trimmed, marks included.
pub open spec fn country_in(rest: Seq<char>) -> Seq<char> {
    let a = trim_of(rest);
    let c = trim_of(strip_of(a, CharClass::StopMark));
    if begins_with(c, "the "@) {
        trim_of(c.skip(4))
    } else {
        trim_of(a)
    }
}

/// The usual name of a country that is often written short; every other
/// text stands for itself.
pub open spec fn country_name(c: Seq<char>) -> Seq<char> {
    if c == "usa"@ || c == "us"@ || c == "u.s."@ || c == "u.s.a."@ || c == "united states"@ || c
        == "america"@ {
        "United States"@
    } else if c == "uk"@ || c == "u.k."@ || c == "united kingdom"@ || c == "britain"@ || c
        == "england"@ {
        "United Kingdom"@
    } else if c == "france"@ {
        "France"@
    } else if c == "germany"@ {
        "Germany"@
    } else if c == "canada"@ {
        "Canada"@
    } else if c == "australia"@ {
        "Australia"@
    } else if c == "india"@ {
        "India"@
    } else if c == "japan"@ {
        "Japan"@
    } else {
        c
    }
}

/// What an office-holder query asks, read from its trimmed lower-case form:
/// the country to search for, the property that holds the office, and the
/// office's label. `None` where no office is named or no country is left.
pub open spec fn officeholder(lower: Seq<char>) -> Option<(Seq<char>, Seq<char>, Seq<char>)> {
    match office_label(lower) {
        None => None,
        Some(label) => {
            let country = country_in(without_office(lower, label));
            if country.len() == 0 {
                None
            } else {
                Some((country_name(country), office_property(label), label))
            }
        },
    }
}

/// Computes `country_name`.
pub fn usual_country_name(c: &Vec<char>) -> (out: String)
    ensures
        out@ == country_name(c@),
{
    if is_text(c, "usa") || is_text(c, "us") || is_text(c, "u.s.") || is_text(c, "u.s.a.")
        || is_text(c, "united states") || is_text(c, "america") {
        owned("United States")
    } else if is_text(c, "uk") || is_text(c, "u.k.") || is_text(c, "united kingdom") || is_text(
        c,
        "britain",
    ) || is_text(c, "england") {
        owned("United Kingdom")
    } else if is_text(c, "france") {
        owned("France")
    } else if is_text(c, "germany") {
        owned("Germany")
    } else if is_text(c, "canada") {
        owned("Canada")
    } else if is_text(c, "australia") {
        owned("Australia")
    } else if is_text(c, "india") {
        owned("India")
    } else if is_text(c, "japan") {
        owned("Japan")
    } else {
        string_of(c)
    }
}

/// Computes `without_office`.
fn strip_office(lower: &Vec<char>, label: &'static str) -> (out: Vec<char>)
    ensures
        out@ == without_office(lower@, label@),
{
    let none: Vec<char> = Vec::new();
    let mut current = chars_of("current ");
    push_str(&mut current, label);
    push_str(&mut current, " of");
    let mut who_is = chars_of("who is the ");
    push_str(&mut who_is, label);
    push_str(&mut who_is, " of");
    let mut of_the = chars_of(label);
    push_str(&mut of_the, " of the");
    let a = replace_chars(lower, &current, &none);
    let b = replace_chars(&a, &who_is, &none);
    assert(none@ == Seq::<char>::empty());
    replace_chars(&b, &of_the, &none)
}

/// Computes `country_in`.
fn find_country(rest: &Vec<char>) -> (out: Vec<char>)
    ensures
        out@ == country_in(rest@),
{
    let a = trim_chars(rest);
    let b = strip_chars(&a, CharClass::StopMark);
    let c = trim_chars(&b);
    proof {
        reveal_strlit("the ");
    }
    if starts_with_str(&c, "the ") {
        let d = slice_chars(&c, 4, c.len());
        assert(c@.subrange(4, c.len() as int) == c@.skip(4));
        trim_chars(&d)
    } else {
        trim_chars(&a)
    }
}

/// Reads what an office-holder query asks from `lower`, its trimmed
/// lower-case form.
pub fn officeholder_of_text(lower: &str) -> (r: Option<(String, &'static str, &'static str)>)
    ensures
        match r {
            Some((c, p, l)) => officeholder(lower@) == Some((c@, p@, l@)),
            None => officeholder(lower@) is None,
        },
{
    let l = chars_of(lower);
    let (property, label): (&'static str, &'static str) = if contains_str(&l, "prime minister") {
        ("P6", "prime minister")
    } else if contains_str(&l, "president") {
        ("P35", "president")
    } else if contains_str(&l, "leader") {
        ("P35", "leader")
    } else {
        return None;
    };
    proof {
        reveal_strlit("prime minister");
        reveal_strlit("president");
        reveal_strlit("leader");
        assert("prime minister"@.len() == 14);
        assert("president"@.len() == 9);
        assert("leader"@.len() == 6);
    }
    let rest = strip_office(&l, label);
    let country = find_country(&rest);
    if country.len() == 0 {
        return None;
    }
    Some((usual_country_name(&country), property, label))
}

/// If the query asks who holds a national office, the country to search
/// for, the property that holds the office, and the office's label. The
/// query is read in its trimmed lower-case form.
pub fn normalize_officeholder_query(q: &str) -> (r: Option<(String, &'static str, &'static str)>)
    ensures
        match r {
            Some((c, p, l)) => officeholder(trim_of(lowercase(q@))) == Some((c@, p@, l@)),
            None => officeholder(trim_of(lowercase(q@))) is None,
        },
{
    let l = lowercase_chars(q);
    let t = trim_chars(&l);
    let lower = string_of(&t);
    officeholder_of_text(lower.as_str())
}

} // verus!
