//! The diagnostic trail: an ordered, append-only record of what a tool
//! attempted, kept for the operator and apart from the tool's result.

use crate::json::{members_view, opt_json_view, Json, JsonView};
use crate::text::owned;
use vstd::prelude::*;

verus! {

/// One entry of the diagnostic trail.
#[derive(Debug, PartialEq, Eq)]
pub struct DiagnosticStep {
    /// `INFO`, `WARN` or `ERROR`.
    pub level: String,
    pub message: String,
    /// A structured payload, where the entry has one.
    pub meta: Option<Json>,
}

/// An entry of the trail as plain values.
pub struct DiagView {
    pub level: Seq<char>,
    pub message: Seq<char>,
    pub meta: Option<JsonView>,
}

impl View for DiagnosticStep {
    type V = DiagView;

    open spec fn view(&self) -> DiagView {
        DiagView { level: self.level@, message: self.message@, meta: opt_json_view(self.meta) }
    }
}

/// The views of a trail.
pub open spec fn trail_view(steps: Seq<DiagnosticStep>) -> Seq<DiagView> {
    steps.map_values(|s: DiagnosticStep| s@)
}

/// The entry with level `INFO` and the given message, without a payload.
pub open spec fn info_view(message: Seq<char>) -> DiagView {
    DiagView { level: "INFO"@, message, meta: None }
}

/// The entry with level `INFO`, the given message and the given payload.
pub open spec fn info_with(message: Seq<char>, meta: Seq<(Seq<char>, JsonView)>) -> DiagView {
    DiagView { level: "INFO"@, message, meta: Some(JsonView::Object(meta)) }
}

/// The entry with level `WARN` and the given message, without a payload.
pub open spec fn warn_view(message: Seq<char>) -> DiagView {
    DiagView { level: "WARN"@, message, meta: None }
}

/// The entry with level `ERROR` and the given message, without a payload.
pub open spec fn error_view(message: Seq<char>) -> DiagView {
    DiagView { level: "ERROR"@, message, meta: None }
}

/// The entry with level `ERROR`, the given message and the given payload.
pub open spec fn error_with(message: Seq<char>, meta: Seq<(Seq<char>, JsonView)>) -> DiagView {
    DiagView { level: "ERROR"@, message, meta: Some(JsonView::Object(meta)) }
}

impl DiagnosticStep {
    /// An entry with level `INFO`.
    pub fn info(message: String, meta: Option<Json>) -> (r: DiagnosticStep)
        ensures
            r@ == (DiagView { level: "INFO"@, message: message@, meta: opt_json_view(meta) }),
            r.meta == meta,
    {
        DiagnosticStep { level: owned("INFO"), message, meta }
    }

    /// An entry with level `WARN`.
    pub fn warn(message: String, meta: Option<Json>) -> (r: DiagnosticStep)
        ensures
            r@ == (DiagView { level: "WARN"@, message: message@, meta: opt_json_view(meta) }),
            r.meta == meta,
    {
        DiagnosticStep { level: owned("WARN"), message, meta }
    }

    /// An entry with level `ERROR`.
    pub fn error(message: String, meta: Option<Json>) -> (r: DiagnosticStep)
        ensures
            r@ == (DiagView { level: "ERROR"@, message: message@, meta: opt_json_view(meta) }),
            r.meta == meta,
    {
        DiagnosticStep { level: owned("ERROR"), message, meta }
    }
}

/// One entry of the diagnostic trail, as the caller receives it.
#[derive(Debug, PartialEq, Eq)]
pub struct DiagnosticStepDto {
    pub level: String,
    pub message: String,
    pub meta: Option<Json>,
}

impl View for DiagnosticStepDto {
    type V = DiagView;

    open spec fn view(&self) -> DiagView {
        DiagView { level: self.level@, message: self.message@, meta: opt_json_view(self.meta) }
    }
}

/// The views of a trail as the caller receives it.
pub open spec fn dto_trail_view(steps: Seq<DiagnosticStepDto>) -> Seq<DiagView> {
    steps.map_values(|s: DiagnosticStepDto| s@)
}

/// The trail as the caller receives it: the same entries, in order.
pub fn trail_dto(steps: Vec<DiagnosticStep>) -> (out: Vec<DiagnosticStepDto>)
    ensures
        dto_trail_view(out@) == trail_view(steps@),
{
    let ghost all = steps@;
    let mut out: Vec<DiagnosticStepDto> = Vec::new();
    for s in it: steps.into_iter()
        invariant
            it.seq() == all,
            dto_trail_view(out@) == trail_view(all.take(it.index())),
    {
        let ghost before = out@;
        let dto = DiagnosticStepDto { level: s.level, message: s.message, meta: s.meta };
        out.push(dto);
        assert(dto_trail_view(out@) =~= dto_trail_view(before).push(dto@));
        assert(trail_view(all.take(it.index() + 1)) =~= trail_view(all.take(it.index())).push(
            s@,
        ));
    }
    assert(all.take(all.len() as int) == all);
    out
}

/// Appends an entry to a trail.
pub fn record(trail: &mut Vec<DiagnosticStep>, step: DiagnosticStep)
    ensures
        trail_view(final(trail)@) == trail_view(old(trail)@).push(step@),
        final(trail)@ == old(trail)@.push(step),
{
    trail.push(step);
    assert(trail_view(trail@) =~= trail_view(old(trail)@).push(step@));
}

/// A JSON object with the given members, in order.
pub fn object(members: Vec<(String, Json)>) -> (r: Json)
    ensures
        r == Json::Object(members),
        r@ == JsonView::Object(members_view(members@)),
{
    Json::object(members)
}

/// A member of a JSON object whose value is a text.
pub fn text_member(key: &str, value: &str) -> (r: (String, Json))
    ensures
        r.0@ == key@,
        r.1@ == JsonView::Text(value@),
{
    (owned(key), Json::Text(owned(value)))
}

/// A member of a JSON object whose value is a non-negative integer.
pub fn number_member(key: &str, value: u64) -> (r: (String, Json))
    ensures
        r.0@ == key@,
        r.1@ == JsonView::Unsigned(value),
{
    (owned(key), Json::Unsigned(value))
}

/// A member of a JSON object whose value is a truth value.
pub fn bool_member(key: &str, value: bool) -> (r: (String, Json))
    ensures
        r.0@ == key@,
        r.1@ == JsonView::Bool(value),
{
    (owned(key), Json::Bool(value))
}

/// A member of a JSON object whose value is `null`.
pub fn null_member(key: &str) -> (r: (String, Json))
    ensures
        r.0@ == key@,
        r.1@ == JsonView::Null,
{
    (owned(key), Json::Null)
}

} // verus!
