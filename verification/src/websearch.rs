//! The web search, from the query to the report.
//!
//! A search is a sequence of requests, each decided by the replies before
//! it. It starts with the primary provider. Where that gives no result, a
//! fallback is chosen: a query that implies recency and does not ask about an
//! office gets no fallback, only the advice to open a live search; a query
//! about an office is looked up in the knowledge graph, then in the
//! encyclopedia by the office's title; what is still without result is
//! searched in the encyclopedia as it stands. Last, the pages of the first
//! results are fetched for excerpts.
//!
//! `web_search_start` gives the first request. The caller performs it and
//! hands the reply to `WebSearch::advance`, until that returns the report.

use crate::diag::{
    bool_member, error_view, error_with, info_view, info_with, null_member, number_member,
    object, record, text_member, trail_view, DiagView, DiagnosticStep,
};
use crate::encyclopedia::{
    lemma_page_start, page_next, page_start, start_page_lookup, PageLookupView, PageStep,
    PageStepView, WikipediaLookup,
};
use crate::fetch::{
    fetch_page_excerpt, fetch_request, fetchable, is_fetchable_url, page_request, page_text,
    PAGE_EXCERPT_MAX_RESULTS,
};
use crate::http::{
    body_json, is_success, on_success, pairs_view, param, status_is_success, HttpReply,
    HttpRequest, RequestView,
};
use crate::json::{members_view, opt_json_view, Json, JsonView};
use crate::officeholder::{
    lookup_next, lookup_start, start_lookup, LookupStep, LookupStepView, LookupView,
    OfficeholderLookup,
};
use crate::output::{
    log_step, output_wf, step_view, steps_view, OutputView, ReportView, StepView, WebSearchOutput,
    WebSearchReport, WebSearchStep,
};
use crate::query::{
    asks_officeholder, is_officeholder_query, is_time_sensitive_query,
    normalize_officeholder_query, officeholder, rewrite_web_search_query, rewritten_query,
    time_sensitive,
};
use crate::results::{
    answer_items, answer_of, items_view, items_wf, lemma_answer_items_wf,
    parse_duckduckgo_results, AnswerView, DuckDuckGoResult, ItemView, WebSearchResultItem,
};
use crate::text::{
    chars_of, concat_str, decimal, lowercase, owned, push_decimal, push_str, string_of, trim,
    trim_of,
};
use vstd::prelude::*;

verus! {

// ---------------------------------------------------------------------------
// What is known of the query
// ---------------------------------------------------------------------------

/// What a query asks about an office: the country, the property, the label.
pub type Asked = Option<(String, &'static str, &'static str)>;

/// The view of an `Asked`.
pub open spec fn asked_view(a: Asked) -> Option<(Seq<char>, Seq<char>, Seq<char>)> {
    match a {
        Some((c, p, l)) => Some((c@, p@, l@)),
        None => None,
    }
}

/// What is known of a query before anything is sent.
#[derive(Debug, PartialEq, Eq)]
pub struct QueryFacts {
    /// Whether the query implies recency.
    pub time_sensitive: bool,
    /// Whether the query asks who holds an office.
    pub officeholder: bool,
    /// What the query asks about an office.
    pub asked: Asked,
    /// Whether the trimmed query asks who holds an office.
    pub trimmed_asks: bool,
    /// What the trimmed query asks about an office.
    pub trimmed_asked: Asked,
}

/// The facts as plain values.
pub struct FactsView {
    pub time_sensitive: bool,
    pub officeholder: bool,
    pub asked: Option<(Seq<char>, Seq<char>, Seq<char>)>,
    pub trimmed_asks: bool,
    pub trimmed_asked: Option<(Seq<char>, Seq<char>, Seq<char>)>,
}

impl View for QueryFacts {
    type V = FactsView;

    open spec fn view(&self) -> FactsView {
        FactsView {
            time_sensitive: self.time_sensitive,
            officeholder: self.officeholder,
            asked: asked_view(self.asked),
            trimmed_asks: self.trimmed_asks,
            trimmed_asked: asked_view(self.trimmed_asked),
        }
    }
}

/// The facts of a query, read from its lower-case form.
pub open spec fn facts_of(query: Seq<char>) -> FactsView {
    FactsView {
        time_sensitive: time_sensitive(lowercase(query)),
        officeholder: asks_officeholder(lowercase(query)),
        asked: officeholder(trim_of(lowercase(query))),
        trimmed_asks: asks_officeholder(lowercase(trim_of(query))),
        trimmed_asked: officeholder(trim_of(lowercase(trim_of(query)))),
    }
}

/// Computes `facts_of`.
pub fn classify(query: &str) -> (r: QueryFacts)
    ensures
        r@ == facts_of(query@),
{
    let trimmed = trim(query);
    QueryFacts {
        time_sensitive: is_time_sensitive_query(query),
        officeholder: is_officeholder_query(query),
        asked: normalize_officeholder_query(query),
        trimmed_asks: is_officeholder_query(trimmed.as_str()),
        trimmed_asked: normalize_officeholder_query(trimmed.as_str()),
    }
}

fn copy_asked(a: &Asked) -> (r: Asked)
    ensures
        asked_view(r) == asked_view(*a),
{
    match a {
        Some((c, p, l)) => Some((c.clone(), *p, *l)),
        None => None,
    }
}

// ---------------------------------------------------------------------------
// The state of a search
// ---------------------------------------------------------------------------

/// Which reply a search waits for.
#[derive(Debug, PartialEq, Eq)]
pub enum SearchStage {
    /// The primary provider's answer.
    Primary,
    /// A reply within the lookup of an office's holder.
    Officeholder(OfficeholderLookup),
    /// A reply within the encyclopedia lookup of an office.
    OfficeSummary(WikipediaLookup),
    /// A reply within the encyclopedia lookup of the query as it stands.
    Encyclopedia(WikipediaLookup),
    /// The page of the result with this index.
    Excerpt(usize),
}

/// A stage as plain values.
pub enum StageView {
    Primary,
    Officeholder(LookupView),
    OfficeSummary(PageLookupView),
    Encyclopedia(PageLookupView),
    Excerpt(int),
}

impl View for SearchStage {
    type V = StageView;

    open spec fn view(&self) -> StageView {
        match self {
            SearchStage::Primary => StageView::Primary,
            SearchStage::Officeholder(l) => StageView::Officeholder(l@),
            SearchStage::OfficeSummary(l) => StageView::OfficeSummary(l@),
            SearchStage::Encyclopedia(l) => StageView::Encyclopedia(l@),
            SearchStage::Excerpt(k) => StageView::Excerpt(*k as int),
        }
    }
}

/// A search in progress.
#[derive(Debug, PartialEq, Eq)]
pub struct WebSearch {
    /// The query as the caller gave it.
    pub query: String,
    /// The query as it was sent to the primary provider.
    pub query_rewritten: String,
    pub recency_days: u32,
    /// The most results to read from the primary provider, 1 to 10.
    pub max_results: u32,
    /// Whether pages are fetched for excerpts.
    pub include_excerpts: bool,
    pub facts: QueryFacts,
    /// The status of the primary provider's response.
    pub status: u16,
    pub provider: String,
    pub results: Vec<WebSearchResultItem>,
    pub steps: Vec<WebSearchStep>,
    pub trail: Vec<DiagnosticStep>,
    pub suggest: Option<bool>,
    pub stage: SearchStage,
}

/// A search in progress, as plain values.
pub struct SearchView {
    pub query: Seq<char>,
    pub query_rewritten: Seq<char>,
    pub recency_days: u32,
    pub max_results: u32,
    pub include_excerpts: bool,
    pub facts: FactsView,
    pub status: u16,
    pub provider: Seq<char>,
    pub results: Seq<ItemView>,
    pub steps: Seq<StepView>,
    pub trail: Seq<DiagView>,
    pub suggest: Option<bool>,
    pub stage: StageView,
}

impl View for WebSearch {
    type V = SearchView;

    open spec fn view(&self) -> SearchView {
        SearchView {
            query: self.query@,
            query_rewritten: self.query_rewritten@,
            recency_days: self.recency_days,
            max_results: self.max_results,
            include_excerpts: self.include_excerpts,
            facts: self.facts@,
            status: self.status,
            provider: self.provider@,
            results: items_view(self.results@),
            steps: steps_view(self.steps@),
            trail: trail_view(self.trail@),
            suggest: self.suggest,
            stage: self.stage@,
        }
    }
}

/// What a search does next.
#[derive(Debug, PartialEq, Eq)]
pub enum SearchStep {
    /// Make this request and hand the reply to `advance`.
    Ask(WebSearch, HttpRequest),
    /// The search is over.
    Finish(WebSearchReport),
}

/// A step as plain values.
pub enum SearchStepView {
    Ask(SearchView, RequestView),
    Finish(ReportView),
}

impl View for SearchStep {
    type V = SearchStepView;

    open spec fn view(&self) -> SearchStepView {
        match self {
            SearchStep::Ask(s, r) => SearchStepView::Ask(s@, r@),
            SearchStep::Finish(r) => SearchStepView::Finish(r@),
        }
    }
}

// ---------------------------------------------------------------------------
// The rules of a search, over plain values
// ---------------------------------------------------------------------------

/// The number of results to read: 5 where none is asked for, and never fewer
/// than 1 nor more than 10.
pub open spec fn result_limit(asked: Option<u32>) -> u32 {
    match asked {
        None => 5,
        Some(n) => if n < 1 {
            1
        } else if n > 10 {
            10
        } else {
            n
        },
    }
}

/// The language that requests to the primary provider and for pages accept.
pub open spec fn accepted_language() -> Seq<char> {
    "en-US,en;q=0.9"@
}

/// The request to the primary provider for the query `sent`.
pub open spec fn primary_request(sent: Seq<char>) -> RequestView {
    RequestView {
        url: "https://api.duckduckgo.com/"@,
        query: seq![("q"@, trim_of(sent)), ("format"@, "json"@)],
        timeout_secs: 10,
        user_agent: crate::fetch::browser_agent(),
        accept_language: Some(accepted_language()),
    }
}

/// How a search starts: the state before the primary provider has answered,
/// and the request to it. `facts` is what is known of the query, `sent` the
/// query as rewritten for recency.
pub open spec fn search_start(
    query: Seq<char>,
    max_results: Option<u32>,
    include_page_excerpts: Option<bool>,
    facts: FactsView,
    sent: Seq<char>,
) -> SearchStepView {
    SearchStepView::Ask(
        SearchView {
            query,
            query_rewritten: sent,
            recency_days: 30,
            max_results: result_limit(max_results),
            include_excerpts: match include_page_excerpts {
                Some(b) => b,
                None => true,
            },
            facts,
            status: 0,
            provider: "duckduckgo"@,
            results: Seq::<ItemView>::empty(),
            steps: seq![step_view("validate"@, true, "config ok"@)],
            trail: seq![
                info_with(
                    "Step 1: validate config (provider: DuckDuckGo, no API key required)"@,
                    seq![
                        ("query_original"@, JsonView::Text(query)),
                        ("query_rewritten"@, JsonView::Text(sent)),
                        ("recency_days"@, JsonView::Unsigned(30)),
                        ("max_results"@, JsonView::Unsigned(result_limit(max_results) as u64)),
                        ("provider"@, JsonView::Text("duckduckgo"@)),
                    ],
                ),
                info_view("Step 2: network check / request start"@),
            ],
            suggest: None,
            stage: StageView::Primary,
        },
        primary_request(sent),
    )
}

/// The number of results that carry an excerpt.
pub open spec fn excerpt_count(results: Seq<ItemView>) -> nat
    decreases results.len(),
{
    if results.len() == 0 {
        0
    } else {
        excerpt_count(results.drop_last()) + if results.last().page_excerpt is Some {
            1nat
        } else {
            0nat
        }
    }
}

/// `<n> result(s)`
pub open spec fn results_phrase(n: nat) -> Seq<char> {
    decimal(n) + " result(s)"@
}

/// The report of a search that came to its end: the output with what the
/// search holds, the last step and the last entry of the trail added.
pub open spec fn final_report(s: SearchView) -> ReportView {
    ReportView {
        output: OutputView {
            ok: true,
            provider: s.provider,
            query: s.query_rewritten,
            query_original: Some(s.query),
            query_rewritten: Some(s.query_rewritten),
            recency_days: Some(s.recency_days),
            status: s.status,
            results: s.results,
            result_count: s.results.len() as int,
            error: None,
            steps: s.steps.push(step_view("done"@, true, results_phrase(s.results.len()))),
            suggest_open_browser_search: s.suggest,
        },
        trail: s.trail.push(
            info_with(
                "Step 5: done"@,
                seq![
                    ("result_count"@, JsonView::Unsigned(s.results.len() as u64)),
                    ("provider"@, JsonView::Text(s.provider)),
                    (
                        "suggest_open_browser_search"@,
                        match s.suggest {
                            Some(b) => JsonView::Bool(b),
                            None => JsonView::Null,
                        },
                    ),
                ],
            ),
        ),
    }
}

/// The report of a search that the primary provider failed: no results, the
/// error, and the steps and entries that say what failed.
pub open spec fn failure_report(
    s: SearchView,
    status: u16,
    error: Seq<char>,
    steps: Seq<StepView>,
    trail: Seq<DiagView>,
) -> ReportView {
    ReportView {
        output: OutputView {
            ok: false,
            provider: "duckduckgo"@,
            query: s.query_rewritten,
            query_original: Some(s.query),
            query_rewritten: Some(s.query_rewritten),
            recency_days: Some(s.recency_days),
            status,
            results: Seq::<ItemView>::empty(),
            result_count: 0,
            error: Some(error),
            steps: s.steps + steps,
            suggest_open_browser_search: None,
        },
        trail: s.trail + trail.push(info_view("Step 5: done (with error)"@)),
    }
}

/// The search from the result with index `k` on: the next page to fetch, or
/// the end. Pages are fetched where excerpts are wanted, for the first four
/// results at most, and only from addresses that can be fetched.
pub open spec fn excerpts_from(s: SearchView, k: int) -> SearchStepView
    decreases 4 - k,
{
    if !s.include_excerpts || s.results.len() == 0 {
        SearchStepView::Finish(final_report(s))
    } else if k < 0 || k >= 4 || k >= s.results.len() {
        SearchStepView::Finish(
            final_report(
                SearchView {
                    trail: s.trail.push(
                        info_with(
                            "Step 4c: page excerpts fetched for "@ + results_phrase(
                                excerpt_count(s.results),
                            ),
                            seq![
                                ("include_page_excerpts"@, JsonView::Bool(true)),
                                (
                                    "with_excerpts"@,
                                    JsonView::Unsigned(excerpt_count(s.results) as u64),
                                ),
                            ],
                        ),
                    ),
                    ..s
                },
            ),
        )
    } else if fetchable(s.results[k].url) {
        SearchStepView::Ask(
            SearchView { stage: StageView::Excerpt(k), ..s },
            fetch_request(s.results[k].url, Some(accepted_language())),
        )
    } else {
        excerpts_from(s, k + 1)
    }
}

/// The search once a page has been asked for: the result with index `k`
/// gets the excerpt that the reply gives, if any, and the search goes on
/// with the next result.
pub open spec fn after_excerpt(s: SearchView, k: int, reply: HttpReply) -> SearchStepView {
    if 0 <= k < s.results.len() {
        match page_text(reply, 2200) {
            Some(text) => excerpts_from(
                SearchView {
                    results: s.results.update(
                        k,
                        ItemView { page_excerpt: Some(text), ..s.results[k] },
                    ),
                    ..s
                },
                k + 1,
            ),
            None => excerpts_from(s, k + 1),
        }
    } else {
        excerpts_from(s, k + 1)
    }
}

/// The search with the results of a fallback taken over.
pub open spec fn with_fallback(
    s: SearchView,
    items: Seq<ItemView>,
    provider: Seq<char>,
    detail: Seq<char>,
) -> SearchView {
    SearchView {
        results: items,
        provider,
        steps: s.steps.push(step_view(provider, true, detail)),
        ..s
    }
}

/// The search once the encyclopedia has been asked about the query as it
/// stands.
pub open spec fn after_encyclopedia(s: SearchView, items: Seq<ItemView>) -> SearchStepView {
    if items.len() > 0 {
        excerpts_from(
            with_fallback(s, items, "wikipedia_fallback"@, results_phrase(items.len())),
            0,
        )
    } else if !s.facts.officeholder {
        excerpts_from(
            SearchView {
                steps: s.steps.push(step_view("wikipedia_fallback"@, false, "no results"@)),
                ..s
            },
            0,
        )
    } else {
        excerpts_from(s, 0)
    }
}

/// The search within the encyclopedia lookup of the query as it stands.
pub open spec fn encyclopedia_step(s: SearchView, step: PageStepView) -> SearchStepView {
    match step {
        PageStepView::Ask(l, request) => SearchStepView::Ask(
            SearchView { stage: StageView::Encyclopedia(l), ..s },
            request,
        ),
        PageStepView::Done(items) => after_encyclopedia(s, items),
    }
}

/// The search as it turns to the encyclopedia with the query as it stands.
pub open spec fn encyclopedia_phase(s: SearchView) -> SearchStepView {
    encyclopedia_step(
        s,
        page_start(s.query, false, s.facts.trimmed_asks, s.facts.trimmed_asked),
    )
}

/// The search once the encyclopedia has been asked about the office.
pub open spec fn after_office_summary(s: SearchView, items: Seq<ItemView>) -> SearchStepView {
    if items.len() > 0 {
        excerpts_from(
            with_fallback(
                s,
                items,
                "wikipedia_fallback"@,
                results_phrase(items.len()) + ", office summary"@,
            ),
            0,
        )
    } else {
        encyclopedia_phase(
            SearchView {
                steps: s.steps.push(step_view("wikidata_officeholder"@, false, "no results"@)),
                ..s
            },
        )
    }
}

/// The search within the encyclopedia lookup of the office.
pub open spec fn office_summary_step(s: SearchView, step: PageStepView) -> SearchStepView {
    match step {
        PageStepView::Ask(l, request) => SearchStepView::Ask(
            SearchView { stage: StageView::OfficeSummary(l), ..s },
            request,
        ),
        PageStepView::Done(items) => after_office_summary(s, items),
    }
}

/// The search once the knowledge graph has been asked who holds the office.
pub open spec fn after_officeholder(s: SearchView, items: Seq<ItemView>) -> SearchStepView {
    if items.len() > 0 {
        excerpts_from(
            with_fallback(s, items, "wikidata_officeholder"@, results_phrase(items.len())),
            0,
        )
    } else {
        office_summary_step(
            s,
            page_start(s.query, true, s.facts.trimmed_asks, s.facts.trimmed_asked),
        )
    }
}

/// The search within the lookup of the office's holder.
pub open spec fn officeholder_step(s: SearchView, step: LookupStepView) -> SearchStepView {
    match step {
        LookupStepView::Ask(l, request) => SearchStepView::Ask(
            SearchView { stage: StageView::Officeholder(l), ..s },
            request,
        ),
        LookupStepView::Done(items) => after_officeholder(s, items),
    }
}

/// The search once the primary provider's answer is read: on with the
/// excerpts where there are results, else the choice of a fallback.
pub open spec fn after_primary(s: SearchView) -> SearchStepView {
    if s.results.len() > 0 {
        excerpts_from(s, 0)
    } else {
        let chosen = SearchView {
            trail: s.trail.push(
                info_view("Step 4b: fallback selection (DDG returned 0 results)"@),
            ),
            ..s
        };
        if s.facts.time_sensitive && !s.facts.officeholder {
            excerpts_from(
                SearchView {
                    suggest: Some(true),
                    steps: chosen.steps.push(
                        step_view(
                            "fallback_skipped"@,
                            false,
                            "time-sensitive query: Wikipedia not used; suggest open_browser_search"@,
                        ),
                    ),
                    ..chosen
                },
                0,
            )
        } else if s.facts.officeholder {
            officeholder_step(chosen, lookup_start(s.facts.asked))
        } else {
            encyclopedia_phase(chosen)
        }
    }
}

/// The message of an answer that cannot be read.
pub open spec fn unreadable_answer() -> Seq<char> {
    "error decoding response body"@
}

/// The search once a response has arrived, with the response's status.
pub open spec fn heard(s: SearchView, status: u16) -> SearchView {
    SearchView {
        status,
        trail: s.trail.push(
            info_with(
                "Step 3: response status "@ + decimal(status as nat),
                seq![("status"@, JsonView::Unsigned(status as u64))],
            ),
        ),
        steps: s.steps.push(step_view("request"@, true, "HTTP "@ + decimal(status as nat))),
        ..s
    }
}

/// The search once the answer is read, with the answer's results.
pub open spec fn parsed(s: SearchView, items: Seq<ItemView>) -> SearchView {
    SearchView {
        results: items,
        trail: s.trail.push(
            info_with(
                "Step 4: parse results count "@ + decimal(items.len()),
                seq![("result_count"@, JsonView::Unsigned(items.len() as u64))],
            ),
        ),
        steps: s.steps.push(step_view("parse"@, true, "result_count "@ + decimal(items.len()))),
        ..s
    }
}

/// The search on the primary provider's reply. `answer` is what the body
/// reads as: `None` where it is not JSON or not shaped like an answer.
pub open spec fn on_primary(s: SearchView, reply: HttpReply, answer: Option<AnswerView>)
    -> SearchStepView {
    match reply {
        HttpReply::Failed(e) => SearchStepView::Finish(
            failure_report(
                s,
                0,
                "web_search request failed: "@ + e@,
                seq![
                    step_view("request"@, false, e@),
                    step_view("done"@, false, "request failed"@),
                ],
                seq![error_view("Step 2 failed: "@ + e@)],
            ),
        ),
        HttpReply::Response { status, length, body } => {
            if !is_success(status) {
                SearchStepView::Finish(
                    failure_report(
                        heard(s, status),
                        status,
                        "HTTP "@ + decimal(status as nat),
                        seq![
                            step_view("parse"@, false, "HTTP error"@),
                            step_view("done"@, false, "status not success"@),
                        ],
                        seq![
                            error_with(
                                "web_search disabled or request failed"@,
                                seq![("status"@, JsonView::Unsigned(status as u64))],
                            ),
                        ],
                    ),
                )
            } else {
                match answer {
                    None => SearchStepView::Finish(
                        failure_report(
                            heard(s, status),
                            status,
                            unreadable_answer(),
                            seq![
                                step_view("parse"@, false, unreadable_answer()),
                                step_view("done"@, false, "parse failed"@),
                            ],
                            seq![error_view("Step 4: parse failed: "@ + unreadable_answer())],
                        ),
                    ),
                    Some(a) => after_primary(
                        parsed(heard(s, status), answer_items(a, s.max_results as int)),
                    ),
                }
            }
        },
    }
}

/// What a search does on a reply, whatever it waits for. `json` is the JSON
/// document of the body, `None` where no response arrived or the body is not
/// JSON.
pub open spec fn search_next(s: SearchView, reply: HttpReply, json: Option<JsonView>)
    -> SearchStepView {
    let idle = SearchView { stage: StageView::Primary, ..s };
    match s.stage {
        StageView::Primary => on_primary(idle, reply, answer_of(json)),
        StageView::Officeholder(l) => officeholder_step(
            idle,
            lookup_next(l, on_success(reply, json)),
        ),
        StageView::OfficeSummary(l) => office_summary_step(
            idle,
            page_next(l, on_success(reply, json)),
        ),
        StageView::Encyclopedia(l) => encyclopedia_step(
            idle,
            page_next(l, on_success(reply, json)),
        ),
        StageView::Excerpt(k) => after_excerpt(idle, k, reply),
    }
}

// ---------------------------------------------------------------------------
// The search itself
// ---------------------------------------------------------------------------

/// Computes `result_limit`.
pub fn clamp_max_results(asked: Option<u32>) -> (r: u32)
    ensures
        r == result_limit(asked),
{
    match asked {
        None => 5,
        Some(n) => if n < 1 {
            1
        } else if n > 10 {
            10
        } else {
            n
        },
    }
}

fn count_excerpts(results: &Vec<WebSearchResultItem>) -> (n: usize)
    ensures
        n == excerpt_count(items_view(results@)),
{
    let ghost all = items_view(results@);
    let mut n: usize = 0;
    let mut i: usize = 0;
    assert(all.take(0) =~= Seq::<ItemView>::empty());
    while i < results.len()
        invariant
            i <= results.len(),
            all == items_view(results@),
            n == excerpt_count(all.take(i as int)),
            n <= i,
        decreases results.len() - i,
    {
        let ghost head = all.take(i + 1);
        assert(head.drop_last() == all.take(i as int));
        assert(head.last() == results@[i as int]@);
        if results[i].page_excerpt.is_some() {
            n += 1;
        }
        i += 1;
    }
    assert(all.take(results.len() as int) == all);
    n
}

/// `<n> result(s)`
fn results_text(n: usize) -> (out: String)
    ensures
        out@ == results_phrase(n as nat),
{
    let mut v: Vec<char> = Vec::new();
    push_decimal(&mut v, n as u64);
    push_str(&mut v, " result(s)");
    assert(Seq::<char>::empty() + decimal(n as nat) == decimal(n as nat));
    string_of(&v)
}

/// The text `prefix` followed by the decimal numeral of `n`.
fn numbered(prefix: &str, n: u64) -> (out: String)
    ensures
        out@ == prefix@ + decimal(n as nat),
{
    let mut v = chars_of(prefix);
    push_decimal(&mut v, n);
    string_of(&v)
}

fn finish(s: WebSearch) -> (r: WebSearchReport)
    ensures
        r@ == final_report(s@),
        r.output.wf(),
{
    let mut s = s;
    let n = s.results.len();
    let members = vec![
        number_member("result_count", n as u64),
        text_member("provider", s.provider.as_str()),
        match s.suggest {
            Some(b) => bool_member("suggest_open_browser_search", b),
            None => null_member("suggest_open_browser_search"),
        },
    ];
    assert(members_view(members@) =~= seq![
        ("result_count"@, JsonView::Unsigned(n as u64)),
        ("provider"@, JsonView::Text(s.provider@)),
        (
            "suggest_open_browser_search"@,
            match s.suggest {
                Some(b) => JsonView::Bool(b),
                None => JsonView::Null,
            },
        ),
    ]);
    let meta = object(members);
    record(&mut s.trail, DiagnosticStep::info(owned("Step 5: done"), Some(meta)));
    log_step(&mut s.steps, "done", true, results_text(n));
    WebSearchReport {
        output: WebSearchOutput {
            ok: true,
            provider: s.provider,
            query: s.query_rewritten.clone(),
            query_original: Some(s.query),
            query_rewritten: Some(s.query_rewritten),
            recency_days: Some(s.recency_days),
            status: s.status,
            results: s.results,
            result_count: n,
            error: None,
            steps: s.steps,
            suggest_open_browser_search: s.suggest,
        },
        diagnostic_steps: s.trail,
    }
}

/// Ends a search that the primary provider failed. The steps and entries
/// that say what failed are in `s` already.
fn fail(s: WebSearch, status: u16, error: String) -> (r: WebSearchReport)
    ensures
        r@ == (ReportView {
            output: OutputView {
                ok: false,
                provider: "duckduckgo"@,
                query: s@.query_rewritten,
                query_original: Some(s@.query),
                query_rewritten: Some(s@.query_rewritten),
                recency_days: Some(s@.recency_days),
                status,
                results: Seq::<ItemView>::empty(),
                result_count: 0,
                error: Some(error@),
                steps: s@.steps,
                suggest_open_browser_search: None,
            },
            trail: s@.trail.push(info_view("Step 5: done (with error)"@)),
        }),
        r.output.wf(),
{
    let mut s = s;
    record(&mut s.trail, DiagnosticStep::info(owned("Step 5: done (with error)"), None));
    let none: Vec<WebSearchResultItem> = Vec::new();
    assert(items_view(none@) =~= Seq::<ItemView>::empty());
    WebSearchReport {
        output: WebSearchOutput {
            ok: false,
            provider: owned("duckduckgo"),
            query: s.query_rewritten.clone(),
            query_original: Some(s.query),
            query_rewritten: Some(s.query_rewritten),
            recency_days: Some(s.recency_days),
            status,
            results: none,
            result_count: 0,
            error: Some(error),
            steps: s.steps,
            suggest_open_browser_search: None,
        },
        diagnostic_steps: s.trail,
    }
}

fn excerpts(s: WebSearch, k: usize) -> (r: SearchStep)
    ensures
        r@ == excerpts_from(s@, k as int),
        r matches SearchStep::Finish(report) ==> report.output.wf(),
    decreases 4 - k,
{
    if !s.include_excerpts || s.results.len() == 0 {
        return SearchStep::Finish(finish(s));
    }
    if k >= PAGE_EXCERPT_MAX_RESULTS || k >= s.results.len() {
        let mut s = s;
        let n = count_excerpts(&s.results);
        let mut message = chars_of("Step 4c: page excerpts fetched for ");
        let phrase = results_text(n);
        push_str(&mut message, phrase.as_str());
        let members = vec![
            bool_member("include_page_excerpts", true),
            number_member("with_excerpts", n as u64),
        ];
        assert(members_view(members@) =~= seq![
            ("include_page_excerpts"@, JsonView::Bool(true)),
            ("with_excerpts"@, JsonView::Unsigned(n as u64)),
        ]);
        let meta = object(members);
        record(&mut s.trail, DiagnosticStep::info(string_of(&message), Some(meta)));
        return SearchStep::Finish(finish(s));
    }
    if is_fetchable_url(s.results[k].url.as_str()) {
        let mut s = s;
        let request = page_request(s.results[k].url.as_str(), Some(owned("en-US,en;q=0.9")));
        s.stage = SearchStage::Excerpt(k);
        SearchStep::Ask(s, request)
    } else {
        excerpts(s, k + 1)
    }
}

/// Beyond the fourth result the search ends the same way wherever it
/// stands.
proof fn lemma_excerpts_beyond(s: SearchView, a: int, b: int)
    requires
        a >= 4,
        b >= 4,
    ensures
        excerpts_from(s, a) == excerpts_from(s, b),
{
}

fn on_excerpt(s: WebSearch, k: usize, reply: &HttpReply) -> (r: SearchStep)
    ensures
        r@ == after_excerpt(s@, k as int, *reply),
        r matches SearchStep::Finish(report) ==> report.output.wf(),
{
    let next: usize = if k >= 4 {
        4
    } else {
        k + 1
    };
    if k >= s.results.len() {
        proof {
            if k >= 4 {
                lemma_excerpts_beyond(s@, next as int, k + 1);
            }
        }
        return excerpts(s, next);
    }
    match fetch_page_excerpt(reply) {
        Some(text) => {
            let mut s = s;
            let ghost before = s.results@;
            let old_item = s.results.remove(k);
            let new_item = WebSearchResultItem {
                title: old_item.title,
                snippet: old_item.snippet,
                url: old_item.url,
                page_excerpt: Some(text),
            };
            s.results.insert(k, new_item);
            assert(items_view(s.results@) =~= items_view(before).update(
                k as int,
                ItemView { page_excerpt: Some(text@), ..before[k as int]@ },
            ));
            proof {
                if k >= 4 {
                    lemma_excerpts_beyond(s@, next as int, k + 1);
                }
            }
            excerpts(s, next)
        },
        None => {
            proof {
                if k >= 4 {
                    lemma_excerpts_beyond(s@, next as int, k + 1);
                }
            }
            excerpts(s, next)
        },
    }
}

fn take_fallback(
    s: WebSearch,
    items: Vec<WebSearchResultItem>,
    provider: &str,
    detail: String,
) -> (r: WebSearch)
    ensures
        r@ == with_fallback(s@, items_view(items@), provider@, detail@),
{
    let mut s = s;
    s.results = items;
    s.provider = owned(provider);
    log_step(&mut s.steps, provider, true, detail);
    s
}

fn on_encyclopedia(s: WebSearch, step: PageStep) -> (r: SearchStep)
    ensures
        r@ == encyclopedia_step(s@, step@),
        r matches SearchStep::Finish(report) ==> report.output.wf(),
{
    match step {
        PageStep::Ask(l, request) => {
            let mut s = s;
            s.stage = SearchStage::Encyclopedia(l);
            SearchStep::Ask(s, request)
        },
        PageStep::Done(items) => {
            if items.len() > 0 {
                let detail = results_text(items.len());
                excerpts(take_fallback(s, items, "wikipedia_fallback", detail), 0)
            } else if !s.facts.officeholder {
                let mut s = s;
                log_step(&mut s.steps, "wikipedia_fallback", false, owned("no results"));
                excerpts(s, 0)
            } else {
                excerpts(s, 0)
            }
        },
    }
}

fn to_encyclopedia(s: WebSearch) -> (r: SearchStep)
    ensures
        r@ == encyclopedia_phase(s@),
        r matches SearchStep::Finish(report) ==> report.output.wf(),
{
    let step = start_page_lookup(
        s.query.as_str(),
        false,
        s.facts.trimmed_asks,
        copy_asked(&s.facts.trimmed_asked),
    );
    on_encyclopedia(s, step)
}

fn on_office_summary(s: WebSearch, step: PageStep) -> (r: SearchStep)
    ensures
        r@ == office_summary_step(s@, step@),
        r matches SearchStep::Finish(report) ==> report.output.wf(),
{
    match step {
        PageStep::Ask(l, request) => {
            let mut s = s;
            s.stage = SearchStage::OfficeSummary(l);
            SearchStep::Ask(s, request)
        },
        PageStep::Done(items) => {
            if items.len() > 0 {
                let phrase = results_text(items.len());
                let detail = concat_str(phrase.as_str(), ", office summary");
                excerpts(take_fallback(s, items, "wikipedia_fallback", detail), 0)
            } else {
                let mut s = s;
                log_step(&mut s.steps, "wikidata_officeholder", false, owned("no results"));
                to_encyclopedia(s)
            }
        },
    }
}

fn on_officeholder(s: WebSearch, step: LookupStep) -> (r: SearchStep)
    ensures
        r@ == officeholder_step(s@, step@),
        r matches SearchStep::Finish(report) ==> report.output.wf(),
{
    match step {
        LookupStep::Ask(l, request) => {
            let mut s = s;
            s.stage = SearchStage::Officeholder(l);
            SearchStep::Ask(s, request)
        },
        LookupStep::Done(items) => {
            if items.len() > 0 {
                let detail = results_text(items.len());
                excerpts(take_fallback(s, items, "wikidata_officeholder", detail), 0)
            } else {
                let step = start_page_lookup(
                    s.query.as_str(),
                    true,
                    s.facts.trimmed_asks,
                    copy_asked(&s.facts.trimmed_asked),
                );
                on_office_summary(s, step)
            }
        },
    }
}

fn choose_fallback(s: WebSearch) -> (r: SearchStep)
    ensures
        r@ == after_primary(s@),
        r matches SearchStep::Finish(report) ==> report.output.wf(),
{
    if s.results.len() > 0 {
        return excerpts(s, 0);
    }
    let mut s = s;
    record(
        &mut s.trail,
        DiagnosticStep::info(owned("Step 4b: fallback selection (DDG returned 0 results)"), None),
    );
    if s.facts.time_sensitive && !s.facts.officeholder {
        s.suggest = Some(true);
        log_step(
            &mut s.steps,
            "fallback_skipped",
            false,
            owned("time-sensitive query: Wikipedia not used; suggest open_browser_search"),
        );
        excerpts(s, 0)
    } else if s.facts.officeholder {
        let step = start_lookup(copy_asked(&s.facts.asked));
        on_officeholder(s, step)
    } else {
        to_encyclopedia(s)
    }
}

fn primary(s: WebSearch, reply: &HttpReply, answer: Option<DuckDuckGoResult>) -> (r: SearchStep)
    ensures
        r@ == on_primary(
            s@,
            *reply,
            match answer {
                Some(a) => Some(a@),
                None => None,
            },
        ),
        r matches SearchStep::Finish(report) ==> report.output.wf(),
{
    let mut s = s;
    let ghost s0 = s@;
    match reply {
        HttpReply::Failed(e) => {
            log_step(&mut s.steps, "request", false, e.clone());
            log_step(&mut s.steps, "done", false, owned("request failed"));
            record(
                &mut s.trail,
                DiagnosticStep::error(concat_str("Step 2 failed: ", e.as_str()), None),
            );
            assert(s@.steps =~= s0.steps + seq![
                step_view("request"@, false, e@),
                step_view("done"@, false, "request failed"@),
            ]);
            assert(s@.trail.push(info_view("Step 5: done (with error)"@)) =~= s0.trail + seq![
                error_view("Step 2 failed: "@ + e@),
            ].push(info_view("Step 5: done (with error)"@)));
            SearchStep::Finish(fail(s, 0, concat_str("web_search request failed: ", e.as_str())))
        },
        HttpReply::Response { status, length, body } => {
            let status = *status;
            s.status = status;
            let members = vec![number_member("status", status as u64)];
            assert(members_view(members@) =~= seq![
                ("status"@, JsonView::Unsigned(status as u64)),
            ]);
            record(
                &mut s.trail,
                DiagnosticStep::info(
                    numbered("Step 3: response status ", status as u64),
                    Some(object(members)),
                ),
            );
            log_step(&mut s.steps, "request", true, numbered("HTTP ", status as u64));
            let ghost after = s@;
            assert(after == heard(s0, status));
            if !status_is_success(status) {
                log_step(&mut s.steps, "parse", false, owned("HTTP error"));
                log_step(&mut s.steps, "done", false, owned("status not success"));
                let members = vec![number_member("status", status as u64)];
                assert(members_view(members@) =~= seq![
                    ("status"@, JsonView::Unsigned(status as u64)),
                ]);
                record(
                    &mut s.trail,
                    DiagnosticStep::error(
                        owned("web_search disabled or request failed"),
                        Some(object(members)),
                    ),
                );
                assert(s@.steps =~= after.steps + seq![
                    step_view("parse"@, false, "HTTP error"@),
                    step_view("done"@, false, "status not success"@),
                ]);
                assert(s@.trail.push(info_view("Step 5: done (with error)"@)) =~= after.trail
                    + seq![
                    error_with(
                        "web_search disabled or request failed"@,
                        seq![("status"@, JsonView::Unsigned(status as u64))],
                    ),
                ].push(info_view("Step 5: done (with error)"@)));
                return SearchStep::Finish(fail(s, status, numbered("HTTP ", status as u64)));
            }
            match answer {
                None => {
                    log_step(&mut s.steps, "parse", false, owned("error decoding response body"));
                    log_step(&mut s.steps, "done", false, owned("parse failed"));
                    record(
                        &mut s.trail,
                        DiagnosticStep::error(
                            concat_str("Step 4: parse failed: ", "error decoding response body"),
                            None,
                        ),
                    );
                    assert(s@.steps =~= after.steps + seq![
                        step_view("parse"@, false, unreadable_answer()),
                        step_view("done"@, false, "parse failed"@),
                    ]);
                    assert(s@.trail.push(info_view("Step 5: done (with error)"@)) =~= after.trail
                        + seq![error_view("Step 4: parse failed: "@ + unreadable_answer())].push(
                        info_view("Step 5: done (with error)"@),
                    ));
                    SearchStep::Finish(fail(s, status, owned("error decoding response body")))
                },
                Some(a) => {
                    let results = parse_duckduckgo_results(&a, s.max_results as usize);
                    let n = results.len();
                    s.results = results;
                    let members = vec![number_member("result_count", n as u64)];
                    assert(members_view(members@) =~= seq![
                        ("result_count"@, JsonView::Unsigned(n as u64)),
                    ]);
                    record(
                        &mut s.trail,
                        DiagnosticStep::info(
                            numbered("Step 4: parse results count ", n as u64),
                            Some(object(members)),
                        ),
                    );
                    log_step(&mut s.steps, "parse", true, numbered("result_count ", n as u64));
                    choose_fallback(s)
                },
            }
        },
    }
}

impl WebSearch {
    /// Takes the search one step on. `reply` is the reply to its last
    /// request, `json` the JSON document of the reply's body (`None` where
    /// there is none).
    pub fn advance_with(self, reply: &HttpReply, json: Option<Json>) -> (r: SearchStep)
        ensures
            r@ == search_next(self@, *reply, opt_json_view(json)),
            r matches SearchStep::Finish(report) ==> report.output.wf(),
    {
        let WebSearch {
            query,
            query_rewritten,
            recency_days,
            max_results,
            include_excerpts,
            facts,
            status,
            provider,
            results,
            steps,
            trail,
            suggest,
            stage,
        } = self;
        let s = WebSearch {
            query,
            query_rewritten,
            recency_days,
            max_results,
            include_excerpts,
            facts,
            status,
            provider,
            results,
            steps,
            trail,
            suggest,
            stage: SearchStage::Primary,
        };
        let ok = reply.succeeded();
        match stage {
            SearchStage::Primary => {
                let answer = match json {
                    Some(j) => DuckDuckGoResult::from_json(j),
                    None => None,
                };
                primary(s, reply, answer)
            },
            SearchStage::Officeholder(l) => {
                let step = l.advance_with(if ok { json } else { None });
                on_officeholder(s, step)
            },
            SearchStage::OfficeSummary(l) => {
                let step = l.advance_with(if ok { json } else { None });
                on_office_summary(s, step)
            },
            SearchStage::Encyclopedia(l) => {
                let step = l.advance_with(if ok { json } else { None });
                on_encyclopedia(s, step)
            },
            SearchStage::Excerpt(k) => on_excerpt(s, k, reply),
        }
    }

    /// Takes the search one step on, given the reply to its last request.
    pub fn advance(self, reply: &HttpReply) -> (r: SearchStep)
        ensures
            r@ == search_next(self@, *reply, body_json(*reply)),
            r matches SearchStep::Finish(report) ==> report.output.wf(),
    {
        let json = reply.parse_body();
        self.advance_with(reply, json)
    }
}

/// Starts a search from a query, what is known of it, and the query as
/// rewritten for recency.
pub fn start_search(
    query: &str,
    max_results: Option<u32>,
    include_page_excerpts: Option<bool>,
    facts: QueryFacts,
    sent: String,
) -> (r: SearchStep)
    ensures
        r@ == search_start(query@, max_results, include_page_excerpts, facts@, sent@),
{
    let limit = clamp_max_results(max_results);
    let members = vec![
        text_member("query_original", query),
        text_member("query_rewritten", sent.as_str()),
        number_member("recency_days", 30),
        number_member("max_results", limit as u64),
        text_member("provider", "duckduckgo"),
    ];
    let ghost wanted = seq![
        ("query_original"@, JsonView::Text(query@)),
        ("query_rewritten"@, JsonView::Text(sent@)),
        ("recency_days"@, JsonView::Unsigned(30)),
        ("max_results"@, JsonView::Unsigned(limit as u64)),
        ("provider"@, JsonView::Text("duckduckgo"@)),
    ];
    assert(members_view(members@) =~= wanted);
    let meta = object(members);
    let mut trail: Vec<DiagnosticStep> = Vec::new();
    assert(trail_view(trail@) =~= Seq::<DiagView>::empty());
    record(
        &mut trail,
        DiagnosticStep::info(
            owned("Step 1: validate config (provider: DuckDuckGo, no API key required)"),
            Some(meta),
        ),
    );
    record(
        &mut trail,
        DiagnosticStep::info(owned("Step 2: network check / request start"), None),
    );
    let mut steps: Vec<WebSearchStep> = Vec::new();
    assert(steps_view(steps@) =~= Seq::<StepView>::empty());
    log_step(&mut steps, "validate", true, owned("config ok"));
    let sent_trimmed = trim(sent.as_str());
    let params = vec![param("q", sent_trimmed.as_str()), param("format", "json")];
    assert(pairs_view(params@) =~= seq![("q"@, trim_of(sent@)), ("format"@, "json"@)]);
    let request = HttpRequest {
        url: owned("https://api.duckduckgo.com/"),
        query: params,
        timeout_secs: 10,
        user_agent: owned("Mozilla/5.0 (Windows NT 10.0; rv:91.0) Gecko/20100101 Firefox/91.0"),
        accept_language: Some(owned("en-US,en;q=0.9")),
    };
    let results: Vec<WebSearchResultItem> = Vec::new();
    assert(items_view(results@) =~= Seq::<ItemView>::empty());
    assert(steps_view(steps@) =~= seq![step_view("validate"@, true, "config ok"@)]);
    assert(trail_view(trail@) =~= seq![
        info_with(
            "Step 1: validate config (provider: DuckDuckGo, no API key required)"@,
            wanted,
        ),
        info_view("Step 2: network check / request start"@),
    ]);
    SearchStep::Ask(
        WebSearch {
            query: owned(query),
            query_rewritten: sent,
            recency_days: 30,
            max_results: limit,
            include_excerpts: match include_page_excerpts {
                Some(b) => b,
                None => true,
            },
            facts,
            status: 0,
            provider: owned("duckduckgo"),
            results,
            steps,
            trail,
            suggest: None,
            stage: SearchStage::Primary,
        },
        request,
    )
}

/// Starts a web search in the year `year`: the state of the search and the
/// request to the primary provider.
pub fn web_search_start(
    query: &str,
    max_results: Option<u32>,
    include_page_excerpts: Option<bool>,
    year: i32,
) -> (r: SearchStep)
    ensures
        r@ == search_start(
            query@,
            max_results,
            include_page_excerpts,
            facts_of(query@),
            rewritten_query(query@, year as int),
        ),
{
    let facts = classify(query);
    let (sent, _) = rewrite_web_search_query(query, 30, year);
    start_search(query, max_results, include_page_excerpts, facts, sent)
}

// ---------------------------------------------------------------------------
// What holds of every search
// ---------------------------------------------------------------------------

/// The results that a step carries: those of the search that goes on, or
/// those of the report.
pub open spec fn step_results(step: SearchStepView) -> Seq<ItemView> {
    match step {
        SearchStepView::Ask(s, _) => s.results,
        SearchStepView::Finish(r) => r.output.results,
    }
}

/// The provider that a step names: that of the search that goes on, or that
/// of the report.
pub open spec fn step_provider(step: SearchStepView) -> Seq<char> {
    match step {
        SearchStepView::Ask(s, _) => s.provider,
        SearchStepView::Finish(r) => r.output.provider,
    }
}

/// Whether a text names one of the three providers of results.
pub open spec fn provider_known(provider: Seq<char>) -> bool {
    provider == "duckduckgo"@ || provider == "wikidata_officeholder"@ || provider
        == "wikipedia_fallback"@
}

/// What holds of a search as the library runs it: every result is well
/// formed, and the provider is one of the three.
pub open spec fn search_wf(s: SearchView) -> bool {
    items_wf(s.results) && provider_known(s.provider)
}

/// What holds of a step that follows a well-formed search: every result is
/// well formed, the provider is one of the three, and a report counts its
/// results rightly and carries an error exactly where it is not ok.
pub open spec fn step_wf(step: SearchStepView) -> bool {
    &&& items_wf(step_results(step))
    &&& provider_known(step_provider(step))
    &&& step matches SearchStepView::Finish(r) ==> output_wf(r.output)
}

/// Whatever page the search stands at, the step that follows keeps the
/// results, and a report that ends the search counts them rightly.
pub proof fn lemma_excerpts_report(s: SearchView, k: int)
    ensures
        step_results(excerpts_from(s, k)) == s.results,
        step_provider(excerpts_from(s, k)) == s.provider,
        excerpts_from(s, k) matches SearchStepView::Finish(r) ==> output_wf(r.output)
            && r.output.suggest_open_browser_search == s.suggest,
    decreases 4 - k,
{
    if !s.include_excerpts || s.results.len() == 0 {
    } else if k < 0 || k >= 4 || k >= s.results.len() {
    } else if fetchable(s.results[k].url) {
    } else {
        lemma_excerpts_report(s, k + 1);
    }
}

proof fn lemma_encyclopedia_report(s: SearchView, step: PageStepView)
    requires
        search_wf(s),
        step matches PageStepView::Done(items) ==> items_wf(items),
    ensures
        step_wf(encyclopedia_step(s, step)),
{
    match step {
        PageStepView::Ask(_, _) => {},
        PageStepView::Done(items) => {
            if items.len() > 0 {
                lemma_excerpts_report(
                    with_fallback(s, items, "wikipedia_fallback"@, results_phrase(items.len())),
                    0,
                );
            } else if !s.facts.officeholder {
                lemma_excerpts_report(
                    SearchView {
                        steps: s.steps.push(
                            step_view("wikipedia_fallback"@, false, "no results"@),
                        ),
                        ..s
                    },
                    0,
                );
            } else {
                lemma_excerpts_report(s, 0);
            }
        },
    }
}

proof fn lemma_encyclopedia_phase(s: SearchView)
    requires
        search_wf(s),
    ensures
        step_wf(encyclopedia_phase(s)),
{
    lemma_page_start(s.query, false, s.facts.trimmed_asks, s.facts.trimmed_asked);
    lemma_encyclopedia_report(
        s,
        page_start(s.query, false, s.facts.trimmed_asks, s.facts.trimmed_asked),
    );
}

proof fn lemma_office_summary_report(s: SearchView, step: PageStepView)
    requires
        search_wf(s),
        step matches PageStepView::Done(items) ==> items_wf(items),
    ensures
        step_wf(office_summary_step(s, step)),
{
    match step {
        PageStepView::Ask(_, _) => {},
        PageStepView::Done(items) => {
            if items.len() > 0 {
                lemma_excerpts_report(
                    with_fallback(
                        s,
                        items,
                        "wikipedia_fallback"@,
                        results_phrase(items.len()) + ", office summary"@,
                    ),
                    0,
                );
            } else {
                lemma_encyclopedia_phase(
                    SearchView {
                        steps: s.steps.push(
                            step_view("wikidata_officeholder"@, false, "no results"@),
                        ),
                        ..s
                    },
                );
            }
        },
    }
}

proof fn lemma_officeholder_report(s: SearchView, step: LookupStepView)
    requires
        search_wf(s),
        step matches LookupStepView::Done(items) ==> items_wf(items),
    ensures
        step_wf(officeholder_step(s, step)),
{
    match step {
        LookupStepView::Ask(_, _) => {},
        LookupStepView::Done(items) => {
            if items.len() > 0 {
                lemma_excerpts_report(
                    with_fallback(
                        s,
                        items,
                        "wikidata_officeholder"@,
                        results_phrase(items.len()),
                    ),
                    0,
                );
            } else {
                lemma_page_start(s.query, true, s.facts.trimmed_asks, s.facts.trimmed_asked);
                lemma_office_summary_report(
                    s,
                    page_start(s.query, true, s.facts.trimmed_asks, s.facts.trimmed_asked),
                );
            }
        },
    }
}

proof fn lemma_after_primary_report(s: SearchView)
    requires
        search_wf(s),
    ensures
        step_wf(after_primary(s)),
{
    if s.results.len() > 0 {
        lemma_excerpts_report(s, 0);
    } else {
        let chosen = SearchView {
            trail: s.trail.push(
                info_view("Step 4b: fallback selection (DDG returned 0 results)"@),
            ),
            ..s
        };
        if s.facts.time_sensitive && !s.facts.officeholder {
            lemma_skip_fallback(s);
        } else if s.facts.officeholder {
            assert(lookup_start(s.facts.asked) matches LookupStepView::Done(items) ==> items.len()
                == 0);
            lemma_officeholder_report(chosen, lookup_start(s.facts.asked));
        } else {
            lemma_encyclopedia_phase(chosen);
        }
    }
}

proof fn lemma_primary_report(s: SearchView, reply: HttpReply, answer: Option<AnswerView>)
    requires
        provider_known(s.provider),
    ensures
        step_wf(on_primary(s, reply, answer)),
{
    match reply {
        HttpReply::Failed(_) => {},
        HttpReply::Response { status, length, body } => {
            if is_success(status) {
                match answer {
                    None => {},
                    Some(a) => {
                        let items = answer_items(a, s.max_results as int);
                        lemma_answer_items_wf(a, s.max_results as int);
                        lemma_after_primary_report(parsed(heard(s, status), items));
                    },
                }
            }
        },
    }
}

/// In every report that ends a search, on every path (the primary provider's
/// results, each fallback, no result at all, each failure), the count of
/// results is the number of results, and an error is present exactly where
/// the output is not ok. And as long as the search is well formed, so is the
/// next step: each result has a title of 120 characters at most and an
/// address, and the provider is one of the three.
pub proof fn lemma_report_counts_results(
    s: SearchView,
    reply: HttpReply,
    json: Option<JsonView>,
)
    ensures
        search_next(s, reply, json) matches SearchStepView::Finish(r) ==> output_wf(r.output),
        search_wf(s) ==> step_wf(search_next(s, reply, json)),
{
    let idle = SearchView { stage: StageView::Primary, ..s };
    match s.stage {
        StageView::Primary => {
            if provider_known(s.provider) {
                lemma_primary_report(idle, reply, answer_of(json));
            } else {
                lemma_primary_counts(idle, reply, answer_of(json));
            }
        },
        StageView::Officeholder(l) => {
            crate::officeholder::lemma_lookup_step(l, on_success(reply, json));
            if search_wf(s) {
                lemma_officeholder_report(idle, lookup_next(l, on_success(reply, json)));
            } else {
                lemma_officeholder_counts(idle, lookup_next(l, on_success(reply, json)));
            }
        },
        StageView::OfficeSummary(l) => {
            crate::encyclopedia::lemma_page_step(l, on_success(reply, json));
            if search_wf(s) {
                lemma_office_summary_report(idle, page_next(l, on_success(reply, json)));
            } else {
                lemma_office_summary_counts(idle, page_next(l, on_success(reply, json)));
            }
        },
        StageView::Encyclopedia(l) => {
            crate::encyclopedia::lemma_page_step(l, on_success(reply, json));
            if search_wf(s) {
                lemma_encyclopedia_report(idle, page_next(l, on_success(reply, json)));
            } else {
                lemma_encyclopedia_counts(idle, page_next(l, on_success(reply, json)));
            }
        },
        StageView::Excerpt(k) => {
            if 0 <= k < idle.results.len() {
                match page_text(reply, 2200) {
                    Some(text) => {
                        lemma_excerpts_report(
                            SearchView {
                                results: idle.results.update(
                                    k,
                                    ItemView { page_excerpt: Some(text), ..idle.results[k] },
                                ),
                                ..idle
                            },
                            k + 1,
                        );
                    },
                    None => {
                        lemma_excerpts_report(idle, k + 1);
                    },
                }
            } else {
                lemma_excerpts_report(idle, k + 1);
            }
        },
    }
}

proof fn lemma_primary_counts(s: SearchView, reply: HttpReply, answer: Option<AnswerView>)
    ensures
        on_primary(s, reply, answer) matches SearchStepView::Finish(r) ==> output_wf(r.output),
{
    match reply {
        HttpReply::Failed(_) => {},
        HttpReply::Response { status, length, body } => {
            if is_success(status) {
                match answer {
                    None => {},
                    Some(a) => {
                        let p = parsed(heard(s, status), answer_items(a, s.max_results as int));
                        if p.results.len() > 0 {
                            lemma_excerpts_report(p, 0);
                        } else {
                            let chosen = SearchView {
                                trail: p.trail.push(
                                    info_view(
                                        "Step 4b: fallback selection (DDG returned 0 results)"@,
                                    ),
                                ),
                                ..p
                            };
                            if p.facts.time_sensitive && !p.facts.officeholder {
                                lemma_skip_fallback(p);
                            } else if p.facts.officeholder {
                                lemma_officeholder_counts(chosen, lookup_start(p.facts.asked));
                            } else {
                                lemma_encyclopedia_counts(
                                    chosen,
                                    page_start(
                                        chosen.query,
                                        false,
                                        chosen.facts.trimmed_asks,
                                        chosen.facts.trimmed_asked,
                                    ),
                                );
                            }
                        }
                    },
                }
            }
        },
    }
}

proof fn lemma_encyclopedia_counts(s: SearchView, step: PageStepView)
    ensures
        encyclopedia_step(s, step) matches SearchStepView::Finish(r) ==> output_wf(r.output),
{
    match step {
        PageStepView::Ask(_, _) => {},
        PageStepView::Done(items) => {
            if items.len() > 0 {
                lemma_excerpts_report(
                    with_fallback(s, items, "wikipedia_fallback"@, results_phrase(items.len())),
                    0,
                );
            } else if !s.facts.officeholder {
                lemma_excerpts_report(
                    SearchView {
                        steps: s.steps.push(
                            step_view("wikipedia_fallback"@, false, "no results"@),
                        ),
                        ..s
                    },
                    0,
                );
            } else {
                lemma_excerpts_report(s, 0);
            }
        },
    }
}

proof fn lemma_office_summary_counts(s: SearchView, step: PageStepView)
    ensures
        office_summary_step(s, step) matches SearchStepView::Finish(r) ==> output_wf(r.output),
{
    match step {
        PageStepView::Ask(_, _) => {},
        PageStepView::Done(items) => {
            if items.len() > 0 {
                lemma_excerpts_report(
                    with_fallback(
                        s,
                        items,
                        "wikipedia_fallback"@,
                        results_phrase(items.len()) + ", office summary"@,
                    ),
                    0,
                );
            } else {
                let t = SearchView {
                    steps: s.steps.push(step_view("wikidata_officeholder"@, false, "no results"@)),
                    ..s
                };
                lemma_encyclopedia_counts(
                    t,
                    page_start(t.query, false, t.facts.trimmed_asks, t.facts.trimmed_asked),
                );
            }
        },
    }
}

proof fn lemma_officeholder_counts(s: SearchView, step: LookupStepView)
    ensures
        officeholder_step(s, step) matches SearchStepView::Finish(r) ==> output_wf(r.output),
{
    match step {
        LookupStepView::Ask(_, _) => {},
        LookupStepView::Done(items) => {
            if items.len() > 0 {
                lemma_excerpts_report(
                    with_fallback(
                        s,
                        items,
                        "wikidata_officeholder"@,
                        results_phrase(items.len()),
                    ),
                    0,
                );
            } else {
                lemma_office_summary_counts(
                    s,
                    page_start(s.query, true, s.facts.trimmed_asks, s.facts.trimmed_asked),
                );
            }
        },
    }
}

/// A search starts well formed: without results, and with the primary
/// provider as its provider.
pub proof fn lemma_search_starts_well_formed(
    query: Seq<char>,
    max_results: Option<u32>,
    include_page_excerpts: Option<bool>,
    facts: FactsView,
    sent: Seq<char>,
)
    ensures
        search_start(query, max_results, include_page_excerpts, facts, sent)
            matches SearchStepView::Ask(s, _) && search_wf(s) && s.stage is Primary,
{
}

/// A search without results for a query that implies recency and does not
/// ask about an office ends at once: no fallback is asked, the report holds
/// no result and advises to open a live search.
pub proof fn lemma_skip_fallback(s: SearchView)
    requires
        s.results.len() == 0,
        s.facts.time_sensitive,
        !s.facts.officeholder,
    ensures
        after_primary(s) matches SearchStepView::Finish(r) && r.output.results.len() == 0
            && r.output.suggest_open_browser_search == Some(true) && r.output.provider
            == s.provider && output_wf(r.output),
{
}

/// Where the primary provider answers with success and no result, for a
/// query that implies recency and does not ask about an office, the search
/// ends on that reply: nothing else is requested, the report holds no result
/// and advises to open a live search.
pub proof fn lemma_time_sensitive_search_ends(
    s: SearchView,
    reply: HttpReply,
    json: Option<JsonView>,
)
    requires
        s.stage is Primary,
        s.facts.time_sensitive,
        !s.facts.officeholder,
        reply matches HttpReply::Response { status, .. } && is_success(status),
        answer_of(json) matches Some(a) && answer_items(a, s.max_results as int).len() == 0,
    ensures
        search_next(s, reply, json) matches SearchStepView::Finish(r) && r.output.ok
            && r.output.results.len() == 0 && r.output.result_count == 0
            && r.output.suggest_open_browser_search == Some(true),
{
    let idle = SearchView { stage: StageView::Primary, ..s };
    match reply {
        HttpReply::Failed(_) => {},
        HttpReply::Response { status, length, body } => {
            let a = answer_of(json)->Some_0;
            let items = answer_items(a, idle.max_results as int);
            lemma_skip_fallback(parsed(heard(idle, status), items));
        },
    }
}

/// A search whose query asks about an office, and whose primary provider
/// gave no result, reports the knowledge graph or the encyclopedia as its
/// provider whenever it ends with a result.
pub proof fn lemma_fallback_names_its_provider(s: SearchView, step: LookupStepView)
    requires
        s.results.len() == 0,
        s.provider == "duckduckgo"@,
    ensures
        officeholder_step(s, step) matches SearchStepView::Finish(r) ==> (r.output.results.len()
            > 0 ==> r.output.provider == "wikidata_officeholder"@ || r.output.provider
            == "wikipedia_fallback"@),
{
    match step {
        LookupStepView::Ask(_, _) => {},
        LookupStepView::Done(items) => {
            if items.len() > 0 {
                lemma_excerpts_report(
                    with_fallback(
                        s,
                        items,
                        "wikidata_officeholder"@,
                        results_phrase(items.len()),
                    ),
                    0,
                );
            } else {
                match page_start(s.query, true, s.facts.trimmed_asks, s.facts.trimmed_asked) {
                    PageStepView::Ask(_, _) => {},
                    PageStepView::Done(found) => {
                        lemma_page_start(
                            s.query,
                            true,
                            s.facts.trimmed_asks,
                            s.facts.trimmed_asked,
                        );
                        let t = SearchView {
                            steps: s.steps.push(
                                step_view("wikidata_officeholder"@, false, "no results"@),
                            ),
                            ..s
                        };
                        match page_start(
                            t.query,
                            false,
                            t.facts.trimmed_asks,
                            t.facts.trimmed_asked,
                        ) {
                            PageStepView::Ask(_, _) => {},
                            PageStepView::Done(last) => {
                                lemma_page_start(
                                    t.query,
                                    false,
                                    t.facts.trimmed_asks,
                                    t.facts.trimmed_asked,
                                );
                                if !t.facts.officeholder {
                                    lemma_excerpts_report(
                                        SearchView {
                                            steps: t.steps.push(
                                                step_view(
                                                    "wikipedia_fallback"@,
                                                    false,
                                                    "no results"@,
                                                ),
                                            ),
                                            ..t
                                        },
                                        0,
                                    );
                                } else {
                                    lemma_excerpts_report(t, 0);
                                }
                            },
                        }
                    },
                }
            }
        },
    }
}

} // verus!
