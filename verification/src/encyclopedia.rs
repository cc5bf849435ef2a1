//! The encyclopedia fallback: search for a page, then read its summary.
//!
//! Two requests at most. The first searches the encyclopedia for the query,
//! or, for a query about an office, for the office's usual title. The second
//! fetches the summary of the page chosen. A failure or a missing piece ends
//! the lookup with no result.

use crate::http::{pairs_view, param, reply_json, HttpReply, HttpRequest, RequestView};
use crate::json::{items_views, opt_json_view, Json, JsonView};
use crate::query::{
    asks_officeholder, is_officeholder_query, normalize_officeholder_query, officeholder,
};
use crate::results::{clip_title, clipped, items_view, items_wf, ItemView, WebSearchResultItem};
use crate::text::{
    begins_with, chars_of, concat_str, concat3, is_text, lowercase, lowercase_chars, owned,
    push_all, replace_str, replaced, starts_with_str, string_of, trim_chars, trim_of,
};
use vstd::prelude::*;

verus! {

/// Which reply a page lookup waits for.
#[derive(Debug, Clone, Copy, PartialEq, Eq)]
pub enum PageStage {
    /// The search for a page.
    Search,
    /// The summary of the page chosen.
    Summary,
}

/// A page lookup in progress.
#[derive(Debug, PartialEq, Eq)]
pub struct WikipediaLookup {
    /// Whether the lookup serves a query about an office, and then passes
    /// over pages that are lists.
    pub prefer_office: bool,
    pub stage: PageStage,
    /// The title of the page chosen; empty during the search.
    pub page_title: String,
}

/// A page lookup in progress, as plain values.
pub struct PageLookupView {
    pub prefer_office: bool,
    pub stage: PageStage,
    pub page_title: Seq<char>,
}

impl View for WikipediaLookup {
    type V = PageLookupView;

    open spec fn view(&self) -> PageLookupView {
        PageLookupView {
            prefer_office: self.prefer_office,
            stage: self.stage,
            page_title: self.page_title@,
        }
    }
}

/// What a page lookup does next.
#[derive(Debug, PartialEq, Eq)]
pub enum PageStep {
    /// Make this request and hand the reply to `advance`.
    Ask(WikipediaLookup, HttpRequest),
    /// The lookup is over, with these results.
    Done(Vec<WebSearchResultItem>),
}

/// A step as plain values.
pub enum PageStepView {
    Ask(PageLookupView, RequestView),
    Done(Seq<ItemView>),
}

impl View for PageStep {
    type V = PageStepView;

    open spec fn view(&self) -> PageStepView {
        match self {
            PageStep::Ask(l, r) => PageStepView::Ask(l@, r@),
            PageStep::Done(items) => PageStepView::Done(items_view(items@)),
        }
    }
}

/// The title under which an office is usually found.
pub open spec fn office_title(country: Seq<char>, label: Seq<char>) -> Seq<char> {
    if label == "president"@ {
        "President of "@ + country
    } else if label == "prime minister"@ {
        "Prime Minister of "@ + country
    } else {
        label + " of "@ + country
    }
}

/// What is searched for. `asks` says whether the trimmed query asks who holds
/// an office, `asked` what it then asks: with both, and `prefer_office`, the
/// office's usual title; else the trimmed query.
pub open spec fn search_term(
    query: Seq<char>,
    prefer_office: bool,
    asks: bool,
    asked: Option<(Seq<char>, Seq<char>, Seq<char>)>,
) -> Seq<char> {
    if prefer_office && asks {
        match asked {
            Some((country, _, label)) => office_title(country, label),
            None => trim_of(query),
        }
    } else {
        trim_of(query)
    }
}

/// A request to the encyclopedia.
pub open spec fn page_request(url: Seq<char>, query: Seq<(Seq<char>, Seq<char>)>) -> RequestView {
    RequestView {
        url,
        query,
        timeout_secs: 8,
        user_agent: "LocalPrivateLLM/1.0 (Wikipedia fallback)"@,
        accept_language: None,
    }
}

/// The search for pages on `term`, ten at most.
pub open spec fn search_request(term: Seq<char>) -> RequestView {
    page_request(
        "https://en.wikipedia.org/w/rest.php/v1/search/page"@,
        seq![("q"@, term), ("limit"@, "10"@)],
    )
}

/// A title as it stands in an address: `_` for each space.
pub open spec fn slug_of(title: Seq<char>) -> Seq<char> {
    replaced(title, seq![' '], seq!['_'])
}

/// The request for the summary of the page `title`.
pub open spec fn summary_request(title: Seq<char>) -> RequestView {
    page_request(
        "https://en.wikipedia.org/api/rest_v1/page/summary/"@ + slug_of(title),
        Seq::<(Seq<char>, Seq<char>)>::empty(),
    )
}

/// How a page lookup starts: with no result for a blank query, else with the
/// search.
pub open spec fn page_start(
    query: Seq<char>,
    prefer_office: bool,
    asks: bool,
    asked: Option<(Seq<char>, Seq<char>, Seq<char>)>,
) -> PageStepView {
    if trim_of(query).len() == 0 {
        PageStepView::Done(Seq::<ItemView>::empty())
    } else {
        PageStepView::Ask(
            PageLookupView {
                prefer_office,
                stage: PageStage::Search,
                page_title: Seq::<char>::empty(),
            },
            search_request(search_term(query, prefer_office, asks, asked)),
        )
    }
}

/// The pages that a search found: the array `pages`, or none.
pub open spec fn found_pages(json: JsonView) -> Seq<JsonView> {
    match json.member("pages"@) {
        Some(p) => match p.items() {
            Some(items) => items,
            None => Seq::<JsonView>::empty(),
        },
        None => Seq::<JsonView>::empty(),
    }
}

/// Whether a title, by its lower-case form, names a list.
pub open spec fn is_list_title(lower: Seq<char>) -> bool {
    begins_with(lower, "list of "@)
}

/// The title of the first page, in order, that has a string `title` which
/// names no list.
pub open spec fn first_not_list(pages: Seq<JsonView>) -> Option<Seq<char>>
    decreases pages.len(),
{
    if pages.len() == 0 {
        None
    } else {
        match pages[0].member_text("title"@) {
            Some(t) => if is_list_title(lowercase(t)) {
                first_not_list(pages.drop_first())
            } else {
                Some(t)
            },
            None => first_not_list(pages.drop_first()),
        }
    }
}

/// The page chosen from what a search found. For an office: the first page
/// whose title names no list, pages without a title passed over. Otherwise:
/// the first page, if it has a title.
pub open spec fn chosen_page(json: JsonView, prefer_office: bool) -> Option<Seq<char>> {
    let pages = found_pages(json);
    if prefer_office {
        first_not_list(pages)
    } else if pages.len() > 0 {
        pages[0].member_text("title"@)
    } else {
        None
    }
}

/// The result that a summary gives: the page's title, its extract (empty
/// where there is none) and its address.
pub open spec fn summary_item(title: Seq<char>, json: JsonView) -> ItemView {
    ItemView {
        title: clipped(title),
        snippet: match json.member_text("extract"@) {
            Some(e) => e,
            None => Seq::<char>::empty(),
        },
        url: "https://en.wikipedia.org/wiki/"@ + slug_of(title),
        page_excerpt: None,
    }
}

/// What a page lookup does on a reply. `json` is the JSON document of the
/// reply, `None` where the request failed, the status was not a success, or
/// the body was not JSON.
pub open spec fn page_next(state: PageLookupView, json: Option<JsonView>) -> PageStepView {
    let nothing = PageStepView::Done(Seq::<ItemView>::empty());
    match json {
        None => nothing,
        Some(j) => match state.stage {
            PageStage::Search => match chosen_page(j, state.prefer_office) {
                Some(title) => PageStepView::Ask(
                    PageLookupView { stage: PageStage::Summary, page_title: title, ..state },
                    summary_request(title),
                ),
                None => nothing,
            },
            PageStage::Summary => PageStepView::Done(seq![summary_item(state.page_title, j)]),
        },
    }
}

/// Whether the lower-case text `lower` starts like the title of a list.
pub fn is_list_title_text(lower: &str) -> (r: bool)
    ensures
        r == is_list_title(lower@),
{
    let l = chars_of(lower);
    starts_with_str(&l, "list of ")
}

fn ask_page(url: String, query: Vec<(String, String)>) -> (r: HttpRequest)
    ensures
        r@ == page_request(url@, pairs_view(query@)),
{
    HttpRequest {
        url,
        query,
        timeout_secs: 8,
        user_agent: owned("LocalPrivateLLM/1.0 (Wikipedia fallback)"),
        accept_language: None,
    }
}

fn slug(title: &str) -> (out: Vec<char>)
    ensures
        out@ == slug_of(title@),
{
    proof {
        reveal_strlit(" ");
        reveal_strlit("_");
        assert(" "@ == seq![' ']);
        assert("_"@ == seq!['_']);
    }
    let t = chars_of(title);
    replace_str(&t, " ", "_")
}

fn no_results() -> (r: Vec<WebSearchResultItem>)
    ensures
        items_view(r@) == Seq::<ItemView>::empty(),
{
    let none: Vec<WebSearchResultItem> = Vec::new();
    assert(items_view(none@) =~= Seq::<ItemView>::empty());
    none
}

fn find_not_list(pages: &Vec<Json>) -> (r: Option<&String>)
    ensures
        match r {
            Some(t) => first_not_list(items_views(pages@)) == Some(t@),
            None => first_not_list(items_views(pages@)) is None,
        },
{
    let ghost all = items_views(pages@);
    let mut i: usize = 0;
    assert(all.skip(0) == all);
    while i < pages.len()
        invariant
            i <= pages.len(),
            all == items_views(pages@),
            first_not_list(all) == first_not_list(all.skip(i as int)),
        decreases pages.len() - i,
    {
        assert(all.skip(i as int)[0] == pages@[i as int]@);
        assert(all.skip(i as int).drop_first() == all.skip(i + 1));
        if let Some(t) = pages[i].get_text("title") {
            let lower = lowercase_chars(t.as_str());
            if !starts_with_str(&lower, "list of ") {
                return Some(t);
            }
        }
        i += 1;
    }
    None
}

fn choose_page(json: &Json, prefer_office: bool) -> (r: Option<&String>)
    ensures
        match r {
            Some(t) => chosen_page(json@, prefer_office) == Some(t@),
            None => chosen_page(json@, prefer_office) is None,
        },
{
    let pages = match json.get("pages") {
        Some(p) => p.as_array(),
        None => None,
    };
    match pages {
        None => None,
        Some(list) => {
            if prefer_office {
                find_not_list(list)
            } else if list.len() > 0 {
                list[0].get_text("title")
            } else {
                None
            }
        },
    }
}

impl WikipediaLookup {
    /// Takes the lookup one step on, given the JSON document of the reply
    /// (`None` where there is none).
    pub fn advance_with(self, json: Option<Json>) -> (r: PageStep)
        ensures
            r@ == page_next(self@, opt_json_view(json)),
    {
        let j = match json {
            Some(j) => j,
            None => {
                return PageStep::Done(no_results());
            },
        };
        match self.stage {
            PageStage::Search => match choose_page(&j, self.prefer_office) {
                Some(title) => {
                    let mut url = chars_of("https://en.wikipedia.org/api/rest_v1/page/summary/");
                    let s = slug(title.as_str());
                    push_all(&mut url, &s);
                    let query: Vec<(String, String)> = Vec::new();
                    assert(pairs_view(query@) =~= Seq::<(Seq<char>, Seq<char>)>::empty());
                    let request = ask_page(string_of(&url), query);
                    PageStep::Ask(
                        WikipediaLookup {
                            prefer_office: self.prefer_office,
                            stage: PageStage::Summary,
                            page_title: title.clone(),
                        },
                        request,
                    )
                },
                None => PageStep::Done(no_results()),
            },
            PageStage::Summary => {
                let extract: String = match j.get_text("extract") {
                    Some(e) => e.clone(),
                    None => {
                        proof {
                            reveal_strlit("");
                            assert(""@ =~= Seq::<char>::empty());
                        }
                        owned("")
                    },
                };
                let mut url = chars_of("https://en.wikipedia.org/wiki/");
                let s = slug(self.page_title.as_str());
                push_all(&mut url, &s);
                let item = WebSearchResultItem {
                    title: clip_title(self.page_title.as_str()),
                    snippet: extract,
                    url: string_of(&url),
                    page_excerpt: None,
                };
                let items = vec![item];
                assert(items_view(items@) =~= seq![item@]);
                PageStep::Done(items)
            },
        }
    }

    /// Takes the lookup one step on, given the reply to its last request.
    pub fn advance(self, reply: &HttpReply) -> (r: PageStep)
        ensures
            r@ == page_next(self@, reply_json(*reply)),
    {
        let json = reply.json();
        self.advance_with(json)
    }
}

/// Starts a page lookup from a query and what is known of it.
pub fn start_page_lookup(
    query: &str,
    prefer_office: bool,
    asks: bool,
    asked: Option<(String, &'static str, &'static str)>,
) -> (r: PageStep)
    ensures
        r@ == page_start(
            query@,
            prefer_office,
            asks,
            match asked {
                Some((c, p, l)) => Some((c@, p@, l@)),
                None => None,
            },
        ),
{
    let raw = chars_of(query);
    let q = trim_chars(&raw);
    if q.len() == 0 {
        return PageStep::Done(no_results());
    }
    let term: String = if prefer_office && asks {
        match asked {
            Some((country, _, label)) => {
                let l = chars_of(label);
                if is_text(&l, "president") {
                    concat_str("President of ", country.as_str())
                } else if is_text(&l, "prime minister") {
                    concat_str("Prime Minister of ", country.as_str())
                } else {
                    concat3(label, " of ", country.as_str())
                }
            },
            None => string_of(&q),
        }
    } else {
        string_of(&q)
    };
    let query_params = vec![param("q", term.as_str()), param("limit", "10")];
    assert(pairs_view(query_params@) =~= seq![("q"@, term@), ("limit"@, "10"@)]);
    let request = ask_page(owned("https://en.wikipedia.org/w/rest.php/v1/search/page"), query_params);
    proof {
        reveal_strlit("");
        assert(""@ =~= Seq::<char>::empty());
    }
    PageStep::Ask(
        WikipediaLookup { prefer_office, stage: PageStage::Search, page_title: owned("") },
        request,
    )
}

/// Searches the encyclopedia for `query` and summarizes the page found: the
/// first step of the lookup. With `prefer_office`, a query about an office is
/// searched for by the office's usual title, and pages that are lists are
/// passed over.
pub fn wikipedia_fallback_impl(query: &str, prefer_office: bool) -> (r: PageStep)
    ensures
        r@ == page_start(
            query@,
            prefer_office,
            asks_officeholder(lowercase(trim_of(query@))),
            officeholder(trim_of(lowercase(trim_of(query@)))),
        ),
{
    let raw = chars_of(query);
    let q = trim_chars(&raw);
    let trimmed = string_of(&q);
    let asks = is_officeholder_query(trimmed.as_str());
    let asked = normalize_officeholder_query(trimmed.as_str());
    start_page_lookup(query, prefer_office, asks, asked)
}

/// A page lookup ends with at most one result, which is well formed.
pub proof fn lemma_page_step(state: PageLookupView, json: Option<JsonView>)
    ensures
        page_next(state, json) matches PageStepView::Done(items) ==> items.len() <= 1
            && items_wf(items),
        page_next(state, json) matches PageStepView::Ask(next, _) ==> next.stage
            == PageStage::Summary,
{
    reveal_strlit("https://en.wikipedia.org/wiki/");
    assert("https://en.wikipedia.org/wiki/"@.len() == 30);
}

/// For an office the page chosen is never a list, and a page is chosen
/// wherever the search found one whose title names no list, whatever stands
/// before it.
pub proof fn lemma_office_page_is_no_list(json: JsonView, at: int)
    ensures
        chosen_page(json, true) matches Some(t) ==> !is_list_title(lowercase(t)),
        0 <= at < found_pages(json).len() && (found_pages(json)[at].member_text("title"@) matches Some(
            t,
        ) && !is_list_title(lowercase(t))) ==> chosen_page(json, true) is Some,
{
    lemma_first_not_list(found_pages(json), at);
}

proof fn lemma_first_not_list(pages: Seq<JsonView>, at: int)
    ensures
        first_not_list(pages) matches Some(t) ==> !is_list_title(lowercase(t)),
        0 <= at < pages.len() && (pages[at].member_text("title"@) matches Some(t)
            && !is_list_title(lowercase(t))) ==> first_not_list(pages) is Some,
    decreases pages.len(),
{
    if pages.len() > 0 {
        lemma_first_not_list(pages.drop_first(), at - 1);
    }
}

/// A page lookup that ends at its start ends without a result.
pub proof fn lemma_page_start(
    query: Seq<char>,
    prefer_office: bool,
    asks: bool,
    asked: Option<(Seq<char>, Seq<char>, Seq<char>)>,
)
    ensures
        page_start(query, prefer_office, asks, asked) matches PageStepView::Done(items)
            ==> items.len() == 0,
{
}

} // verus!
