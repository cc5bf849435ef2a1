//! Who holds a national office, looked up in a knowledge graph.
//!
//! The lookup takes up to three requests: find the country's entity, read
//! the property that holds the office, then read the holder's name and
//! encyclopedia page. Each reply decides the next request. A failure or a
//! missing piece at any point ends the lookup with no result.

use crate::http::{param, reply_json, HttpReply, HttpRequest, RequestView};
use crate::json::{
    first_of, opt_json_view, opt_ref_view, text_in, walk, walk_from, Json, JsonView,
};
use crate::query::{normalize_officeholder_query, officeholder};
use crate::results::{clip_title, clipped, items_view, ItemView, WebSearchResultItem};
use crate::text::{
    chars_of, concat_str, lowercase, owned, push_str, replace_str, replaced, string_of, strs_view,
    trim_of,
};
use vstd::prelude::*;

verus! {

/// Where a lookup stands: which reply it waits for.
#[derive(Debug, Clone, Copy, PartialEq, Eq)]
pub enum LookupStage {
    /// The search for the country's entity.
    Country,
    /// The country's claims.
    Claims,
    /// The holder's labels and site links.
    Person,
}

/// A lookup in progress.
#[derive(Debug, PartialEq, Eq)]
pub struct OfficeholderLookup {
    /// The country searched for.
    pub country: String,
    /// The property that holds the office.
    pub property: String,
    /// The office's label.
    pub office_label: String,
    pub stage: LookupStage,
    /// The entity asked about: empty while the country is searched for, then
    /// the country's, then the holder's.
    pub entity: String,
}

/// A lookup in progress, as plain values.
pub struct LookupView {
    pub country: Seq<char>,
    pub property: Seq<char>,
    pub office_label: Seq<char>,
    pub stage: LookupStage,
    pub entity: Seq<char>,
}

impl View for OfficeholderLookup {
    type V = LookupView;

    open spec fn view(&self) -> LookupView {
        LookupView {
            country: self.country@,
            property: self.property@,
            office_label: self.office_label@,
            stage: self.stage,
            entity: self.entity@,
        }
    }
}

/// What a lookup does next.
#[derive(Debug, PartialEq, Eq)]
pub enum LookupStep {
    /// Make this request and hand the reply to `advance`.
    Ask(OfficeholderLookup, HttpRequest),
    /// The lookup is over, with these results.
    Done(Vec<WebSearchResultItem>),
}

/// A step as plain values.
pub enum LookupStepView {
    Ask(LookupView, RequestView),
    Done(Seq<ItemView>),
}

impl View for LookupStep {
    type V = LookupStepView;

    open spec fn view(&self) -> LookupStepView {
        match self {
            LookupStep::Ask(l, r) => LookupStepView::Ask(l@, r@),
            LookupStep::Done(items) => LookupStepView::Done(items_view(items@)),
        }
    }
}

/// A request to the knowledge graph with the given parameters.
pub open spec fn graph_request(query: Seq<(Seq<char>, Seq<char>)>) -> RequestView {
    RequestView {
        url: "https://www.wikidata.org/w/api.php"@,
        query,
        timeout_secs: 10,
        user_agent: "LocalPrivateLLM/1.0 (Wikidata officeholder)"@,
        accept_language: None,
    }
}

/// The search for the entity of `country`.
pub open spec fn country_request(country: Seq<char>) -> RequestView {
    graph_request(
        seq![
            ("action"@, "wbsearchentities"@),
            ("format"@, "json"@),
            ("language"@, "en"@),
            ("type"@, "item"@),
            ("search"@, country),
            ("limit"@, "1"@),
        ],
    )
}

/// The request for the parts `props` of the entity `id`.
pub open spec fn entity_request(id: Seq<char>, props: Seq<char>) -> RequestView {
    graph_request(
        seq![
            ("action"@, "wbgetentities"@),
            ("format"@, "json"@),
            ("ids"@, id),
            ("props"@, props),
            ("languages"@, "en"@),
        ],
    )
}

/// The id of the first entity found by a search.
pub open spec fn found_entity(json: JsonView) -> Option<Seq<char>> {
    text_in(first_of(json.member("search"@)), "id"@)
}

/// The id of the entity that the first claim of `property` on `country`
/// points to.
pub open spec fn claimed_entity(json: JsonView, country: Seq<char>, property: Seq<char>)
    -> Option<
    Seq<char>,
> {
    text_in(
        walk_from(
            first_of(walk(json, seq!["entities"@, country, "claims"@, property])),
            seq!["mainsnak"@, "datavalue"@, "value"@],
        ),
        "id"@,
    )
}

/// The English label of the entity `id`, `Unknown` where it has none.
pub open spec fn entity_name(json: JsonView, id: Seq<char>) -> Seq<char> {
    match text_in(walk(json, seq!["entities"@, id, "labels"@, "en"@]), "value"@) {
        Some(name) => name,
        None => "Unknown"@,
    }
}

/// The address of the English encyclopedia page of the entity `id`, where it
/// has one: the page's title with `_` for each space.
pub open spec fn entity_page(json: JsonView, id: Seq<char>) -> Option<Seq<char>> {
    match text_in(walk(json, seq!["entities"@, id, "sitelinks"@, "enwiki"@]), "title"@) {
        Some(title) => Some("https://en.wikipedia.org/wiki/"@ + replaced(title, seq![' '], seq!['_'])),
        None => None,
    }
}

/// The result that names the holder: the encyclopedia page where there is
/// one, else the holder's entity in the knowledge graph.
pub open spec fn holder_item(state: LookupView, json: JsonView) -> ItemView {
    let name = entity_name(json, state.entity);
    let source = match entity_page(json, state.entity) {
        Some(page) => page,
        None => "https://www.wikidata.org/wiki/"@ + state.entity,
    };
    ItemView {
        title: clipped(name),
        snippet: "Current "@ + state.office_label + " of "@ + state.country + " is "@ + name
            + ". Source: "@ + source,
        url: source,
        page_excerpt: None,
    }
}

/// What a lookup does on a reply. `json` is the JSON document of the reply,
/// `None` where the request failed, the status was not a success, or the
/// body was not JSON.
pub open spec fn lookup_next(state: LookupView, json: Option<JsonView>) -> LookupStepView {
    let nothing = LookupStepView::Done(Seq::<ItemView>::empty());
    match json {
        None => nothing,
        Some(j) => match state.stage {
            LookupStage::Country => match found_entity(j) {
                Some(id) => LookupStepView::Ask(
                    LookupView { stage: LookupStage::Claims, entity: id, ..state },
                    entity_request(id, "claims"@),
                ),
                None => nothing,
            },
            LookupStage::Claims => match claimed_entity(j, state.entity, state.property) {
                Some(id) => LookupStepView::Ask(
                    LookupView { stage: LookupStage::Person, entity: id, ..state },
                    entity_request(id, "labels|sitelinks"@),
                ),
                None => nothing,
            },
            LookupStage::Person => LookupStepView::Done(seq![holder_item(state, j)]),
        },
    }
}

/// How a lookup starts, given what the query asks: with the search for the
/// country, or, where the query names no office or no country, with no
/// result at all.
pub open spec fn lookup_start(asked: Option<(Seq<char>, Seq<char>, Seq<char>)>) -> LookupStepView {
    match asked {
        None => LookupStepView::Done(Seq::<ItemView>::empty()),
        Some((country, property, label)) => LookupStepView::Ask(
            LookupView {
                country,
                property,
                office_label: label,
                stage: LookupStage::Country,
                entity: Seq::<char>::empty(),
            },
            country_request(country),
        ),
    }
}

fn graph(query: Vec<(String, String)>) -> (r: HttpRequest)
    ensures
        r@ == graph_request(crate::http::pairs_view(query@)),
{
    HttpRequest {
        url: owned("https://www.wikidata.org/w/api.php"),
        query,
        timeout_secs: 10,
        user_agent: owned("LocalPrivateLLM/1.0 (Wikidata officeholder)"),
        accept_language: None,
    }
}

fn ask_entity(id: &str, props: &str) -> (r: HttpRequest)
    ensures
        r@ == entity_request(id@, props@),
{
    let query = vec![
        param("action", "wbgetentities"),
        param("format", "json"),
        param("ids", id),
        param("props", props),
        param("languages", "en"),
    ];
    assert(crate::http::pairs_view(query@) =~= entity_request(id@, props@).query);
    graph(query)
}

fn ask_country(country: &str) -> (r: HttpRequest)
    ensures
        r@ == country_request(country@),
{
    let query = vec![
        param("action", "wbsearchentities"),
        param("format", "json"),
        param("language", "en"),
        param("type", "item"),
        param("search", country),
        param("limit", "1"),
    ];
    assert(crate::http::pairs_view(query@) =~= country_request(country@).query);
    graph(query)
}

fn text_at<'a>(j: Option<&'a Json>, key: &str) -> (r: Option<&'a String>)
    ensures
        match r {
            Some(s) => text_in(opt_ref_view(j), key@) == Some(s@),
            None => text_in(opt_ref_view(j), key@) is None,
        },
{
    match j {
        Some(v) => v.get_text(key),
        None => None,
    }
}

/// Builds the result that names the holder.
fn holder(state: &OfficeholderLookup, json: &Json) -> (r: WebSearchResultItem)
    ensures
        r@ == holder_item(state@, json@),
{
    let id = state.entity.as_str();
    let label_path = vec!["entities", id, "labels", "en"];
    assert(strs_view(label_path@) =~= seq!["entities"@, id@, "labels"@, "en"@]);
    let name: String = match text_at(json.descend(&label_path), "value") {
        Some(n) => n.clone(),
        None => owned("Unknown"),
    };
    let link_path = vec!["entities", id, "sitelinks", "enwiki"];
    assert(strs_view(link_path@) =~= seq!["entities"@, id@, "sitelinks"@, "enwiki"@]);
    proof {
        reveal_strlit(" ");
        reveal_strlit("_");
        assert(" "@ == seq![' ']);
        assert("_"@ == seq!['_']);
    }
    let source: String = match text_at(json.descend(&link_path), "title") {
        Some(title) => {
            let t = chars_of(title.as_str());
            let slug = replace_str(&t, " ", "_");
            let mut page = chars_of("https://en.wikipedia.org/wiki/");
            crate::text::push_all(&mut page, &slug);
            string_of(&page)
        },
        None => concat_str("https://www.wikidata.org/wiki/", id),
    };
    let mut snippet = chars_of("Current ");
    push_str(&mut snippet, state.office_label.as_str());
    push_str(&mut snippet, " of ");
    push_str(&mut snippet, state.country.as_str());
    push_str(&mut snippet, " is ");
    push_str(&mut snippet, name.as_str());
    push_str(&mut snippet, ". Source: ");
    push_str(&mut snippet, source.as_str());
    WebSearchResultItem {
        title: clip_title(name.as_str()),
        snippet: string_of(&snippet),
        url: source,
        page_excerpt: None,
    }
}

impl OfficeholderLookup {
    /// Takes the lookup one step on, given the JSON document of the reply
    /// (`None` where there is none).
    pub fn advance_with(self, json: Option<Json>) -> (r: LookupStep)
        ensures
            r@ == lookup_next(self@, opt_json_view(json)),
    {
        let j = match json {
            Some(j) => j,
            None => {
                let none: Vec<WebSearchResultItem> = Vec::new();
                assert(items_view(none@) =~= Seq::<ItemView>::empty());
                return LookupStep::Done(none);
            },
        };
        match self.stage {
            LookupStage::Country => {
                let found = match j.get("search") {
                    Some(list) => text_at(list.first(), "id"),
                    None => None,
                };
                match found {
                    Some(id) => {
                        let request = ask_entity(id.as_str(), "claims");
                        LookupStep::Ask(
                            OfficeholderLookup {
                                country: self.country,
                                property: self.property,
                                office_label: self.office_label,
                                stage: LookupStage::Claims,
                                entity: id.clone(),
                            },
                            request,
                        )
                    },
                    None => {
                        let none: Vec<WebSearchResultItem> = Vec::new();
                        assert(items_view(none@) =~= Seq::<ItemView>::empty());
                        LookupStep::Done(none)
                    },
                }
            },
            LookupStage::Claims => {
                let claim_path = vec![
                    "entities",
                    self.entity.as_str(),
                    "claims",
                    self.property.as_str(),
                ];
                assert(strs_view(claim_path@) =~= seq![
                    "entities"@,
                    self.entity@,
                    "claims"@,
                    self.property@,
                ]);
                let value_path = vec!["mainsnak", "datavalue", "value"];
                assert(strs_view(value_path@) =~= seq!["mainsnak"@, "datavalue"@, "value"@]);
                let claim = match j.descend(&claim_path) {
                    Some(claims) => claims.first(),
                    None => None,
                };
                let value = match claim {
                    Some(c) => c.descend(&value_path),
                    None => None,
                };
                match text_at(value, "id") {
                    Some(id) => {
                        let request = ask_entity(id.as_str(), "labels|sitelinks");
                        LookupStep::Ask(
                            OfficeholderLookup {
                                country: self.country,
                                property: self.property,
                                office_label: self.office_label,
                                stage: LookupStage::Person,
                                entity: id.clone(),
                            },
                            request,
                        )
                    },
                    None => {
                        let none: Vec<WebSearchResultItem> = Vec::new();
                        assert(items_view(none@) =~= Seq::<ItemView>::empty());
                        LookupStep::Done(none)
                    },
                }
            },
            LookupStage::Person => {
                let item = holder(&self, &j);
                let items = vec![item];
                assert(items_view(items@) =~= seq![holder_item(self@, j@)]);
                LookupStep::Done(items)
            },
        }
    }

    /// Takes the lookup one step on, given the reply to its last request.
    pub fn advance(self, reply: &HttpReply) -> (r: LookupStep)
        ensures
            r@ == lookup_next(self@, reply_json(*reply)),
    {
        let json = reply.json();
        self.advance_with(json)
    }
}

/// Starts a lookup from what the query asks.
pub fn start_lookup(asked: Option<(String, &'static str, &'static str)>) -> (r: LookupStep)
    ensures
        r@ == lookup_start(
            match asked {
                Some((c, p, l)) => Some((c@, p@, l@)),
                None => None,
            },
        ),
{
    match asked {
        None => {
            let none: Vec<WebSearchResultItem> = Vec::new();
            assert(items_view(none@) =~= Seq::<ItemView>::empty());
            LookupStep::Done(none)
        },
        Some((country, property, label)) => {
            let request = ask_country(country.as_str());
            proof {
                reveal_strlit("");
                assert(""@ =~= Seq::<char>::empty());
            }
            LookupStep::Ask(
                OfficeholderLookup {
                    country,
                    property: owned(property),
                    office_label: owned(label),
                    stage: LookupStage::Country,
                    entity: owned(""),
                },
                request,
            )
        },
    }
}

/// Looks up who holds the office that `query` asks about: the first step of
/// the lookup. A query that names no office or no country ends it at once,
/// with no result.
pub fn wikidata_officeholder_fallback(query: &str) -> (r: LookupStep)
    ensures
        r@ == lookup_start(officeholder(trim_of(lowercase(query@)))),
{
    start_lookup(normalize_officeholder_query(query))
}

/// A lookup ends with at most one result, which is well formed, and asks
/// only the knowledge graph.
pub proof fn lemma_lookup_step(state: LookupView, json: Option<JsonView>)
    ensures
        match lookup_next(state, json) {
            LookupStepView::Done(items) => items.len() <= 1 && crate::results::items_wf(items),
            LookupStepView::Ask(next, request) => request.url
                == "https://www.wikidata.org/w/api.php"@ && next.stage != LookupStage::Country,
        },
{
    reveal_strlit("https://en.wikipedia.org/wiki/");
    reveal_strlit("https://www.wikidata.org/wiki/");
    assert("https://en.wikipedia.org/wiki/"@.len() == 30);
    assert("https://www.wikidata.org/wiki/"@.len() == 30);
}

} // verus!
