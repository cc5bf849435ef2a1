//! Search results, and how they are read from the primary provider's answer.
//!
//! The provider answers with one JSON object: an abstract with its URL, and a
//! list of related topics, each either a topic (`Text`, `FirstURL`) or a group
//! that holds topics of its own under `Topics`. Both shapes are flattened into
//! one list of results.

use crate::json::{
    items_views, lemma_json_view, lookup, members_view, opt_json_view, parsed_json, Json,
    JsonView,
};
use crate::text::{
    before_first, chars_of, first_index, is_text, slice_chars, string_of, trim_chars, trim_of,
};
use vstd::prelude::*;

verus! {

/// One search result.
#[derive(Debug, PartialEq, Eq)]
pub struct WebSearchResultItem {
    pub title: String,
    pub snippet: String,
    pub url: String,
    /// A plain-text excerpt of the page, where one was fetched.
    pub page_excerpt: Option<String>,
}

/// A search result as plain values.
pub struct ItemView {
    pub title: Seq<char>,
    pub snippet: Seq<char>,
    pub url: Seq<char>,
    pub page_excerpt: Option<Seq<char>>,
}

impl View for WebSearchResultItem {
    type V = ItemView;

    open spec fn view(&self) -> ItemView {
        ItemView {
            title: self.title@,
            snippet: self.snippet@,
            url: self.url@,
            page_excerpt: match self.page_excerpt {
                Some(e) => Some(e@),
                None => None,
            },
        }
    }
}

/// The views of a list of results.
pub open spec fn items_view(items: Seq<WebSearchResultItem>) -> Seq<ItemView> {
    items.map_values(|x: WebSearchResultItem| x@)
}

/// The longest title, in characters.
pub const MAX_TITLE_CHARS: usize = 120;

/// A title cut to size: a title of more than 120 characters is cut to its
/// first 117 and ends in an ellipsis.
pub open spec fn clipped(title: Seq<char>) -> Seq<char> {
    if title.len() > 120 {
        title.take(117).push('\u{2026}')
    } else {
        title
    }
}

/// The title of a result: the first line of its text, trimmed and cut to
/// size.
pub open spec fn title_of(text: Seq<char>) -> Seq<char> {
    clipped(trim_of(text.take(first_index(text, '\n'))))
}

/// What holds of every result that the library makes: its title has 120
/// characters at most, and it has an address.
pub open spec fn item_wf(item: ItemView) -> bool {
    item.title.len() <= 120 && item.url.len() > 0
}

/// Whether every result of a list is well formed.
pub open spec fn items_wf(items: Seq<ItemView>) -> bool {
    forall|i: int| 0 <= i < items.len() ==> item_wf(#[trigger] items[i])
}

/// A title is never longer than 120 characters.
pub proof fn lemma_title_length(text: Seq<char>)
    ensures
        title_of(text).len() <= 120,
        clipped(text).len() <= 120,
{
}

/// Computes `clipped`.
fn clip(title: &Vec<char>) -> (out: String)
    ensures
        out@ == clipped(title@),
{
    if title.len() > MAX_TITLE_CHARS {
        let mut cut = slice_chars(title, 0, 117);
        cut.push('\u{2026}');
        assert(title@.subrange(0, 117) == title@.take(117));
        string_of(&cut)
    } else {
        string_of(title)
    }
}

/// Cuts a title to size.
pub fn clip_title(title: &str) -> (out: String)
    ensures
        out@ == clipped(title@),
{
    let t = chars_of(title);
    clip(&t)
}

/// Computes `title_of`.
pub fn make_title(text: &Vec<char>) -> (out: String)
    ensures
        out@ == title_of(text@),
{
    let line = before_first(text, '\n');
    let t = trim_chars(&line);
    clip(&t)
}

/// The result that a topic object gives: one with a non-empty string `Text`
/// and a non-empty string `FirstURL`.
pub open spec fn topic_item(obj: JsonView) -> Option<ItemView> {
    match (obj.member_text("Text"@), obj.member_text("FirstURL"@)) {
        (Some(t), Some(u)) => if t.len() > 0 && u.len() > 0 {
            Some(ItemView { title: title_of(t), snippet: t, url: u, page_excerpt: None })
        } else {
            None
        },
        _ => None,
    }
}

/// Reads one result from a topic object.
pub fn one_result_from_obj(obj: &Json) -> (r: Option<WebSearchResultItem>)
    ensures
        match r {
            Some(item) => topic_item(obj@) == Some(item@),
            None => topic_item(obj@) is None,
        },
{
    let text = match obj.get_text("Text") {
        Some(t) => t,
        None => {
            return None;
        },
    };
    let url = match obj.get_text("FirstURL") {
        Some(u) => u,
        None => {
            return None;
        },
    };
    let t = chars_of(text.as_str());
    let u = chars_of(url.as_str());
    if t.len() == 0 || u.len() == 0 {
        return None;
    }
    Some(
        WebSearchResultItem {
            title: make_title(&t),
            snippet: string_of(&t),
            url: string_of(&u),
            page_excerpt: None,
        },
    )
}

/// The primary provider's answer, as far as it is read.
#[derive(Debug, PartialEq, Eq)]
pub struct DuckDuckGoResult {
    /// `Abstract`
    pub abstract_text: Option<String>,
    /// `AbstractURL`
    pub abstract_url: Option<String>,
    /// `RelatedTopics`
    pub related_topics: Option<Vec<Json>>,
}

/// An answer as plain values.
pub struct AnswerView {
    pub abstract_text: Option<Seq<char>>,
    pub abstract_url: Option<Seq<char>>,
    pub related_topics: Option<Seq<JsonView>>,
}

impl View for DuckDuckGoResult {
    type V = AnswerView;

    open spec fn view(&self) -> AnswerView {
        AnswerView {
            abstract_text: match self.abstract_text {
                Some(s) => Some(s@),
                None => None,
            },
            abstract_url: match self.abstract_url {
                Some(s) => Some(s@),
                None => None,
            },
            related_topics: match self.related_topics {
                Some(t) => Some(items_views(t@)),
                None => None,
            },
        }
    }
}

/// A member that must be a string where it is present: `Ok(None)` for an
/// absent member or `null`, the text for a string, `Err` for anything else.
pub open spec fn optional_text(member: Option<JsonView>) -> Result<Option<Seq<char>>, ()> {
    match member {
        None => Ok(None),
        Some(JsonView::Null) => Ok(None),
        Some(JsonView::Text(s)) => Ok(Some(s)),
        Some(_) => Err(()),
    }
}

/// A member that must be an array where it is present.
pub open spec fn optional_items(member: Option<JsonView>) -> Result<Option<Seq<JsonView>>, ()> {
    match member {
        None => Ok(None),
        Some(JsonView::Null) => Ok(None),
        Some(JsonView::Array(a)) => Ok(Some(a)),
        Some(_) => Err(()),
    }
}

/// Whether a JSON value has the shape of the provider's answer: an object
/// whose `Abstract` and `AbstractURL` are strings and whose `RelatedTopics`
/// is an array, each where it is present and not `null`.
pub open spec fn is_answer(json: JsonView) -> bool {
    &&& json is Object
    &&& optional_text(json.member("Abstract"@)) is Ok
    &&& optional_text(json.member("AbstractURL"@)) is Ok
    &&& optional_items(json.member("RelatedTopics"@)) is Ok
}

/// The answer that a JSON value holds, `None` where it is not shaped like
/// one.
pub open spec fn answer_in(json: JsonView) -> Option<AnswerView> {
    if is_answer(json) {
        Some(
            AnswerView {
                abstract_text: optional_text(json.member("Abstract"@))->Ok_0,
                abstract_url: optional_text(json.member("AbstractURL"@))->Ok_0,
                related_topics: optional_items(json.member("RelatedTopics"@))->Ok_0,
            },
        )
    } else {
        None
    }
}

/// The answer that a JSON value holds, where there is a value.
pub open spec fn answer_of(json: Option<JsonView>) -> Option<AnswerView> {
    match json {
        Some(j) => answer_in(j),
        None => None,
    }
}

fn take_text(member: Option<Json>) -> (r: Result<Option<String>, ()>)
    ensures
        match r {
            Ok(Some(s)) => optional_text(opt_json_view(member)) == Ok::<_, ()>(Some(s@)),
            Ok(None) => optional_text(opt_json_view(member)) == Ok::<Option<Seq<char>>, ()>(
                None,
            ),
            Err(_) => optional_text(opt_json_view(member)) is Err,
        },
{
    let ghost given = member;
    proof {
        if let Some(j) = given {
            lemma_json_view(j);
        }
    }
    match member {
        None => Ok(None),
        Some(Json::Null) => Ok(None),
        Some(Json::Text(s)) => Ok(Some(s)),
        Some(_) => Err(()),
    }
}

fn take_items(member: Option<Json>) -> (r: Result<Option<Vec<Json>>, ()>)
    ensures
        match r {
            Ok(Some(a)) => optional_items(opt_json_view(member)) == Ok::<_, ()>(
                Some(items_views(a@)),
            ),
            Ok(None) => optional_items(opt_json_view(member)) == Ok::<
                Option<Seq<JsonView>>,
                (),
            >(None),
            Err(_) => optional_items(opt_json_view(member)) is Err,
        },
{
    let ghost given = member;
    proof {
        if let Some(j) = given {
            lemma_json_view(j);
        }
    }
    match member {
        None => Ok(None),
        Some(Json::Null) => Ok(None),
        Some(Json::Array(a)) => Ok(Some(a)),
        Some(_) => Err(()),
    }
}

impl DuckDuckGoResult {
    /// Reads the provider's answer from a JSON value; `None` where the value
    /// does not have the shape of an answer.
    pub fn from_json(json: Json) -> (r: Option<DuckDuckGoResult>)
        ensures
            match r {
                Some(b) => answer_in(json@) == Some(b@),
                None => answer_in(json@) is None,
            },
    {
        proof {
            lemma_json_view(json);
        }
        let mut fields = match json {
            Json::Object(f) => f,
            _ => {
                return None;
            },
        };
        let ghost raw = fields@;
        let ghost all = members_view(fields@);
        let mut a_text: Option<Json> = None;
        let mut a_url: Option<Json> = None;
        let mut topics: Option<Json> = None;
        proof {
            reveal_strlit("Abstract");
            reveal_strlit("AbstractURL");
            reveal_strlit("RelatedTopics");
            assert("Abstract"@.len() == 8);
            assert("AbstractURL"@.len() == 11);
            assert("RelatedTopics"@.len() == 13);
            assert(all.skip(all.len() as int) == Seq::<(Seq<char>, JsonView)>::empty());
        }
        while fields.len() > 0
            invariant
                fields@ == raw.take(fields.len() as int),
                fields.len() <= raw.len(),
                all == members_view(raw),
                "Abstract"@.len() == 8,
                "AbstractURL"@.len() == 11,
                "RelatedTopics"@.len() == 13,
                opt_json_view(a_text) == lookup(all.skip(fields.len() as int), "Abstract"@),
                opt_json_view(a_url) == lookup(all.skip(fields.len() as int), "AbstractURL"@),
                opt_json_view(topics) == lookup(
                    all.skip(fields.len() as int),
                    "RelatedTopics"@,
                ),
            decreases fields.len(),
        {
            let ghost n = fields.len() as int;
            let last = fields.pop();
            proof {
                assert(all.skip(n - 1).drop_first() == all.skip(n));
                assert(all.skip(n - 1)[0] == all[n - 1]);
                assert(all[n - 1] == (raw[n - 1].0@, raw[n - 1].1@));
                assert(raw.take(n).drop_last() == raw.take(n - 1));
            }
            match last {
                Some((key, value)) => {
                    let k = chars_of(key.as_str());
                    if is_text(&k, "Abstract") {
                        a_text = Some(value);
                    } else if is_text(&k, "AbstractURL") {
                        a_url = Some(value);
                    } else if is_text(&k, "RelatedTopics") {
                        topics = Some(value);
                    }
                },
                None => {},
            }
        }
        assert(all.skip(0) == all);
        let abstract_text = match take_text(a_text) {
            Ok(t) => t,
            Err(_) => {
                return None;
            },
        };
        let abstract_url = match take_text(a_url) {
            Ok(t) => t,
            Err(_) => {
                return None;
            },
        };
        let related_topics = match take_items(topics) {
            Ok(t) => t,
            Err(_) => {
                return None;
            },
        };
        Some(DuckDuckGoResult { abstract_text, abstract_url, related_topics })
    }

    /// Reads the provider's answer from the text of a response body; `None`
    /// where the text is not JSON or does not have the shape of an answer.
    pub fn from_body(body: &str) -> (r: Option<DuckDuckGoResult>)
        ensures
            match r {
                Some(b) => answer_of(parsed_json(body@)) == Some(b@),
                None => answer_of(parsed_json(body@)) is None,
            },
    {
        match Json::parse(body) {
            Some(json) => DuckDuckGoResult::from_json(json),
            None => None,
        }
    }
}

/// The result that the abstract gives, if any: one where abstract and URL are
/// both present and not blank.
pub open spec fn abstract_items(text: Option<Seq<char>>, url: Option<Seq<char>>) -> Seq<ItemView> {
    match (text, url) {
        (Some(t), Some(u)) => if trim_of(t).len() > 0 && trim_of(u).len() > 0 {
            seq![
                ItemView {
                    title: title_of(t),
                    snippet: trim_of(t),
                    url: trim_of(u),
                    page_excerpt: None,
                },
            ]
        } else {
            Seq::<ItemView>::empty()
        },
        _ => Seq::<ItemView>::empty(),
    }
}

/// `acc`, with the result of the topic `obj` added where `acc` holds fewer
/// than `max` results and the topic gives one.
pub open spec fn with_topic(acc: Seq<ItemView>, obj: JsonView, max: int) -> Seq<ItemView> {
    if acc.len() >= max {
        acc
    } else {
        match topic_item(obj) {
            Some(item) => acc.push(item),
            None => acc,
        }
    }
}

/// `acc`, with the results of `topics` added in order, up to `max` results.
pub open spec fn with_topics(acc: Seq<ItemView>, topics: Seq<JsonView>, max: int) -> Seq<
    ItemView,
>
    decreases topics.len(),
{
    if topics.len() == 0 {
        acc
    } else {
        with_topic(with_topics(acc, topics.drop_last(), max), topics.last(), max)
    }
}

/// `acc`, with what one entry of the related topics adds: the topics of a
/// group (an object with an array `Topics`; nothing where `Topics` is no
/// array), or the entry itself as a topic.
pub open spec fn with_related(acc: Seq<ItemView>, entry: JsonView, max: int) -> Seq<ItemView> {
    if acc.len() >= max {
        acc
    } else {
        match entry.member("Topics"@) {
            Some(group) => match group.items() {
                Some(topics) => with_topics(acc, topics, max),
                None => acc,
            },
            None => with_topic(acc, entry, max),
        }
    }
}

/// `acc`, with what the entries of the related topics add, in order.
pub open spec fn with_all_related(acc: Seq<ItemView>, entries: Seq<JsonView>, max: int) -> Seq<
    ItemView,
>
    decreases entries.len(),
{
    if entries.len() == 0 {
        acc
    } else {
        with_related(with_all_related(acc, entries.drop_last(), max), entries.last(), max)
    }
}

/// The results of an answer: the abstract's, then those of the related
/// topics in order, groups flattened. Topics are added while there are fewer
/// than `max` results; the abstract's result is always kept.
pub open spec fn answer_items(body: AnswerView, max: int) -> Seq<ItemView> {
    let first = abstract_items(body.abstract_text, body.abstract_url);
    match body.related_topics {
        Some(entries) => with_all_related(first, entries, max),
        None => first,
    }
}

fn push_topics(results: &mut Vec<WebSearchResultItem>, topics: &Vec<Json>, max_results: usize)
    ensures
        items_view(final(results)@) == with_topics(
            items_view(old(results)@),
            items_views(topics@),
            max_results as int,
        ),
{
    let ghost start = items_view(results@);
    let ghost all = items_views(topics@);
    let mut i: usize = 0;
    assert(all.take(0) == Seq::<JsonView>::empty());
    while i < topics.len()
        invariant
            i <= topics.len(),
            all == items_views(topics@),
            items_view(results@) == with_topics(start, all.take(i as int), max_results as int),
        decreases topics.len() - i,
    {
        let ghost head = all.take(i + 1);
        assert(head.drop_last() == all.take(i as int));
        assert(head.last() == topics@[i as int]@);
        if results.len() < max_results {
            if let Some(item) = one_result_from_obj(&topics[i]) {
                let ghost before = results@;
                results.push(item);
                assert(items_view(results@) =~= items_view(before).push(item@));
            }
        }
        i += 1;
    }
    assert(all.take(topics.len() as int) == all);
}

/// Reads the results of an answer: the abstract's, then those of the
/// related topics in order, groups flattened, while there are fewer than
/// `max_results`.
pub fn parse_duckduckgo_results(body: &DuckDuckGoResult, max_results: usize) -> (results: Vec<
    WebSearchResultItem,
>)
    ensures
        items_view(results@) == answer_items(body@, max_results as int),
{
    let mut results: Vec<WebSearchResultItem> = Vec::new();
    assert(items_view(results@) =~= Seq::<ItemView>::empty());
    if let (Some(t), Some(u)) = (&body.abstract_text, &body.abstract_url) {
        let tv = chars_of(t.as_str());
        let uv = chars_of(u.as_str());
        let tt = trim_chars(&tv);
        let ut = trim_chars(&uv);
        if tt.len() > 0 && ut.len() > 0 {
            let item = WebSearchResultItem {
                title: make_title(&tv),
                snippet: string_of(&tt),
                url: string_of(&ut),
                page_excerpt: None,
            };
            results.push(item);
            assert(items_view(results@) =~= seq![item@]);
        }
    }
    if let Some(entries) = &body.related_topics {
        let ghost first = items_view(results@);
        let ghost all = items_views(entries@);
        let mut i: usize = 0;
        assert(all.take(0) == Seq::<JsonView>::empty());
        while i < entries.len()
            invariant
                i <= entries.len(),
                all == items_views(entries@),
                items_view(results@) == with_all_related(
                    first,
                    all.take(i as int),
                    max_results as int,
                ),
            decreases entries.len() - i,
        {
            let ghost head = all.take(i + 1);
            assert(head.drop_last() == all.take(i as int));
            assert(head.last() == entries@[i as int]@);
            if results.len() < max_results {
                match entries[i].get("Topics") {
                    Some(group) => {
                        if let Some(topics) = group.as_array() {
                            push_topics(&mut results, topics, max_results);
                        }
                    },
                    None => {
                        if let Some(item) = one_result_from_obj(&entries[i]) {
                            let ghost before = results@;
                            results.push(item);
                            assert(items_view(results@) =~= items_view(before).push(item@));
                        }
                    },
                }
            }
            i += 1;
        }
        assert(all.take(entries.len() as int) == all);
    }
    results
}

/// The results read from topics are well formed.
pub proof fn lemma_with_topics_wf(acc: Seq<ItemView>, topics: Seq<JsonView>, max: int)
    requires
        items_wf(acc),
    ensures
        items_wf(with_topics(acc, topics, max)),
    decreases topics.len(),
{
    if topics.len() > 0 {
        lemma_with_topics_wf(acc, topics.drop_last(), max);
    }
}

/// The results read from the related topics are well formed.
pub proof fn lemma_with_all_related_wf(
    acc: Seq<ItemView>,
    entries: Seq<JsonView>,
    max: int,
)
    requires
        items_wf(acc),
    ensures
        items_wf(with_all_related(acc, entries, max)),
    decreases entries.len(),
{
    if entries.len() > 0 {
        lemma_with_all_related_wf(acc, entries.drop_last(), max);
        let mid = with_all_related(acc, entries.drop_last(), max);
        match entries.last().member("Topics"@) {
            Some(group) => match group.items() {
                Some(topics) => {
                    lemma_with_topics_wf(mid, topics, max);
                },
                None => {},
            },
            None => {},
        }
    }
}

/// Every result read from an answer is well formed: its title has 120
/// characters at most, and its address is not empty.
pub proof fn lemma_answer_items_wf(body: AnswerView, max: int)
    ensures
        items_wf(answer_items(body, max)),
{
    let first = abstract_items(body.abstract_text, body.abstract_url);
    match body.related_topics {
        Some(entries) => {
            lemma_with_all_related_wf(first, entries, max);
        },
        None => {},
    }
}

/// The topics never take the list beyond `max` results, nor shorten it.
pub proof fn lemma_with_topics_bound(acc: Seq<ItemView>, topics: Seq<JsonView>, max: int)
    ensures
        acc.len() <= with_topics(acc, topics, max).len(),
        with_topics(acc, topics, max).len() <= if acc.len() > max {
            acc.len() as int
        } else {
            max
        },
    decreases topics.len(),
{
    if topics.len() > 0 {
        lemma_with_topics_bound(acc, topics.drop_last(), max);
    }
}

/// The related topics never take the list beyond `max` results, nor shorten
/// it.
pub proof fn lemma_with_all_related_bound(
    acc: Seq<ItemView>,
    entries: Seq<JsonView>,
    max: int,
)
    ensures
        acc.len() <= with_all_related(acc, entries, max).len(),
        with_all_related(acc, entries, max).len() <= if acc.len() > max {
            acc.len() as int
        } else {
            max
        },
    decreases entries.len(),
{
    if entries.len() > 0 {
        lemma_with_all_related_bound(acc, entries.drop_last(), max);
        let mid = with_all_related(acc, entries.drop_last(), max);
        match entries.last().member("Topics"@) {
            Some(group) => match group.items() {
                Some(topics) => {
                    lemma_with_topics_bound(mid, topics, max);
                },
                None => {},
            },
            None => {},
        }
    }
}

/// An answer read with a limit of at least one gives at most that many
/// results.
pub proof fn lemma_answer_items_bound(body: AnswerView, max: int)
    requires
        max >= 1,
    ensures
        answer_items(body, max).len() <= max,
{
    let first = abstract_items(body.abstract_text, body.abstract_url);
    match body.related_topics {
        Some(entries) => {
            lemma_with_all_related_bound(first, entries, max);
        },
        None => {},
    }
}

} // verus!
