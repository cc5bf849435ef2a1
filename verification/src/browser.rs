//! Opening the browser, at an address or at a search, and reading the page
//! that was opened so that its text comes back with the confirmation.
//!
//! The caller starts the browser and performs the requests. With an address,
//! the page at that address is read. With a query, the search page of the
//! engine is opened; for the default engine the primary provider is asked
//! for its first result, and that page is read.

use crate::command::Platform;
use crate::error::{ErrorView, McpToolError};
use crate::fetch::{
    browser_agent, fetch_request, fetch_url_content_impl, fetchable, is_fetchable_url,
    page_request, page_text, OPEN_BROWSER_FETCH_MAX_CHARS,
};
use crate::http::{
    body_json, on_success, pairs_view, param, HttpReply, HttpRequest, RequestView,
};
use crate::json::{opt_json_view, Json, JsonView};
use crate::results::{answer_items, answer_of, parse_duckduckgo_results, DuckDuckGoResult};
use crate::terminal::{texts_view, Launch, LaunchView};
use crate::text::{
    chars_of, concat_str, is_blank, is_blank_str, is_text, lowercase, owned, push_str, string_of,
    to_lowercase, trim, trim_chars, trim_of,
};
use vstd::prelude::*;
use vstd::utf8::encode_utf8;

verus! {

// ---------------------------------------------------------------------------
// Percent encoding
// ---------------------------------------------------------------------------

/// The bytes that stand for themselves in an address: letters, digits, and
/// `-`, `.`, `_`, `~`.
pub open spec fn is_unreserved(b: u8) -> bool {
    ||| 0x30 <= b <= 0x39
    ||| 0x41 <= b <= 0x5A
    ||| 0x61 <= b <= 0x7A
    ||| b == 0x2D
    ||| b == 0x2E
    ||| b == 0x5F
    ||| b == 0x7E
}

/// The upper-case hexadecimal digit of a number below 16.
pub open spec fn hex_digit(d: int) -> char {
    if d < 10 {
        (0x30 + d) as char
    } else {
        (0x37 + d) as char
    }
}

/// One byte as it stands in an address: itself, or `%` and its two
/// hexadecimal digits.
pub open spec fn encoded_byte(b: u8) -> Seq<char> {
    if is_unreserved(b) {
        seq![b as char]
    } else {
        seq!['%', hex_digit(b as int / 16), hex_digit(b as int % 16)]
    }
}

/// Bytes as they stand in an address, each by `encoded_byte`.
pub open spec fn percent_encoded(bytes: Seq<u8>) -> Seq<char>
    decreases bytes.len(),
{
    if bytes.len() == 0 {
        Seq::<char>::empty()
    } else {
        percent_encoded(bytes.drop_last()) + encoded_byte(bytes.last())
    }
}

/// `urlencoding::encode` percent-encodes every byte of the text's UTF-8
/// form but letters, digits and `-`, `.`, `_`, `~`, with upper-case
/// hexadecimal digits.
#[verifier::external_body]
fn url_encode(data: &str) -> (out: String)
    ensures
        out@ == percent_encoded(encode_utf8(data@)),
{
    urlencoding::encode(data).into_owned()
}

// ---------------------------------------------------------------------------
// Starting the browser
// ---------------------------------------------------------------------------

/// The program that opens `url` in the default browser.
pub open spec fn browser_launch(url: Seq<char>, platform: Platform) -> LaunchView {
    match platform {
        Platform::Windows => LaunchView {
            program: "cmd"@,
            args: seq!["/C"@, "start"@, Seq::<char>::empty(), url],
        },
        Platform::MacOs => LaunchView { program: "open"@, args: seq![url] },
        Platform::Other => LaunchView { program: "xdg-open"@, args: seq![url] },
    }
}

/// What opening an address takes: the trimmed address and the program to
/// start, or the refusal of a blank address.
pub open spec fn open_plan(url: Seq<char>, platform: Platform) -> Result<
    (Seq<char>, LaunchView),
    ErrorView,
> {
    if is_blank(url) {
        Err(ErrorView::InvalidArg("url cannot be empty"@))
    } else {
        Ok((trim_of(url), browser_launch(trim_of(url), platform)))
    }
}

/// Plans to open an address in the default browser: the trimmed address,
/// and the program to start.
pub fn open_url_in_browser(url: &str, platform: Platform) -> (r: Result<
    (String, Launch),
    McpToolError,
>)
    ensures
        match r {
            Ok((u, l)) => open_plan(url@, platform) == Ok::<_, ErrorView>((u@, l@)),
            Err(e) => open_plan(url@, platform) == Err::<(Seq<char>, LaunchView), _>(e@),
        },
{
    let raw = chars_of(url);
    let t = trim_chars(&raw);
    if t.len() == 0 {
        return Err(McpToolError::InvalidArg(owned("url cannot be empty")));
    }
    let address = string_of(&t);
    let launch = match platform {
        Platform::Windows => {
            proof {
                reveal_strlit("");
                assert(""@ =~= Seq::<char>::empty());
            }
            let args = vec![owned("/C"), owned("start"), owned(""), string_of(&t)];
            assert(texts_view(args@) =~= seq!["/C"@, "start"@, Seq::<char>::empty(), t@]);
            Launch { program: owned("cmd"), args }
        },
        Platform::MacOs => {
            let args = vec![string_of(&t)];
            assert(texts_view(args@) =~= seq![t@]);
            Launch { program: owned("open"), args }
        },
        Platform::Other => {
            let args = vec![string_of(&t)];
            assert(texts_view(args@) =~= seq![t@]);
            Launch { program: owned("xdg-open"), args }
        },
    };
    Ok((address, launch))
}

/// The failure to start the browser.
pub fn browser_open_failed(reason: &str) -> (e: McpToolError)
    ensures
        e@ == ErrorView::CommandFailed("failed to open browser: "@ + reason@),
{
    McpToolError::CommandFailed(concat_str("failed to open browser: ", reason))
}

// ---------------------------------------------------------------------------
// The plan of a browser search
// ---------------------------------------------------------------------------

/// What follows once the browser is open.
#[derive(Debug, PartialEq, Eq)]
pub enum BrowserFollow {
    /// Read the page at this address.
    Fetch(String),
    /// Ask the primary provider for the first result of this query, and
    /// read that page.
    FirstResult(String),
    /// Nothing.
    Nothing,
}

/// A follow-up as plain values.
pub enum FollowView {
    Fetch(Seq<char>),
    FirstResult(Seq<char>),
    Nothing,
}

impl View for BrowserFollow {
    type V = FollowView;

    open spec fn view(&self) -> FollowView {
        match self {
            BrowserFollow::Fetch(u) => FollowView::Fetch(u@),
            BrowserFollow::FirstResult(q) => FollowView::FirstResult(q@),
            BrowserFollow::Nothing => FollowView::Nothing,
        }
    }
}

/// What a browser search does first.
#[derive(Debug, PartialEq, Eq)]
pub struct BrowserPlan {
    /// The program that opens the browser.
    pub launch: Launch,
    /// The confirmation, once the browser is open.
    pub message: String,
    pub follow: BrowserFollow,
}

/// A plan as plain values.
pub struct BrowserPlanView {
    pub launch: LaunchView,
    pub message: Seq<char>,
    pub follow: FollowView,
}

impl View for BrowserPlan {
    type V = BrowserPlanView;

    open spec fn view(&self) -> BrowserPlanView {
        BrowserPlanView { launch: self.launch@, message: self.message@, follow: self.follow@ }
    }
}

/// The address of the search page of an engine, named in lower case, for a
/// query: the default engine's for every name but `bing` and `google`.
pub open spec fn search_address(engine_lower: Seq<char>, query: Seq<char>) -> Seq<char> {
    let encoded = percent_encoded(encode_utf8(query));
    if engine_lower == "bing"@ {
        "https://www.bing.com/search?q="@ + encoded
    } else if engine_lower == "google"@ {
        "https://www.google.com/search?q="@ + encoded
    } else {
        "https://duckduckgo.com/?q="@ + encoded
    }
}

/// What a browser search does first. An address, where one is given, is
/// opened and read. Else the query is searched with the engine, whose name
/// in lower case is `engine_lower`; only the default engine's first result
/// is looked up.
pub open spec fn browser_plan(
    url: Option<Seq<char>>,
    query: Option<Seq<char>>,
    engine_lower: Seq<char>,
    platform: Platform,
) -> Result<BrowserPlanView, ErrorView> {
    match url {
        Some(u) => if is_blank(u) {
            Err(ErrorView::InvalidArg("open_browser_search requires non-empty url or query"@))
        } else {
            Ok(
                BrowserPlanView {
                    launch: browser_launch(trim_of(u), platform),
                    message: "Opened browser: "@ + trim_of(u),
                    follow: FollowView::Fetch(trim_of(u)),
                },
            )
        },
        None => {
            let q = match query {
                Some(q) => trim_of(q),
                None => Seq::<char>::empty(),
            };
            if q.len() == 0 {
                Err(ErrorView::InvalidArg("open_browser_search requires url or query"@))
            } else {
                let address = search_address(engine_lower, q);
                if is_blank(address) {
                    Err(ErrorView::InvalidArg("url cannot be empty"@))
                } else {
                    Ok(
                        BrowserPlanView {
                            launch: browser_launch(trim_of(address), platform),
                            message: "Opened browser: "@ + address,
                            follow: if engine_lower == "duckduckgo"@ {
                                FollowView::FirstResult(q)
                            } else {
                                FollowView::Nothing
                            },
                        },
                    )
                }
            }
        },
    }
}

/// Plans a browser search, given the engine's name in lower case.
pub fn plan_browser_search(
    url: Option<&str>,
    query: Option<&str>,
    engine_lower: &str,
    platform: Platform,
) -> (r: Result<BrowserPlan, McpToolError>)
    ensures
        match r {
            Ok(p) => browser_plan(
                match url {
                    Some(u) => Some(u@),
                    None => None,
                },
                match query {
                    Some(q) => Some(q@),
                    None => None,
                },
                engine_lower@,
                platform,
            ) == Ok::<_, ErrorView>(p@),
            Err(e) => browser_plan(
                match url {
                    Some(u) => Some(u@),
                    None => None,
                },
                match query {
                    Some(q) => Some(q@),
                    None => None,
                },
                engine_lower@,
                platform,
            ) == Err::<BrowserPlanView, _>(e@),
        },
{
    match url {
        Some(u) => {
            if is_blank_str(u) {
                return Err(
                    McpToolError::InvalidArg(
                        owned("open_browser_search requires non-empty url or query"),
                    ),
                );
            }
            match open_url_in_browser(u, platform) {
                Ok((address, launch)) => Ok(
                    BrowserPlan {
                        launch,
                        message: concat_str("Opened browser: ", address.as_str()),
                        follow: BrowserFollow::Fetch(address),
                    },
                ),
                Err(e) => Err(e),
            }
        },
        None => {
            let q: String = match query {
                Some(q) => trim(q),
                None => {
                    proof {
                        reveal_strlit("");
                        assert(""@ =~= Seq::<char>::empty());
                    }
                    owned("")
                },
            };
            if q.as_str().unicode_len() == 0 {
                return Err(
                    McpToolError::InvalidArg(owned("open_browser_search requires url or query")),
                );
            }
            let engine = chars_of(engine_lower);
            let encoded = url_encode(q.as_str());
            let address = if is_text(&engine, "bing") {
                concat_str("https://www.bing.com/search?q=", encoded.as_str())
            } else if is_text(&engine, "google") {
                concat_str("https://www.google.com/search?q=", encoded.as_str())
            } else {
                concat_str("https://duckduckgo.com/?q=", encoded.as_str())
            };
            match open_url_in_browser(address.as_str(), platform) {
                Ok((_, launch)) => Ok(
                    BrowserPlan {
                        launch,
                        message: concat_str("Opened browser: ", address.as_str()),
                        follow: if is_text(&engine, "duckduckgo") {
                            BrowserFollow::FirstResult(q)
                        } else {
                            BrowserFollow::Nothing
                        },
                    },
                ),
                Err(e) => Err(e),
            }
        },
    }
}

/// Plans a browser search: what to open, and what to read once it is open.
/// Nothing is started here.
pub fn tool_open_browser_search(
    url: Option<&str>,
    query: Option<&str>,
    engine: Option<&str>,
    platform: Platform,
) -> (r: Result<BrowserPlan, McpToolError>)
    ensures
        match r {
            Ok(p) => browser_plan(
                match url {
                    Some(u) => Some(u@),
                    None => None,
                },
                match query {
                    Some(q) => Some(q@),
                    None => None,
                },
                lowercase(
                    match engine {
                        Some(e) => e@,
                        None => "duckduckgo"@,
                    },
                ),
                platform,
            ) == Ok::<_, ErrorView>(p@),
            Err(e) => browser_plan(
                match url {
                    Some(u) => Some(u@),
                    None => None,
                },
                match query {
                    Some(q) => Some(q@),
                    None => None,
                },
                lowercase(
                    match engine {
                        Some(e) => e@,
                        None => "duckduckgo"@,
                    },
                ),
                platform,
            ) == Err::<BrowserPlanView, _>(e@),
        },
{
    let engine_lower = match engine {
        Some(e) => to_lowercase(e),
        None => to_lowercase("duckduckgo"),
    };
    plan_browser_search(url, query, engine_lower.as_str(), platform)
}

// ---------------------------------------------------------------------------
// Reading the page
// ---------------------------------------------------------------------------

/// Which reply a browser search waits for.
#[derive(Debug, Clone, Copy, PartialEq, Eq)]
pub enum BrowserStage {
    /// The primary provider's first result.
    FirstResult,
    /// The page.
    Page,
}

/// A browser search whose browser is open.
#[derive(Debug, PartialEq, Eq)]
pub struct BrowserSearch {
    /// The confirmation.
    pub message: String,
    pub stage: BrowserStage,
}

/// A browser search as plain values.
pub struct BrowserSearchView {
    pub message: Seq<char>,
    pub stage: BrowserStage,
}

impl View for BrowserSearch {
    type V = BrowserSearchView;

    open spec fn view(&self) -> BrowserSearchView {
        BrowserSearchView { message: self.message@, stage: self.stage }
    }
}

/// What a browser search does next.
#[derive(Debug, PartialEq, Eq)]
pub enum BrowserStep {
    /// Make this request and hand the reply to `advance`.
    Ask(BrowserSearch, HttpRequest),
    /// The search is over, with this content or this failure.
    Done(Result<String, McpToolError>),
}

/// A step as plain values.
pub enum BrowserStepView {
    Ask(BrowserSearchView, RequestView),
    Done(Result<Seq<char>, ErrorView>),
}

impl View for BrowserStep {
    type V = BrowserStepView;

    open spec fn view(&self) -> BrowserStepView {
        match self {
            BrowserStep::Ask(s, r) => BrowserStepView::Ask(s@, r@),
            BrowserStep::Done(Ok(text)) => BrowserStepView::Done(Ok(text@)),
            BrowserStep::Done(Err(e)) => BrowserStepView::Done(Err(e@)),
        }
    }
}

/// The request to the primary provider for the first result of `query`.
pub open spec fn first_result_request(query: Seq<char>) -> RequestView {
    RequestView {
        url: "https://api.duckduckgo.com/"@,
        query: seq![("q"@, query), ("format"@, "json"@)],
        timeout_secs: 12,
        user_agent: browser_agent(),
        accept_language: None,
    }
}

/// The page at `url` is read where it can be fetched; else the search is
/// over with the confirmation alone.
pub open spec fn read_page(message: Seq<char>, url: Seq<char>) -> BrowserStepView {
    if fetchable(url) {
        BrowserStepView::Ask(
            BrowserSearchView { message, stage: BrowserStage::Page },
            fetch_request(url, None),
        )
    } else {
        BrowserStepView::Done(Ok(message))
    }
}

/// What follows the attempt to open the browser: its failure ends the call;
/// else the follow-up of the plan.
pub open spec fn after_open(plan: BrowserPlanView, outcome: Result<(), String>) -> BrowserStepView {
    match outcome {
        Err(e) => BrowserStepView::Done(
            Err(ErrorView::CommandFailed("failed to open browser: "@ + e@)),
        ),
        Ok(_) => match plan.follow {
            FollowView::Fetch(u) => read_page(plan.message, u),
            FollowView::FirstResult(q) => BrowserStepView::Ask(
                BrowserSearchView { message: plan.message, stage: BrowserStage::FirstResult },
                first_result_request(q),
            ),
            FollowView::Nothing => BrowserStepView::Done(Ok(plan.message)),
        },
    }
}

/// The address of the first result of an answer, if it has a result.
pub open spec fn first_result_url(json: Option<JsonView>) -> Option<Seq<char>> {
    match answer_of(json) {
        Some(a) => if answer_items(a, 1).len() > 0 {
            Some(answer_items(a, 1)[0].url)
        } else {
            None
        },
        None => None,
    }
}

/// The confirmation with the text of the page after it, where there is
/// text.
pub open spec fn with_page(message: Seq<char>, text: Option<Seq<char>>) -> Seq<char> {
    match text {
        Some(t) => if is_blank(t) {
            message
        } else {
            message
                + "\n\nPage content (use this as context to summarize or answer; user did not paste this):\n\n"@
                + t
        },
        None => message,
    }
}

/// What a browser search does on a reply. `json` is the JSON document of
/// the body, `None` where there is none.
pub open spec fn browser_next(s: BrowserSearchView, reply: HttpReply, json: Option<JsonView>)
    -> BrowserStepView {
    match s.stage {
        BrowserStage::FirstResult => match first_result_url(on_success(reply, json)) {
            Some(u) => read_page(s.message, u),
            None => BrowserStepView::Done(Ok(s.message)),
        },
        BrowserStage::Page => BrowserStepView::Done(
            Ok(with_page(s.message, page_text(reply, 12000))),
        ),
    }
}

fn to_page(message: String, url: &str) -> (r: BrowserStep)
    ensures
        r@ == read_page(message@, url@),
{
    if is_fetchable_url(url) {
        let request = page_request(url, None);
        BrowserStep::Ask(BrowserSearch { message, stage: BrowserStage::Page }, request)
    } else {
        BrowserStep::Done(Ok(message))
    }
}

impl BrowserPlan {
    /// Goes on once the caller has tried to open the browser. `outcome` is
    /// the message of the failure where the browser did not start.
    pub fn opened(self, outcome: Result<(), String>) -> (r: BrowserStep)
        ensures
            r@ == after_open(self@, outcome),
    {
        match outcome {
            Err(e) => BrowserStep::Done(
                Err(McpToolError::CommandFailed(concat_str("failed to open browser: ", e.as_str()))),
            ),
            Ok(_) => match self.follow {
                BrowserFollow::Fetch(u) => to_page(self.message, u.as_str()),
                BrowserFollow::FirstResult(q) => {
                    let params = vec![param("q", q.as_str()), param("format", "json")];
                    assert(pairs_view(params@) =~= seq![("q"@, q@), ("format"@, "json"@)]);
                    BrowserStep::Ask(
                        BrowserSearch { message: self.message, stage: BrowserStage::FirstResult },
                        HttpRequest {
                            url: owned("https://api.duckduckgo.com/"),
                            query: params,
                            timeout_secs: 12,
                            user_agent: owned(
                                "Mozilla/5.0 (Windows NT 10.0; rv:91.0) Gecko/20100101 Firefox/91.0",
                            ),
                            accept_language: None,
                        },
                    )
                },
                BrowserFollow::Nothing => BrowserStep::Done(Ok(self.message)),
            },
        }
    }
}

/// The address of the first result in the JSON document of an answer.
pub fn duckduckgo_first_result_url(json: Option<Json>) -> (r: Option<String>)
    ensures
        match r {
            Some(u) => first_result_url(opt_json_view(json)) == Some(u@),
            None => first_result_url(opt_json_view(json)) is None,
        },
{
    let answer = match json {
        Some(j) => DuckDuckGoResult::from_json(j),
        None => None,
    };
    match answer {
        Some(a) => {
            let mut results = parse_duckduckgo_results(&a, 1);
            if results.len() > 0 {
                let first = results.remove(0);
                Some(first.url)
            } else {
                None
            }
        },
        None => None,
    }
}

impl BrowserSearch {
    /// Takes the search one step on. `reply` is the reply to its last
    /// request, `json` the JSON document of the reply's body.
    pub fn advance_with(self, reply: &HttpReply, json: Option<Json>) -> (r: BrowserStep)
        ensures
            r@ == browser_next(self@, *reply, opt_json_view(json)),
    {
        match self.stage {
            BrowserStage::FirstResult => {
                let heard = if reply.succeeded() {
                    json
                } else {
                    None
                };
                match duckduckgo_first_result_url(heard) {
                    Some(u) => to_page(self.message, u.as_str()),
                    None => BrowserStep::Done(Ok(self.message)),
                }
            },
            BrowserStage::Page => {
                match fetch_url_content_impl(reply, OPEN_BROWSER_FETCH_MAX_CHARS) {
                    Some(text) => {
                        if is_blank_str(text.as_str()) {
                            BrowserStep::Done(Ok(self.message))
                        } else {
                            let mut out = chars_of(self.message.as_str());
                            push_str(
                                &mut out,
                                "\n\nPage content (use this as context to summarize or answer; user did not paste this):\n\n",
                            );
                            push_str(&mut out, text.as_str());
                            BrowserStep::Done(Ok(string_of(&out)))
                        }
                    },
                    None => BrowserStep::Done(Ok(self.message)),
                }
            },
        }
    }

    /// Takes the search one step on, given the reply to its last request.
    pub fn advance(self, reply: &HttpReply) -> (r: BrowserStep)
        ensures
            r@ == browser_next(self@, *reply, body_json(*reply)),
    {
        let json = reply.parse_body();
        self.advance_with(reply, json)
    }
}

} // verus!
