use local_private_llm::encyclopedia::{
    is_list_title_text, wikipedia_fallback_impl, PageStep, WikipediaLookup,
};
use local_private_llm::fetch::{
    clamp_max_chars, fetch_page_excerpt, fetch_url_content, fetch_url_content_impl,
    fetch_url_request, is_fetchable_url, strip_html_to_text, tool_fetch_url,
};
use local_private_llm::error::McpToolError;
use local_private_llm::http::{HttpReply, HttpRequest};
use local_private_llm::json::Json;
use local_private_llm::officeholder::{wikidata_officeholder_fallback, LookupStep};
use local_private_llm::output::{WebSearchOutput, WebSearchReport};
use local_private_llm::query::{
    append_year, is_officeholder_query, is_officeholder_text, is_time_sensitive_query,
    is_time_sensitive_text, normalize_officeholder_query, officeholder_of_text,
    rewrite_web_search_query,
};
use local_private_llm::results::{
    make_title, one_result_from_obj, parse_duckduckgo_results, DuckDuckGoResult,
    WebSearchResultItem,
};
use local_private_llm::websearch::{clamp_max_results, web_search_start, SearchStep, WebSearch};

fn text(s: &str) -> Json {
    Json::Text(s.to_string())
}

fn object(members: Vec<(&str, Json)>) -> Json {
    Json::Object(members.into_iter().map(|(k, v)| (k.to_string(), v)).collect())
}

fn ok(body: &str) -> HttpReply {
    HttpReply::Response { status: 200, length: body.len(), body: body.to_string() }
}

fn status(code: u16) -> HttpReply {
    HttpReply::Response { status: code, length: 0, body: String::new() }
}

fn failed(message: &str) -> HttpReply {
    HttpReply::Failed(message.to_string())
}

fn params(request: &HttpRequest) -> Vec<(&str, &str)> {
    request.query.iter().map(|(k, v)| (k.as_str(), v.as_str())).collect()
}

fn asked(step: SearchStep) -> (WebSearch, HttpRequest) {
    match step {
        SearchStep::Ask(s, r) => (s, r),
        SearchStep::Finish(r) => panic!("search ended early: {:?}", r),
    }
}

fn finished(step: SearchStep) -> WebSearchReport {
    match step {
        SearchStep::Finish(r) => r,
        SearchStep::Ask(_, r) => panic!("search went on: {:?}", r),
    }
}

fn step_names(out: &WebSearchOutput) -> Vec<(&str, bool, &str)> {
    out.steps.iter().map(|s| (s.name.as_str(), s.ok, s.detail.as_str())).collect()
}

fn trail(report: &WebSearchReport) -> Vec<(&str, &str)> {
    report.diagnostic_steps.iter().map(|s| (s.level.as_str(), s.message.as_str())).collect()
}

const ONE_RESULT: &str = r#"{"Abstract":"Rust is a language.","AbstractURL":"https://example.com/rust","RelatedTopics":[{"Text":"Second\nmore","FirstURL":"ftp://example.com/2"},{"Text":"Third","FirstURL":"https://example.com/3"}]}"#;

#[test]
fn parse_duckduckgo_abstract_returns_one_result() {
    let body = DuckDuckGoResult {
        abstract_text: Some("Joe Biden is the 46th president.".to_string()),
        abstract_url: Some("https://example.com/president".to_string()),
        related_topics: None,
    };
    let results = parse_duckduckgo_results(&body, 5);
    assert!(!results.is_empty(), "Abstract + AbstractURL should yield at least 1 result");
    assert_eq!(results[0].url, "https://example.com/president");
    assert_eq!(results[0].snippet, "Joe Biden is the 46th president.");
}

#[test]
fn parse_duckduckgo_related_topics_direct() {
    let body = DuckDuckGoResult {
        abstract_text: None,
        abstract_url: None,
        related_topics: Some(vec![object(vec![
            ("Text", text("Current president of the United States - Joe Biden")),
            ("FirstURL", text("https://en.wikipedia.org/wiki/Joe_Biden")),
        ])]),
    };
    let results = parse_duckduckgo_results(&body, 5);
    assert!(!results.is_empty(), "RelatedTopics with Text/FirstURL should yield at least 1 result");
    assert!(results[0].url.contains("wikipedia"));
}

#[test]
fn parse_duckduckgo_related_topics_nested() {
    let body = DuckDuckGoResult {
        abstract_text: None,
        abstract_url: None,
        related_topics: Some(vec![object(vec![
            ("Name", text("Category")),
            (
                "Topics",
                Json::Array(vec![object(vec![
                    ("Text", text("Summary of the topic.")),
                    ("FirstURL", text("https://example.com/1")),
                ])]),
            ),
        ])]),
    };
    let results = parse_duckduckgo_results(&body, 5);
    assert!(!results.is_empty(), "Nested Topics should be parsed");
    assert_eq!(results[0].url, "https://example.com/1");
}

#[test]
fn parse_duckduckgo_stops_at_the_limit_and_flattens_groups() {
    let body = DuckDuckGoResult::from_body(
        r#"{"Abstract":" A \n","AbstractURL":" https://a ","RelatedTopics":[
            {"Text":"one","FirstURL":"https://1"},
            {"Topics":[{"Text":"two","FirstURL":"https://2"},{"Text":"","FirstURL":"https://skip"},{"Text":"three","FirstURL":"https://3"}]},
            {"Topics":"not a list","Text":"ignored","FirstURL":"https://ignored"},
            "noise",
            {"Text":"four","FirstURL":"https://4"}]}"#,
    )
    .unwrap();
    let urls = |n: usize| -> Vec<String> {
        parse_duckduckgo_results(&body, n).into_iter().map(|r| r.url).collect()
    };
    assert_eq!(urls(10), vec!["https://a", "https://1", "https://2", "https://3", "https://4"]);
    assert_eq!(urls(3), vec!["https://a", "https://1", "https://2"]);
    assert_eq!(urls(1), vec!["https://a"]);
    assert_eq!(urls(0), vec!["https://a"]);
    let first = &parse_duckduckgo_results(&body, 1)[0];
    assert_eq!(first.title, "A");
    assert_eq!(first.snippet, "A");
    assert_eq!(first.page_excerpt, None);
}

#[test]
fn answer_must_be_an_object_with_members_of_the_right_kind() {
    assert!(DuckDuckGoResult::from_body("{}").is_some());
    assert!(DuckDuckGoResult::from_body(r#"{"Abstract":null,"RelatedTopics":null,"Other":1}"#).is_some());
    assert!(DuckDuckGoResult::from_body("[]").is_none());
    assert!(DuckDuckGoResult::from_body("not json").is_none());
    assert!(DuckDuckGoResult::from_body(r#"{"Abstract":5}"#).is_none());
    assert!(DuckDuckGoResult::from_body(r#"{"AbstractURL":[]}"#).is_none());
    assert!(DuckDuckGoResult::from_body(r#"{"RelatedTopics":{}}"#).is_none());
    let body = DuckDuckGoResult::from_body(r#"{"Abstract":"a","AbstractURL":"u","RelatedTopics":[1]}"#).unwrap();
    assert_eq!(body.abstract_text, Some("a".to_string()));
    assert_eq!(body.abstract_url, Some("u".to_string()));
    assert_eq!(body.related_topics, Some(vec![Json::Unsigned(1)]));
}

#[test]
fn topic_needs_text_and_address() {
    assert_eq!(
        one_result_from_obj(&object(vec![("Text", text("T\nrest")), ("FirstURL", text("https://u"))])),
        Some(WebSearchResultItem {
            title: "T".to_string(),
            snippet: "T\nrest".to_string(),
            url: "https://u".to_string(),
            page_excerpt: None,
        })
    );
    assert_eq!(one_result_from_obj(&object(vec![("Text", text("T"))])), None);
    assert_eq!(one_result_from_obj(&object(vec![("Text", text("")), ("FirstURL", text("u"))])), None);
    assert_eq!(one_result_from_obj(&object(vec![("Text", Json::Unsigned(3)), ("FirstURL", text("u"))])), None);
    assert_eq!(one_result_from_obj(&Json::Array(vec![])), None);
}

#[test]
fn title_is_the_first_line_cut_to_size() {
    let chars = |s: &str| -> Vec<char> { s.chars().collect() };
    assert_eq!(make_title(&chars("  Hello \r\nworld")), "Hello");
    assert_eq!(make_title(&chars("\nsecond")), "");
    let exact: String = "x".repeat(120);
    assert_eq!(make_title(&chars(&exact)), exact);
    let long: String = "é".repeat(121);
    let cut = make_title(&chars(&long));
    assert_eq!(cut.chars().count(), 118);
    assert_eq!(cut, format!("{}…", "é".repeat(117)));
    assert!(cut.chars().count() <= 120);
}

#[test]
fn time_sensitive_queries_are_recognized() {
    assert!(is_time_sensitive_query("today's weather"));
    assert!(is_time_sensitive_query("LATEST rust release"));
    assert!(is_time_sensitive_query("who won the Super Bowl"));
    assert!(is_time_sensitive_query("chess world champion"));
    assert!(is_time_sensitive_query("justice"));
    assert!(!is_time_sensitive_query("capital of France"));
    assert!(!is_time_sensitive_query(""));
    assert!(is_time_sensitive_text("final score"));
    assert!(!is_time_sensitive_text("FINAL SCORE"));
}

#[test]
fn query_is_rewritten_with_the_year_when_time_sensitive() {
    assert_eq!(rewrite_web_search_query("  latest rust release ", 30, 2026), ("latest rust release 2026".to_string(), 30));
    assert_eq!(rewrite_web_search_query(" capital of France ", 7, 2026), ("capital of France".to_string(), 7));
    assert_eq!(rewrite_web_search_query("   ", 30, 2026), (String::new(), 30));
    assert_eq!(rewrite_web_search_query("Today", 30, -44), ("Today -44".to_string(), 30));
    assert_eq!(append_year(" x ", true, 1999), "x 1999");
    assert_eq!(append_year(" x ", false, 1999), "x");
    assert_eq!(append_year("  ", true, 1999), "");
}

#[test]
fn officeholder_queries_are_recognized() {
    assert!(is_officeholder_query("Who is the President of France?"));
    assert!(is_officeholder_query("current prime minister of india"));
    assert!(is_officeholder_query("leader of the free world"));
    assert!(!is_officeholder_query("president"));
    assert!(!is_officeholder_query("who is the king of Spain"));
    assert!(is_officeholder_text("who is the leader of x"));
    assert!(!is_officeholder_text("Who Is The Leader Of X"));
}

#[test]
fn officeholder_query_is_normalized() {
    let some = |c: &str, p: &'static str, l: &'static str| Some((c.to_string(), p, l));
    assert_eq!(normalize_officeholder_query("who is the president of France"), some("France", "P35", "president"));
    assert_eq!(normalize_officeholder_query("  Current Prime Minister of UK "), some("United Kingdom", "P6", "prime minister"));
    assert_eq!(normalize_officeholder_query("who is the president of the usa?"), some("United States", "P35", "president"));
    assert_eq!(normalize_officeholder_query("who is the leader of japan"), some("Japan", "P35", "leader"));
    assert_eq!(normalize_officeholder_query("who is the president of brazil"), some("brazil", "P35", "president"));
    assert_eq!(normalize_officeholder_query("who is the president of france?"), some("france?", "P35", "president"));
    assert_eq!(normalize_officeholder_query("current president of"), None);
    assert_eq!(normalize_officeholder_query("weather in paris"), None);
    assert_eq!(officeholder_of_text("president of the u.s."), some("United States", "P35", "president"));
    assert_eq!(officeholder_of_text("who is the prime minister of the president"), some("president", "P6", "prime minister"));
}

#[test]
fn html_is_stripped_to_squeezed_text() {
    assert_eq!(strip_html_to_text("<p>Hello <b>world</b></p>"), "Hello world");
    assert_eq!(strip_html_to_text("  a \n\t b  "), "a b");
    assert_eq!(strip_html_to_text("a<br>b"), "a b");
    assert_eq!(strip_html_to_text("a<b>b</b>c"), "a b c");
    assert_eq!(strip_html_to_text("<html><!-- x > y -->z"), "y -->z");
    assert_eq!(strip_html_to_text("text <unclosed tag"), "text");
    assert_eq!(strip_html_to_text("<>"), "");
    assert_eq!(strip_html_to_text(""), "");
    assert_eq!(strip_html_to_text("1 > 0"), "1 > 0");
    assert_eq!(strip_html_to_text("a\u{a0}b"), "a b");
    assert_eq!(strip_html_to_text("é"), "é");
    assert_eq!(strip_html_to_text("<p>café</p>"), "café");
    assert_eq!(strip_html_to_text("<i>naïve</i>\u{3000}<b>日本語</b> — ok"), "naïve 日本語 — ok");
}

#[test]
fn only_http_addresses_are_fetched() {
    assert!(is_fetchable_url("http://example.com"));
    assert!(is_fetchable_url("https://example.com"));
    assert!(!is_fetchable_url("ftp://example.com"));
    assert!(!is_fetchable_url(" https://example.com"));
    assert!(!is_fetchable_url("HTTPS://example.com"));
    assert!(!is_fetchable_url(""));
}

#[test]
fn page_text_is_cut_to_the_budget() {
    assert_eq!(fetch_url_content_impl(&ok("<p>hello   world</p>"), 100), Some("hello world".to_string()));
    assert_eq!(fetch_url_content_impl(&ok("abcdefghij"), 10), Some("abcdefghij".to_string()));
    assert_eq!(fetch_url_content_impl(&ok("abcdefghijk"), 10), Some("abcdefghij…".to_string()));
    assert_eq!(fetch_url_content_impl(&ok("abcd efghij"), 5), Some("abcd…".to_string()));
    let long = "x".repeat(3000);
    let excerpt = fetch_page_excerpt(&ok(&long)).unwrap();
    assert_eq!(excerpt.chars().count(), 2201);
    assert!(excerpt.ends_with('…'));
}

#[test]
fn page_text_is_missing_for_failures_and_empty_pages() {
    assert_eq!(fetch_url_content_impl(&failed("timeout"), 100), None);
    assert_eq!(fetch_url_content_impl(&status(404), 100), None);
    assert_eq!(fetch_url_content_impl(&ok("<div> </div>"), 100), None);
    let huge = HttpReply::Response { status: 200, length: 512 * 1024 + 1, body: "text".to_string() };
    assert_eq!(fetch_url_content_impl(&huge, 100), None);
    let limit = HttpReply::Response { status: 200, length: 512 * 1024, body: "text".to_string() };
    assert_eq!(fetch_url_content_impl(&limit, 100), Some("text".to_string()));
    assert_eq!(
        fetch_url_content(&status(500), 100),
        Err(McpToolError::Network("fetch failed or returned no text".to_string()))
    );
    assert_eq!(fetch_url_content(&ok("hi"), 100), Ok("hi".to_string()));
}

#[test]
fn fetched_page_comes_with_a_note() {
    let request = fetch_url_request("https://example.com/a").unwrap();
    assert_eq!(request.url, "https://example.com/a");
    assert_eq!(request.timeout_secs, 8);
    assert!(request.query.is_empty());
    assert_eq!(fetch_url_request("mailto:someone@example.com"), None);
    assert_eq!(
        tool_fetch_url(&ok("<p>Hello</p>"), 500),
        Ok("Page content (use this as context to summarize or answer; user did not paste this):\n\nHello".to_string())
    );
    assert_eq!(
        tool_fetch_url(&failed("timeout"), 500),
        Err(McpToolError::Network("fetch failed or returned no text".to_string()))
    );
}

#[test]
fn fetch_budget_is_clamped() {
    assert_eq!(clamp_max_chars(None), 12000);
    assert_eq!(clamp_max_chars(Some(0)), 500);
    assert_eq!(clamp_max_chars(Some(499)), 500);
    assert_eq!(clamp_max_chars(Some(500)), 500);
    assert_eq!(clamp_max_chars(Some(7000)), 7000);
    assert_eq!(clamp_max_chars(Some(20000)), 20000);
    assert_eq!(clamp_max_chars(Some(20001)), 20000);
}

#[test]
fn result_limit_is_clamped() {
    assert_eq!(clamp_max_results(None), 5);
    assert_eq!(clamp_max_results(Some(0)), 1);
    assert_eq!(clamp_max_results(Some(1)), 1);
    assert_eq!(clamp_max_results(Some(10)), 10);
    assert_eq!(clamp_max_results(Some(11)), 10);
}

#[test]
fn search_starts_with_the_primary_provider() {
    let (state, request) = asked(web_search_start("  latest rust release ", Some(3), None, 2026));
    assert_eq!(request.url, "https://api.duckduckgo.com/");
    assert_eq!(params(&request), vec![("q", "latest rust release 2026"), ("format", "json")]);
    assert_eq!(request.timeout_secs, 10);
    assert_eq!(request.accept_language, Some("en-US,en;q=0.9".to_string()));
    assert_eq!(state.query, "  latest rust release ");
    assert_eq!(state.query_rewritten, "latest rust release 2026");
    assert_eq!(state.max_results, 3);
    assert!(state.include_excerpts);
    assert_eq!(state.steps.len(), 1);
    assert_eq!(state.trail.len(), 2);
}

#[test]
fn search_with_results_fetches_excerpts_and_counts_results() {
    let (state, _) = asked(web_search_start("rust language", None, None, 2026));
    let (state, request) = asked(state.advance(&ok(ONE_RESULT)));
    assert_eq!(request.url, "https://example.com/rust");
    assert_eq!(request.timeout_secs, 8);
    assert!(request.query.is_empty());
    let (state, request) = asked(state.advance(&ok("<h1>Rust</h1> <p>fast</p>")));
    assert_eq!(request.url, "https://example.com/3");
    let report = finished(state.advance(&failed("timeout")));
    let out = &report.output;
    assert!(out.ok);
    assert_eq!(out.provider, "duckduckgo");
    assert_eq!(out.status, 200);
    assert_eq!(out.query, "rust language");
    assert_eq!(out.query_original, Some("rust language".to_string()));
    assert_eq!(out.query_rewritten, Some("rust language".to_string()));
    assert_eq!(out.recency_days, Some(30));
    assert_eq!(out.results.len(), 3);
    assert_eq!(out.result_count, out.results.len());
    assert_eq!(out.results[0].page_excerpt, Some("Rust fast".to_string()));
    assert_eq!(out.results[1].title, "Second");
    assert_eq!(out.results[1].page_excerpt, None);
    assert_eq!(out.results[2].page_excerpt, None);
    assert_eq!(out.error, None);
    assert_eq!(out.suggest_open_browser_search, None);
    assert_eq!(
        step_names(out),
        vec![
            ("validate", true, "config ok"),
            ("request", true, "HTTP 200"),
            ("parse", true, "result_count 3"),
            ("done", true, "3 result(s)"),
        ]
    );
    assert_eq!(
        trail(&report),
        vec![
            ("INFO", "Step 1: validate config (provider: DuckDuckGo, no API key required)"),
            ("INFO", "Step 2: network check / request start"),
            ("INFO", "Step 3: response status 200"),
            ("INFO", "Step 4: parse results count 3"),
            ("INFO", "Step 4c: page excerpts fetched for 1 result(s)"),
            ("INFO", "Step 5: done"),
        ]
    );
}

#[test]
fn search_fetches_at_most_four_pages() {
    let body = r#"{"RelatedTopics":[
        {"Text":"1","FirstURL":"https://1"},{"Text":"2","FirstURL":"https://2"},
        {"Text":"3","FirstURL":"https://3"},{"Text":"4","FirstURL":"https://4"},
        {"Text":"5","FirstURL":"https://5"},{"Text":"6","FirstURL":"https://6"}]}"#;
    let (state, _) = asked(web_search_start("numbers", Some(10), Some(true), 2026));
    let (mut state, mut request) = asked(state.advance(&ok(body)));
    let mut fetched = vec![request.url.clone()];
    loop {
        match state.advance(&ok("page")) {
            SearchStep::Ask(s, r) => {
                state = s;
                request = r;
                fetched.push(request.url.clone());
            }
            SearchStep::Finish(report) => {
                assert_eq!(fetched, vec!["https://1", "https://2", "https://3", "https://4"]);
                assert_eq!(report.output.result_count, 6);
                assert_eq!(report.output.results.len(), 6);
                assert_eq!(report.output.results.iter().filter(|r| r.page_excerpt.is_some()).count(), 4);
                break;
            }
        }
    }
}

#[test]
fn search_without_excerpts_ends_on_the_answer() {
    let (state, _) = asked(web_search_start("rust language", Some(1), Some(false), 2026));
    let report = finished(state.advance(&ok(ONE_RESULT)));
    assert_eq!(report.output.results.len(), 1);
    assert_eq!(report.output.result_count, 1);
    assert!(report.output.results.iter().all(|r| r.page_excerpt.is_none()));
    assert!(!trail(&report).iter().any(|(_, m)| m.starts_with("Step 4c")));
}

#[test]
fn time_sensitive_query_without_results_suggests_the_browser() {
    let (state, request) = asked(web_search_start("today's weather", None, None, 2026));
    assert_eq!(params(&request)[0], ("q", "today's weather 2026"));
    let report = finished(state.advance(&ok("{}")));
    let out = &report.output;
    assert!(out.ok);
    assert!(out.results.is_empty());
    assert_eq!(out.result_count, 0);
    assert_eq!(out.suggest_open_browser_search, Some(true));
    assert_eq!(out.provider, "duckduckgo");
    assert_eq!(
        step_names(out),
        vec![
            ("validate", true, "config ok"),
            ("request", true, "HTTP 200"),
            ("parse", true, "result_count 0"),
            ("fallback_skipped", false, "time-sensitive query: Wikipedia not used; suggest open_browser_search"),
            ("done", true, "0 result(s)"),
        ]
    );
    assert!(trail(&report).contains(&("INFO", "Step 4b: fallback selection (DDG returned 0 results)")));
}

#[test]
fn officeholder_query_without_results_asks_the_knowledge_graph() {
    let (state, _) = asked(web_search_start("who is the president of France", None, None, 2026));
    let (state, request) = asked(state.advance(&ok("{}")));
    assert_eq!(request.url, "https://www.wikidata.org/w/api.php");
    assert_eq!(request.user_agent, "LocalPrivateLLM/1.0 (Wikidata officeholder)");
    assert_eq!(
        params(&request),
        vec![("action", "wbsearchentities"), ("format", "json"), ("language", "en"), ("type", "item"), ("search", "France"), ("limit", "1")]
    );
    let (state, request) = asked(state.advance(&ok(r#"{"search":[{"id":"Q142","label":"France"}]}"#)));
    assert_eq!(
        params(&request),
        vec![("action", "wbgetentities"), ("format", "json"), ("ids", "Q142"), ("props", "claims"), ("languages", "en")]
    );
    let claims = r#"{"entities":{"Q142":{"claims":{"P35":[{"mainsnak":{"datavalue":{"value":{"id":"Q3052772"}}}}],"P6":[]}}}}"#;
    let (state, request) = asked(state.advance(&ok(claims)));
    assert_eq!(
        params(&request),
        vec![("action", "wbgetentities"), ("format", "json"), ("ids", "Q3052772"), ("props", "labels|sitelinks"), ("languages", "en")]
    );
    let person = r#"{"entities":{"Q3052772":{"labels":{"en":{"value":"Emmanuel Macron"}},"sitelinks":{"enwiki":{"title":"Emmanuel Macron"}}}}}"#;
    let (state, request) = asked(state.advance(&ok(person)));
    assert_eq!(request.url, "https://en.wikipedia.org/wiki/Emmanuel_Macron");
    let report = finished(state.advance(&ok("<p>Emmanuel Macron is the president of France.</p>")));
    let out = &report.output;
    assert!(out.provider == "wikidata_officeholder" || out.provider == "wikipedia_fallback");
    assert_eq!(out.provider, "wikidata_officeholder");
    assert_eq!(out.result_count, 1);
    assert_eq!(out.results.len(), 1);
    assert_eq!(out.results[0].title, "Emmanuel Macron");
    assert_eq!(out.results[0].url, "https://en.wikipedia.org/wiki/Emmanuel_Macron");
    assert_eq!(
        out.results[0].snippet,
        "Current president of France is Emmanuel Macron. Source: https://en.wikipedia.org/wiki/Emmanuel_Macron"
    );
    assert_eq!(out.results[0].page_excerpt, Some("Emmanuel Macron is the president of France.".to_string()));
    assert_eq!(out.suggest_open_browser_search, None);
    assert!(step_names(out).contains(&("wikidata_officeholder", true, "1 result(s)")));
}

#[test]
fn officeholder_lookup_that_fails_falls_through_to_the_encyclopedia() {
    let (state, _) = asked(web_search_start("who is the president of France", None, Some(false), 2026));
    let (state, _) = asked(state.advance(&ok("{}")));
    let (state, request) = asked(state.advance(&status(503)));
    assert_eq!(request.url, "https://en.wikipedia.org/w/rest.php/v1/search/page");
    assert_eq!(params(&request), vec![("q", "President of France"), ("limit", "10")]);
    let (state, request) =
        asked(state.advance(&ok(r#"{"pages":[{"id":1},{"title":"President of France"}]}"#)));
    assert_eq!(request.url, "https://en.wikipedia.org/api/rest_v1/page/summary/President_of_France");
    let report = finished(state.advance(&ok(r#"{"extract":"The president of France is the head of state."}"#)));
    let out = &report.output;
    assert_eq!(out.provider, "wikipedia_fallback");
    assert_eq!(out.result_count, 1);
    assert_eq!(out.results[0].title, "President of France");
    assert_eq!(out.results[0].snippet, "The president of France is the head of state.");
    assert_eq!(out.results[0].url, "https://en.wikipedia.org/wiki/President_of_France");
    assert!(step_names(out).contains(&("wikipedia_fallback", true, "1 result(s), office summary")));
}

#[test]
fn office_search_prefers_the_office_page_to_a_list() {
    let (state, _) = asked(web_search_start("who is the president of France", None, Some(false), 2026));
    let (state, _) = asked(state.advance(&ok("{}")));
    let (state, request) = asked(state.advance(&failed("offline")));
    assert_eq!(params(&request), vec![("q", "President of France"), ("limit", "10")]);
    let found = r#"{"pages":[{"title":"List of presidents of France"},{"title":"President of France"}]}"#;
    let (state, request) = asked(state.advance(&ok(found)));
    assert_eq!(request.url, "https://en.wikipedia.org/api/rest_v1/page/summary/President_of_France");
    let report = finished(state.advance(&ok(r#"{"extract":"Head of state of France."}"#)));
    let out = &report.output;
    assert!(out.ok);
    assert_eq!(out.provider, "wikipedia_fallback");
    assert_eq!(out.result_count, 1);
    assert_eq!(out.results.len(), 1);
    assert_eq!(out.results[0].title, "President of France");
    assert_eq!(out.results[0].url, "https://en.wikipedia.org/wiki/President_of_France");
    assert_eq!(out.results[0].snippet, "Head of state of France.");
    assert_eq!(out.suggest_open_browser_search, None);
}

#[test]
fn officeholder_query_with_no_fallback_result_ends_empty() {
    let (state, _) = asked(web_search_start("who is the president of France", None, None, 2026));
    let (state, _) = asked(state.advance(&ok("{}")));
    let (state, request) = asked(state.advance(&ok(r#"{"search":[]}"#)));
    assert_eq!(params(&request)[0], ("q", "President of France"));
    let (state, request) = asked(state.advance(&ok(r#"{"pages":[{"title":"List of presidents of France"}]}"#)));
    assert_eq!(params(&request), vec![("q", "who is the president of France"), ("limit", "10")]);
    let report = finished(state.advance(&failed("offline")));
    let out = &report.output;
    assert!(out.ok);
    assert_eq!(out.provider, "duckduckgo");
    assert_eq!(out.result_count, 0);
    assert!(out.results.is_empty());
    assert_eq!(out.suggest_open_browser_search, None);
    assert_eq!(
        step_names(out),
        vec![
            ("validate", true, "config ok"),
            ("request", true, "HTTP 200"),
            ("parse", true, "result_count 0"),
            ("wikidata_officeholder", false, "no results"),
            ("done", true, "0 result(s)"),
        ]
    );
}

#[test]
fn plain_query_without_results_asks_the_encyclopedia() {
    let (state, _) = asked(web_search_start(" Ferris the crab ", None, Some(false), 2026));
    let (state, request) = asked(state.advance(&ok("{}")));
    assert_eq!(request.url, "https://en.wikipedia.org/w/rest.php/v1/search/page");
    assert_eq!(request.user_agent, "LocalPrivateLLM/1.0 (Wikipedia fallback)");
    assert_eq!(params(&request), vec![("q", "Ferris the crab"), ("limit", "10")]);
    let (state, request) = asked(state.advance(&ok(r#"{"pages":[{"title":"List of crabs"},{"title":"Crab"}]}"#)));
    assert_eq!(request.url, "https://en.wikipedia.org/api/rest_v1/page/summary/List_of_crabs");
    let report = finished(state.advance(&ok("{}")));
    assert_eq!(report.output.provider, "wikipedia_fallback");
    assert_eq!(report.output.results[0].snippet, "");
    assert_eq!(report.output.result_count, 1);
    assert!(step_names(&report.output).contains(&("wikipedia_fallback", true, "1 result(s)")));
}

#[test]
fn plain_query_without_any_result_says_so() {
    let (state, _) = asked(web_search_start("zxqv", None, None, 2026));
    let (state, _) = asked(state.advance(&ok("{}")));
    let report = finished(state.advance(&ok(r#"{"pages":[]}"#)));
    assert_eq!(report.output.result_count, 0);
    assert!(report.output.results.is_empty());
    assert!(step_names(&report.output).contains(&("wikipedia_fallback", false, "no results")));
}

#[test]
fn failed_request_is_reported_inside_the_output() {
    let (state, _) = asked(web_search_start("rust", None, None, 2026));
    let report = finished(state.advance(&failed("dns error")));
    let out = &report.output;
    assert!(!out.ok);
    assert_eq!(out.status, 0);
    assert_eq!(out.error, Some("web_search request failed: dns error".to_string()));
    assert_eq!(out.result_count, 0);
    assert!(out.results.is_empty());
    assert_eq!(
        step_names(out),
        vec![("validate", true, "config ok"), ("request", false, "dns error"), ("done", false, "request failed")]
    );
    assert_eq!(trail(&report)[2], ("ERROR", "Step 2 failed: dns error"));
    assert_eq!(trail(&report)[3], ("INFO", "Step 5: done (with error)"));
    let envelope = report.into_tool_result(Ok("{\"ok\":false}".to_string())).unwrap();
    assert!(!envelope.ok);
    assert_eq!(envelope.content, "{\"ok\":false}");
    assert_eq!(envelope.error, Some("web_search request failed: dns error".to_string()));
    assert_eq!(envelope.diagnostic_steps.map(|s| s.len()), Some(4));
}

#[test]
fn error_status_is_reported_inside_the_output() {
    let (state, _) = asked(web_search_start("rust", None, None, 2026));
    let report = finished(state.advance(&status(503)));
    let out = &report.output;
    assert!(!out.ok);
    assert_eq!(out.status, 503);
    assert_eq!(out.error, Some("HTTP 503".to_string()));
    assert_eq!(out.result_count, out.results.len());
    assert_eq!(
        step_names(out),
        vec![
            ("validate", true, "config ok"),
            ("request", true, "HTTP 503"),
            ("parse", false, "HTTP error"),
            ("done", false, "status not success"),
        ]
    );
    let envelope = report.into_tool_result(Err("no".to_string())).unwrap();
    assert_eq!(envelope.content, "{}");
    assert!(!envelope.ok);
}

#[test]
fn unreadable_answer_is_reported_inside_the_output() {
    let (state, _) = asked(web_search_start("rust", None, None, 2026));
    let report = finished(state.advance(&ok("<html>not json</html>")));
    let out = &report.output;
    assert!(!out.ok);
    assert_eq!(out.status, 200);
    assert_eq!(out.error, Some("error decoding response body".to_string()));
    assert_eq!(out.result_count, 0);
    assert_eq!(step_names(out)[2], ("parse", false, "error decoding response body"));
    assert_eq!(step_names(out)[3], ("done", false, "parse failed"));
}

#[test]
fn finished_search_is_wrapped_into_its_envelope() {
    let (state, _) = asked(web_search_start("rust language", None, Some(false), 2026));
    let report = finished(state.advance(&ok(ONE_RESULT)));
    let envelope = report.into_tool_result(Ok("{\"ok\":true}".to_string())).unwrap();
    assert!(envelope.ok);
    assert_eq!(envelope.error, None);
    assert_eq!(envelope.content, "{\"ok\":true}");
    assert!(envelope.diagnostic_steps.is_some());
    let (state, _) = asked(web_search_start("rust language", None, Some(false), 2026));
    let report = finished(state.advance(&ok(ONE_RESULT)));
    assert_eq!(
        report.into_tool_result(Err("key must be a string".to_string())),
        Err(McpToolError::InvalidArg("serialize: key must be a string".to_string()))
    );
}

#[test]
fn knowledge_graph_lookup_starts_with_the_country() {
    match wikidata_officeholder_fallback("Who is the Prime Minister of the UK?") {
        LookupStep::Ask(lookup, request) => {
            assert_eq!(lookup.country, "United Kingdom");
            assert_eq!(lookup.property, "P6");
            assert_eq!(lookup.office_label, "prime minister");
            assert_eq!(params(&request)[4], ("search", "United Kingdom"));
            match lookup.advance(&ok(r#"{"search":[{"id":"Q145"}]}"#)) {
                LookupStep::Ask(lookup, _) => {
                    let claims = r#"{"entities":{"Q145":{"claims":{"P6":[{"mainsnak":{"datavalue":{"value":{"id":"Q1"}}}}]}}}}"#;
                    match lookup.advance(&ok(claims)) {
                        LookupStep::Ask(lookup, _) => match lookup.advance(&ok(r#"{"entities":{"Q1":{}}}"#)) {
                            LookupStep::Done(items) => {
                                assert_eq!(items.len(), 1);
                                assert_eq!(items[0].title, "Unknown");
                                assert_eq!(items[0].url, "https://www.wikidata.org/wiki/Q1");
                                assert_eq!(
                                    items[0].snippet,
                                    "Current prime minister of United Kingdom is Unknown. Source: https://www.wikidata.org/wiki/Q1"
                                );
                            }
                            other => panic!("{:?}", other),
                        },
                        other => panic!("{:?}", other),
                    }
                }
                other => panic!("{:?}", other),
            }
        }
        other => panic!("{:?}", other),
    }
    assert_eq!(wikidata_officeholder_fallback("weather in paris"), LookupStep::Done(vec![]));
}

fn office_lookup() -> WikipediaLookup {
    match wikipedia_fallback_impl("who is the president of France", true) {
        PageStep::Ask(lookup, _) => lookup,
        other => panic!("{:?}", other),
    }
}

#[test]
fn encyclopedia_lookup_passes_over_lists_for_an_office() {
    assert_eq!(wikipedia_fallback_impl("   ", false), PageStep::Done(vec![]));
    match wikipedia_fallback_impl("current leader of canada", true) {
        PageStep::Ask(lookup, request) => {
            assert_eq!(params(&request), vec![("q", "leader of Canada"), ("limit", "10")]);
            assert_eq!(request.timeout_secs, 8);
            let reply = ok(r#"{"pages":[{"title":"LIST OF leaders"},{"title":"Leader"}]}"#);
            match lookup.advance(&reply) {
                PageStep::Ask(next, request) => {
                    assert_eq!(next.page_title, "Leader");
                    assert_eq!(request.url, "https://en.wikipedia.org/api/rest_v1/page/summary/Leader");
                }
                other => panic!("{:?}", other),
            }
        }
        other => panic!("{:?}", other),
    }
    let found = r#"{"pages":[{"title":"List of presidents of France"},{"title":"President of France"}]}"#;
    match office_lookup().advance(&ok(found)) {
        PageStep::Ask(next, request) => {
            assert_eq!(next.page_title, "President of France");
            assert_eq!(
                request.url,
                "https://en.wikipedia.org/api/rest_v1/page/summary/President_of_France"
            );
            match next.advance(&ok(r#"{"extract":"The president of France is the head of state."}"#)) {
                PageStep::Done(items) => {
                    assert_eq!(items.len(), 1);
                    assert_eq!(items[0].title, "President of France");
                    assert_eq!(items[0].url, "https://en.wikipedia.org/wiki/President_of_France");
                    assert_eq!(items[0].snippet, "The president of France is the head of state.");
                    assert_eq!(items[0].page_excerpt, None);
                }
                other => panic!("{:?}", other),
            }
        }
        other => panic!("{:?}", other),
    }
    let untitled = r#"{"pages":[{"id":1},{"title":7},{"title":"list of a"},{"title":"Listing"},{"title":"B"}]}"#;
    match office_lookup().advance(&ok(untitled)) {
        PageStep::Ask(next, _) => assert_eq!(next.page_title, "Listing"),
        other => panic!("{:?}", other),
    }
    let only_lists = r#"{"pages":[{"title":"List of a"},{"id":2},{"title":"LIST OF b"}]}"#;
    assert_eq!(office_lookup().advance(&ok(only_lists)), PageStep::Done(vec![]));
    assert_eq!(office_lookup().advance(&ok(r#"{"pages":[]}"#)), PageStep::Done(vec![]));
    match wikipedia_fallback_impl("presidents", false) {
        PageStep::Ask(lookup, _) => match lookup.advance(&ok(found)) {
            PageStep::Ask(next, _) => assert_eq!(next.page_title, "List of presidents of France"),
            other => panic!("{:?}", other),
        },
        other => panic!("{:?}", other),
    }
    match wikipedia_fallback_impl("current leader of canada", false) {
        PageStep::Ask(_, request) => {
            assert_eq!(params(&request), vec![("q", "current leader of canada"), ("limit", "10")]);
        }
        other => panic!("{:?}", other),
    }
    assert!(is_list_title_text("list of things"));
    assert!(!is_list_title_text("a list of things"));
}
