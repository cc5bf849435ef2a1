use local_private_llm::browser::{
    browser_open_failed, duckduckgo_first_result_url, open_url_in_browser,
    tool_open_browser_search, BrowserFollow, BrowserPlan, BrowserStep,
};
use local_private_llm::command::Platform;
use local_private_llm::error::McpToolError;
use local_private_llm::http::HttpReply;
use local_private_llm::json::Json;
use local_private_llm::terminal::Launch;

const PAGE_NOTE: &str =
    "\n\nPage content (use this as context to summarize or answer; user did not paste this):\n\n";

fn strings(items: &[&str]) -> Vec<String> {
    items.iter().map(|s| s.to_string()).collect()
}

fn ok(body: &str) -> HttpReply {
    HttpReply::Response { status: 200, length: body.len(), body: body.to_string() }
}

fn plan(url: Option<&str>, query: Option<&str>, engine: Option<&str>) -> BrowserPlan {
    tool_open_browser_search(url, query, engine, Platform::Other).unwrap()
}

#[test]
fn browser_is_started_by_the_platform_opener() {
    assert_eq!(
        open_url_in_browser(" https://example.com ", Platform::Windows),
        Ok((
            "https://example.com".to_string(),
            Launch { program: "cmd".to_string(), args: strings(&["/C", "start", "", "https://example.com"]) }
        ))
    );
    assert_eq!(
        open_url_in_browser("https://example.com", Platform::MacOs),
        Ok(("https://example.com".to_string(), Launch { program: "open".to_string(), args: strings(&["https://example.com"]) }))
    );
    assert_eq!(
        open_url_in_browser("https://example.com", Platform::Other),
        Ok(("https://example.com".to_string(), Launch { program: "xdg-open".to_string(), args: strings(&["https://example.com"]) }))
    );
    assert_eq!(
        open_url_in_browser("   ", Platform::Other),
        Err(McpToolError::InvalidArg("url cannot be empty".to_string()))
    );
    assert_eq!(
        browser_open_failed("no display"),
        McpToolError::CommandFailed("failed to open browser: no display".to_string())
    );
}

#[test]
fn browser_search_with_an_address_opens_and_reads_it() {
    let p = plan(Some("  https://example.com/a  "), Some("ignored"), Some("bing"));
    assert_eq!(p.launch.args, strings(&["https://example.com/a"]));
    assert_eq!(p.message, "Opened browser: https://example.com/a");
    assert_eq!(p.follow, BrowserFollow::Fetch("https://example.com/a".to_string()));
    match p.opened(Ok(())) {
        BrowserStep::Ask(search, request) => {
            assert_eq!(request.url, "https://example.com/a");
            assert_eq!(request.timeout_secs, 8);
            assert_eq!(request.accept_language, None);
            assert_eq!(
                search.advance(&ok("<p>Hello</p>")),
                BrowserStep::Done(Ok(format!("Opened browser: https://example.com/a{}Hello", PAGE_NOTE)))
            );
        }
        other => panic!("{:?}", other),
    }
}

#[test]
fn browser_search_keeps_the_confirmation_when_the_page_gives_nothing() {
    match plan(Some("https://example.com"), None, None).opened(Ok(())) {
        BrowserStep::Ask(search, _) => {
            assert_eq!(
                search.advance(&HttpReply::Failed("timeout".to_string())),
                BrowserStep::Done(Ok("Opened browser: https://example.com".to_string()))
            );
        }
        other => panic!("{:?}", other),
    }
    assert_eq!(
        plan(Some("file:///etc/hosts"), None, None).opened(Ok(())),
        BrowserStep::Done(Ok("Opened browser: file:///etc/hosts".to_string()))
    );
}

#[test]
fn browser_search_requires_an_address_or_a_query() {
    let refuse = |url, query| tool_open_browser_search(url, query, None, Platform::Other);
    assert_eq!(
        refuse(Some("  "), Some("rust")),
        Err(McpToolError::InvalidArg("open_browser_search requires non-empty url or query".to_string()))
    );
    assert_eq!(
        refuse(None, None),
        Err(McpToolError::InvalidArg("open_browser_search requires url or query".to_string()))
    );
    assert_eq!(
        refuse(None, Some("  ")),
        Err(McpToolError::InvalidArg("open_browser_search requires url or query".to_string()))
    );
}

#[test]
fn browser_search_encodes_the_query_for_the_engine() {
    let p = plan(None, Some("  rust & c++ é~ "), None);
    assert_eq!(p.message, "Opened browser: https://duckduckgo.com/?q=rust%20%26%20c%2B%2B%20%C3%A9~");
    assert_eq!(p.launch.args, strings(&["https://duckduckgo.com/?q=rust%20%26%20c%2B%2B%20%C3%A9~"]));
    assert_eq!(p.follow, BrowserFollow::FirstResult("rust & c++ é~".to_string()));
    let p = plan(None, Some("a b"), Some("Bing"));
    assert_eq!(p.message, "Opened browser: https://www.bing.com/search?q=a%20b");
    assert_eq!(p.follow, BrowserFollow::Nothing);
    let p = plan(None, Some("a-b_c.d"), Some("GOOGLE"));
    assert_eq!(p.message, "Opened browser: https://www.google.com/search?q=a-b_c.d");
    assert_eq!(p.follow, BrowserFollow::Nothing);
    let p = plan(None, Some("x"), Some("yahoo"));
    assert_eq!(p.message, "Opened browser: https://duckduckgo.com/?q=x");
    assert_eq!(p.follow, BrowserFollow::Nothing);
    let p = plan(None, Some("x"), Some("DuckDuckGo"));
    assert_eq!(p.follow, BrowserFollow::FirstResult("x".to_string()));
}

#[test]
fn browser_search_that_cannot_open_fails() {
    assert_eq!(
        plan(None, Some("rust"), None).opened(Err("no browser".to_string())),
        BrowserStep::Done(Err(McpToolError::CommandFailed("failed to open browser: no browser".to_string())))
    );
}

#[test]
fn browser_search_reads_the_first_result_of_the_default_engine() {
    match plan(None, Some("rust"), None).opened(Ok(())) {
        BrowserStep::Ask(search, request) => {
            assert_eq!(request.url, "https://api.duckduckgo.com/");
            assert_eq!(request.query, vec![("q".to_string(), "rust".to_string()), ("format".to_string(), "json".to_string())]);
            assert_eq!(request.timeout_secs, 12);
            let answer = r#"{"Abstract":"Rust","AbstractURL":"https://www.rust-lang.org","RelatedTopics":[{"Text":"x","FirstURL":"https://x"}]}"#;
            match search.advance(&ok(answer)) {
                BrowserStep::Ask(search, request) => {
                    assert_eq!(request.url, "https://www.rust-lang.org");
                    let long = "y".repeat(13000);
                    match search.advance(&ok(&long)) {
                        BrowserStep::Done(Ok(text)) => {
                            let prefix = format!("Opened browser: https://duckduckgo.com/?q=rust{}", PAGE_NOTE);
                            assert!(text.starts_with(&prefix));
                            assert_eq!(text.chars().count(), prefix.chars().count() + 12001);
                            assert!(text.ends_with('…'));
                        }
                        other => panic!("{:?}", other),
                    }
                }
                other => panic!("{:?}", other),
            }
        }
        other => panic!("{:?}", other),
    }
}

#[test]
fn browser_search_without_a_first_result_ends_with_the_confirmation() {
    for reply in [ok("{}"), ok("nonsense"), HttpReply::Failed("x".to_string()), HttpReply::Response { status: 500, length: 2, body: "{}".to_string() }] {
        match plan(None, Some("rust"), None).opened(Ok(())) {
            BrowserStep::Ask(search, _) => {
                assert_eq!(
                    search.advance(&reply),
                    BrowserStep::Done(Ok("Opened browser: https://duckduckgo.com/?q=rust".to_string()))
                );
            }
            other => panic!("{:?}", other),
        }
    }
}

#[test]
fn first_result_is_the_first_item_of_the_answer() {
    let json = Json::parse(r#"{"RelatedTopics":[{"Topics":[{"Text":"a","FirstURL":"https://first"}]},{"Text":"b","FirstURL":"https://second"}]}"#);
    assert_eq!(duckduckgo_first_result_url(json), Some("https://first".to_string()));
    assert_eq!(duckduckgo_first_result_url(Json::parse("{}")), None);
    assert_eq!(duckduckgo_first_result_url(None), None);
}
