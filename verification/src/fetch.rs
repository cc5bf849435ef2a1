//! Pages as plain text: stripping markup, and cutting a page to a budget.

use crate::error::{ErrorView, McpToolError};
use crate::http::{is_success, status_is_success, HttpReply, HttpRequest, RequestView};
use crate::text::{
    begins_with, chars_of, is_space, is_space_char, owned, slice_chars, starts_with_str,
    string_of, trim_chars, trim_of,
};
use vstd::prelude::*;

verus! {

/// The longest excerpt of a result's page, in characters.
pub const PAGE_EXCERPT_MAX_CHARS: usize = 2200;

/// How long a page may take to arrive, in seconds.
pub const PAGE_EXCERPT_FETCH_TIMEOUT_SECS: u64 = 8;

/// How many results of a search get an excerpt.
pub const PAGE_EXCERPT_MAX_RESULTS: usize = 4;

/// The longest text of a page that was opened in the browser, in characters.
pub const OPEN_BROWSER_FETCH_MAX_CHARS: usize = 12000;

/// The largest body that is read, in bytes.
pub const MAX_BODY_BYTES: usize = 524288;

/// The browser that requests for pages name as their user agent.
pub open spec fn browser_agent() -> Seq<char> {
    "Mozilla/5.0 (Windows NT 10.0; rv:91.0) Gecko/20100101 Firefox/91.0"@
}

/// Whether, after the characters `html`, the text stands inside a tag: a
/// `<` was read and no `>` since.
pub open spec fn inside_tag(html: Seq<char>) -> bool
    decreases html.len(),
{
    if html.len() == 0 {
        false
    } else if inside_tag(html.drop_last()) {
        html.last() != '>'
    } else {
        html.last() == '<'
    }
}

/// The text `html` with each tag replaced by one space, every character
/// outside a tag kept as it is. A tag runs from a `<` to the next `>`, or to
/// the end where none follows.
pub open spec fn detagged(html: Seq<char>) -> Seq<char>
    decreases html.len(),
{
    if html.len() == 0 {
        Seq::<char>::empty()
    } else if inside_tag(html.drop_last()) {
        detagged(html.drop_last())
    } else if html.last() == '<' {
        detagged(html.drop_last()).push(' ')
    } else {
        detagged(html.drop_last()).push(html.last())
    }
}

/// The words of `s`, one space between neighbours: white space at the ends
/// is dropped, and every run of white space between two words becomes one
/// space.
pub open spec fn squeezed(s: Seq<char>) -> Seq<char>
    decreases s.len(),
{
    if s.len() == 0 {
        s
    } else if is_space(s.last()) {
        squeezed(s.drop_last())
    } else if s.len() >= 2 && is_space(s[s.len() - 2]) && squeezed(s.drop_last()).len() > 0 {
        squeezed(s.drop_last()).push(' ').push(s.last())
    } else {
        squeezed(s.drop_last()).push(s.last())
    }
}

/// The plain text of a page: its markup replaced by spaces, its white space
/// squeezed.
pub open spec fn plain_text(html: Seq<char>) -> Seq<char> {
    squeezed(detagged(html))
}

/// Squeezed text neither starts nor ends with white space, and holds no two
/// white-space characters in a row.
pub proof fn lemma_squeezed_shape(s: Seq<char>)
    ensures
        squeezed(s).len() > 0 ==> !is_space(squeezed(s)[0]) && !is_space(squeezed(s).last()),
        forall|i: int|
            0 <= i < squeezed(s).len() - 1 ==> !(is_space(#[trigger] squeezed(s)[i]) && is_space(
                squeezed(s)[i + 1],
            )),
        squeezed(s).len() <= s.len(),
    decreases s.len(),
{
    if s.len() > 0 {
        let t = s.drop_last();
        lemma_squeezed_shape(t);
        let q = squeezed(t);
        let r = squeezed(s);
        if is_space(s.last()) {
        } else if s.len() >= 2 && is_space(s[s.len() - 2]) && q.len() > 0 {
            assert(r == q.push(' ').push(s.last()));
            assert forall|i: int| 0 <= i < r.len() - 1 implies !(is_space(#[trigger] r[i])
                && is_space(r[i + 1])) by {
                if i < q.len() - 1 {
                    assert(r[i] == q[i] && r[i + 1] == q[i + 1]);
                } else if i == q.len() - 1 {
                    assert(r[i] == q.last());
                } else {
                    assert(r[i + 1] == s.last());
                }
            }
            assert(t.len() >= 1);
            lemma_squeezed_drops_trailing_space(t);
        } else {
            assert(r == q.push(s.last()));
            assert forall|i: int| 0 <= i < r.len() - 1 implies !(is_space(#[trigger] r[i])
                && is_space(r[i + 1])) by {
                if i < q.len() - 1 {
                    assert(r[i] == q[i] && r[i + 1] == q[i + 1]);
                } else {
                    assert(r[i + 1] == s.last());
                }
            }
        }
    }
}

/// A text that ends in white space squeezes to strictly fewer characters.
pub proof fn lemma_squeezed_drops_trailing_space(s: Seq<char>)
    requires
        s.len() > 0,
        is_space(s.last()),
    ensures
        squeezed(s).len() < s.len(),
    decreases s.len(),
{
    lemma_squeezed_shape(s.drop_last());
}

/// Text without its markup never holds the sign that starts a tag.
pub proof fn lemma_detagged_has_no_tag(html: Seq<char>)
    ensures
        forall|i: int| 0 <= i < detagged(html).len() ==> #[trigger] detagged(html)[i] != '<',
    decreases html.len(),
{
    if html.len() > 0 {
        let before = detagged(html.drop_last());
        lemma_detagged_has_no_tag(html.drop_last());
        assert forall|i: int| 0 <= i < detagged(html).len() implies #[trigger] detagged(html)[i]
            != '<' by {
            if i < before.len() {
                assert(detagged(html)[i] == before[i]);
            }
        }
    }
}

/// A text that holds no `<` has no tag: stripping its markup keeps every
/// character of it.
pub proof fn lemma_text_without_tags_is_kept(html: Seq<char>)
    requires
        forall|i: int| 0 <= i < html.len() ==> html[i] != '<',
    ensures
        !inside_tag(html),
        detagged(html) == html,
    decreases html.len(),
{
    if html.len() > 0 {
        lemma_text_without_tags_is_kept(html.drop_last());
        assert(html.drop_last().push(html.last()) == html);
    }
}

/// Squeezing brings in no character but the space.
pub proof fn lemma_squeezed_chars(s: Seq<char>)
    ensures
        forall|i: int|
            0 <= i < squeezed(s).len() ==> #[trigger] squeezed(s)[i] == ' ' || s.contains(
                squeezed(s)[i],
            ),
    decreases s.len(),
{
    if s.len() > 0 {
        let t = s.drop_last();
        lemma_squeezed_chars(t);
        let q = squeezed(t);
        let r = squeezed(s);
        assert forall|i: int| 0 <= i < r.len() implies #[trigger] r[i] == ' ' || s.contains(
            r[i],
        ) by {
            if i < q.len() && r[i] == q[i] {
                if q[i] != ' ' {
                    let m = choose|m: int| 0 <= m < t.len() && t[m] == q[i];
                    assert(s[m] == q[i]);
                }
            } else if r[i] != ' ' {
                assert(r[i] == s.last());
                assert(s[s.len() - 1] == r[i]);
            }
        }
    }
}

/// The plain text of a page holds no `<`: nothing of a tag is left in it.
pub proof fn lemma_plain_text_has_no_tag(html: Seq<char>)
    ensures
        forall|i: int| 0 <= i < plain_text(html).len() ==> #[trigger] plain_text(html)[i] != '<',
{
    lemma_detagged_has_no_tag(html);
    lemma_squeezed_chars(detagged(html));
    let d = detagged(html);
    assert forall|i: int| 0 <= i < plain_text(html).len() implies #[trigger] plain_text(html)[i]
        != '<' by {
        let c = squeezed(d)[i];
        if c != ' ' {
            let m = choose|m: int| 0 <= m < d.len() && d[m] == c;
            assert(d[m] != '<');
        }
    }
}

/// Computes `detagged`.
fn remove_tags(html: &Vec<char>) -> (out: Vec<char>)
    ensures
        out@ == detagged(html@),
{
    let mut out: Vec<char> = Vec::new();
    let mut in_tag = false;
    let mut i: usize = 0;
    assert(html@.take(0) == Seq::<char>::empty());
    while i < html.len()
        invariant
            i <= html.len(),
            in_tag == inside_tag(html@.take(i as int)),
            out@ == detagged(html@.take(i as int)),
        decreases html.len() - i,
    {
        let ghost head = html@.take(i + 1);
        assert(head.drop_last() == html@.take(i as int));
        assert(head.last() == html@[i as int]);
        let c = html[i];
        if in_tag {
            in_tag = c != '>';
        } else if c == '<' {
            in_tag = true;
            out.push(' ');
        } else {
            out.push(c);
        }
        i += 1;
    }
    assert(html@.take(html.len() as int) == html@);
    out
}

/// Computes `squeezed`.
fn squeeze(s: &Vec<char>) -> (out: Vec<char>)
    ensures
        out@ == squeezed(s@),
{
    let mut out: Vec<char> = Vec::new();
    let mut i: usize = 0;
    assert(s@.take(0) == Seq::<char>::empty());
    while i < s.len()
        invariant
            i <= s.len(),
            out@ == squeezed(s@.take(i as int)),
        decreases s.len() - i,
    {
        let ghost head = s@.take(i + 1);
        assert(head.drop_last() == s@.take(i as int));
        assert(head.last() == s@[i as int]);
        assert(i >= 1 ==> head[head.len() - 2] == s@[i - 1]);
        let c = s[i];
        if !is_space_char(c) {
            if i >= 1 && is_space_char(s[i - 1]) && out.len() > 0 {
                out.push(' ');
            }
            out.push(c);
        }
        i += 1;
    }
    assert(s@.take(s.len() as int) == s@);
    out
}

/// Strips markup from a page and squeezes its white space: each tag counts
/// as one space, and every character outside a tag stays as it is.
pub fn strip_html_to_text(html: &str) -> (out: String)
    ensures
        out@ == plain_text(html@),
{
    let page = chars_of(html);
    let visible = remove_tags(&page);
    let text = squeeze(&visible);
    string_of(&text)
}

/// Whether an address can be fetched: it starts with `http://` or
/// `https://`.
pub open spec fn fetchable(url: Seq<char>) -> bool {
    begins_with(url, "http://"@) || begins_with(url, "https://"@)
}

/// Decides `fetchable`.
pub fn is_fetchable_url(url: &str) -> (r: bool)
    ensures
        r == fetchable(url@),
{
    let u = chars_of(url);
    starts_with_str(&u, "http://") || starts_with_str(&u, "https://")
}

/// A text cut to a budget: a text of more than `max` characters is cut to
/// its first `max`, trimmed, and ends in an ellipsis.
pub open spec fn cut_to(text: Seq<char>, max: int) -> Seq<char> {
    if text.len() > max {
        trim_of(text.take(max)).push('\u{2026}')
    } else {
        text
    }
}

/// The text that a reply gives for a page: `None` for a failure, a status
/// other than success, a body of more than 512 KiB, or a page without text;
/// else the page's plain text, cut to `max_chars`.
pub open spec fn page_text(reply: HttpReply, max_chars: int) -> Option<Seq<char>> {
    match reply {
        HttpReply::Failed(_) => None,
        HttpReply::Response { status, length, body } => if !is_success(status) || length
            > 524288 || plain_text(body@).len() == 0 {
            None
        } else {
            Some(cut_to(plain_text(body@), max_chars))
        },
    }
}

/// The request that fetches the page at `url`.
pub open spec fn fetch_request(url: Seq<char>, accept_language: Option<Seq<char>>) -> RequestView {
    RequestView {
        url,
        query: Seq::<(Seq<char>, Seq<char>)>::empty(),
        timeout_secs: 8,
        user_agent: browser_agent(),
        accept_language,
    }
}

/// Builds the request that fetches the page at `url`.
pub fn page_request(url: &str, accept_language: Option<String>) -> (r: HttpRequest)
    ensures
        r@ == fetch_request(
            url@,
            match accept_language {
                Some(l) => Some(l@),
                None => None,
            },
        ),
{
    let query: Vec<(String, String)> = Vec::new();
    assert(crate::http::pairs_view(query@) =~= Seq::<(Seq<char>, Seq<char>)>::empty());
    HttpRequest {
        url: owned(url),
        query,
        timeout_secs: PAGE_EXCERPT_FETCH_TIMEOUT_SECS,
        user_agent: owned("Mozilla/5.0 (Windows NT 10.0; rv:91.0) Gecko/20100101 Firefox/91.0"),
        accept_language,
    }
}

/// Reads the text of a page from the reply to its request, cut to
/// `max_chars` characters.
pub fn fetch_url_content_impl(reply: &HttpReply, max_chars: usize) -> (r: Option<String>)
    ensures
        match r {
            Some(t) => page_text(*reply, max_chars as int) == Some(t@),
            None => page_text(*reply, max_chars as int) is None,
        },
{
    match reply {
        HttpReply::Failed(_) => None,
        HttpReply::Response { status, length, body } => {
            if !status_is_success(*status) || *length > MAX_BODY_BYTES {
                return None;
            }
            let page = chars_of(body.as_str());
            let visible = remove_tags(&page);
            let text = squeeze(&visible);
            if text.len() == 0 {
                return None;
            }
            if text.len() > max_chars {
                let head = slice_chars(&text, 0, max_chars);
                assert(text@.subrange(0, max_chars as int) == text@.take(max_chars as int));
                let mut cut = trim_chars(&head);
                cut.push('\u{2026}');
                Some(string_of(&cut))
            } else {
                Some(string_of(&text))
            }
        },
    }
}

/// The excerpt of a result's page, from the reply to its request.
pub fn fetch_page_excerpt(reply: &HttpReply) -> (r: Option<String>)
    ensures
        match r {
            Some(t) => page_text(*reply, 2200) == Some(t@),
            None => page_text(*reply, 2200) is None,
        },
{
    fetch_url_content_impl(reply, PAGE_EXCERPT_MAX_CHARS)
}

/// The text of a page for the tool that fetches an address, or the failure
/// that no text came.
pub fn fetch_url_content(reply: &HttpReply, max_chars: usize) -> (r: Result<String, McpToolError>)
    ensures
        match r {
            Ok(t) => page_text(*reply, max_chars as int) == Some(t@),
            Err(e) => page_text(*reply, max_chars as int) is None && e@ == ErrorView::Network(
                "fetch failed or returned no text"@,
            ),
        },
{
    match fetch_url_content_impl(reply, max_chars) {
        Some(t) => Ok(t),
        None => Err(McpToolError::Network(owned("fetch failed or returned no text"))),
    }
}

/// The request that the tool that fetches an address makes: none for an
/// address that cannot be fetched.
pub fn fetch_url_request(url: &str) -> (r: Option<HttpRequest>)
    ensures
        match r {
            Some(request) => fetchable(url@) && request@ == fetch_request(url@, None),
            None => !fetchable(url@),
        },
{
    if is_fetchable_url(url) {
        Some(page_request(url, None))
    } else {
        None
    }
}

/// What the tool that fetches an address returns: the text of the page
/// after a note on where it comes from, or the failure that no text came.
pub open spec fn fetched_page(reply: HttpReply, max_chars: int) -> Result<Seq<char>, ErrorView> {
    match page_text(reply, max_chars) {
        Some(text) => Ok(
            "Page content (use this as context to summarize or answer; user did not paste this):\n\n"@
                + text,
        ),
        None => Err(ErrorView::Network("fetch failed or returned no text"@)),
    }
}

/// Reads the page that was fetched for the tool that fetches an address.
pub fn tool_fetch_url(reply: &HttpReply, max_chars: usize) -> (r: Result<String, McpToolError>)
    ensures
        match r {
            Ok(text) => fetched_page(*reply, max_chars as int) == Ok::<_, ErrorView>(text@),
            Err(e) => fetched_page(*reply, max_chars as int) == Err::<Seq<char>, _>(e@),
        },
{
    match fetch_url_content(reply, max_chars) {
        Ok(text) => Ok(
            crate::text::concat_str(
                "Page content (use this as context to summarize or answer; user did not paste this):\n\n",
                text.as_str(),
            ),
        ),
        Err(e) => Err(e),
    }
}

/// The budget of the tool that fetches an address: 12000 characters where
/// none is asked for, and never fewer than 500 nor more than 20000.
pub open spec fn fetch_budget(asked: Option<u32>) -> int {
    match asked {
        None => 12000,
        Some(n) => if n < 500 {
            500
        } else if n > 20000 {
            20000
        } else {
            n as int
        },
    }
}

/// Computes `fetch_budget`.
pub fn clamp_max_chars(asked: Option<u32>) -> (r: usize)
    ensures
        r == fetch_budget(asked),
{
    match asked {
        None => 12000,
        Some(n) => if n < 500 {
            500
        } else if n > 20000 {
            20000
        } else {
            n as usize
        },
    }
}

} // verus!
