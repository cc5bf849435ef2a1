//! Requests that the tools ask the program around them to make, and the
//! replies it hands back.
//!
//! Nothing here touches the network. A tool that needs a page or an answer
//! from a provider returns an `HttpRequest`; the caller performs it, once and
//! with the timeout given, and reports what came back as an `HttpReply`.

use crate::json::{opt_json_view, parsed_json, Json, JsonView};
use crate::text::owned;
use vstd::prelude::*;

verus! {

/// A GET request.
#[derive(Debug, PartialEq, Eq)]
pub struct HttpRequest {
    /// The address, without the query.
    pub url: String,
    /// The parameters of the query, in order, not yet encoded.
    pub query: Vec<(String, String)>,
    /// How long to wait for the response, in seconds.
    pub timeout_secs: u64,
    /// The `User-Agent` header.
    pub user_agent: String,
    /// The `Accept-Language` header, where one is sent.
    pub accept_language: Option<String>,
}

/// A request as plain values.
pub struct RequestView {
    pub url: Seq<char>,
    pub query: Seq<(Seq<char>, Seq<char>)>,
    pub timeout_secs: u64,
    pub user_agent: Seq<char>,
    pub accept_language: Option<Seq<char>>,
}

/// The views of a list of pairs of strings.
pub open spec fn pairs_view(pairs: Seq<(String, String)>) -> Seq<(Seq<char>, Seq<char>)> {
    pairs.map_values(|p: (String, String)| (p.0@, p.1@))
}

impl View for HttpRequest {
    type V = RequestView;

    open spec fn view(&self) -> RequestView {
        RequestView {
            url: self.url@,
            query: pairs_view(self.query@),
            timeout_secs: self.timeout_secs,
            user_agent: self.user_agent@,
            accept_language: match self.accept_language {
                Some(l) => Some(l@),
                None => None,
            },
        }
    }
}

/// What came back for a request.
#[derive(Debug, PartialEq, Eq)]
pub enum HttpReply {
    /// No response arrived; the field is the transport's message.
    Failed(String),
    /// A response arrived.
    Response {
        /// The status code.
        status: u16,
        /// The length of the body in bytes, as it was received.
        length: usize,
        /// The body as text, invalid UTF-8 replaced.
        body: String,
    },
}

/// Whether a status code reports success: 200 to 299.
pub open spec fn is_success(status: u16) -> bool {
    200 <= status < 300
}

/// Decides `is_success`.
pub fn status_is_success(status: u16) -> (r: bool)
    ensures
        r == is_success(status),
{
    200 <= status && status < 300
}

/// The JSON document of a response's body, whatever its status; `None`
/// where no response arrived or the body is not JSON.
pub open spec fn body_json(reply: HttpReply) -> Option<JsonView> {
    match reply {
        HttpReply::Response { status, length, body } => parsed_json(body@),
        HttpReply::Failed(_) => None,
    }
}

/// The document `json` where the reply is a successful response, else
/// `None`.
pub open spec fn on_success(reply: HttpReply, json: Option<JsonView>) -> Option<JsonView> {
    match reply {
        HttpReply::Response { status, length, body } => if is_success(status) {
            json
        } else {
            None
        },
        HttpReply::Failed(_) => None,
    }
}

/// The JSON document that a reply carries: the body of a successful
/// response, where it is JSON.
pub open spec fn reply_json(reply: HttpReply) -> Option<JsonView> {
    on_success(reply, body_json(reply))
}

impl HttpReply {
    /// Computes `body_json`.
    pub fn parse_body(&self) -> (r: Option<Json>)
        ensures
            opt_json_view(r) == body_json(*self),
    {
        match self {
            HttpReply::Response { status, length, body } => Json::parse(body.as_str()),
            HttpReply::Failed(_) => None,
        }
    }

    /// Whether a response arrived and reports success.
    pub fn succeeded(&self) -> (r: bool)
        ensures
            r == (*self matches HttpReply::Response { status, .. } && is_success(status)),
    {
        match self {
            HttpReply::Response { status, length, body } => status_is_success(*status),
            HttpReply::Failed(_) => false,
        }
    }

    /// Computes `reply_json`.
    pub fn json(&self) -> (r: Option<Json>)
        ensures
            opt_json_view(r) == reply_json(*self),
    {
        match self {
            HttpReply::Response { status, length, body } => {
                if status_is_success(*status) {
                    Json::parse(body.as_str())
                } else {
                    None
                }
            },
            HttpReply::Failed(_) => None,
        }
    }
}

/// One parameter of a query.
pub fn param(name: &str, value: &str) -> (r: (String, String))
    ensures
        r.0@ == name@,
        r.1@ == value@,
{
    (owned(name), owned(value))
}

} // verus!
