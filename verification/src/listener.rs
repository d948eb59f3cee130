//! The loopback listener's rule for one incoming request.
//!
//! The listener binds to `127.0.0.1` on a chosen port. A request whose path is
//! exactly `/callback` is the redirect: its query string becomes a callback
//! record, the browser gets one of three fixed pages, and the listener stops.
//! Any other request is answered with `404 Not Found` and changes nothing.

use vstd::prelude::*;
use vstd::string::*;
use crate::address::{parse_url, parts_view, url_parse_result, UrlParts, UrlPartsView};
use crate::callback::{record_of_pairs, record_view, CallbackData, CallbackRecord};
use crate::text::{decimal_string, decimal_text, same_text};

verus! {

/// The answer that the listener sends to one request.
#[derive(Debug)]
pub struct HttpReply {
    /// The HTTP status code.
    pub status: u16,
    /// Whether the body is sent as `text/html`; otherwise it is plain text.
    pub html: bool,
    /// The body.
    pub body: String,
}

/// What one request leads to: the answer, and the record to store if the
/// request was the redirect. A record ends the listener's accept loop.
#[derive(Debug)]
pub struct RequestOutcome {
    pub reply: HttpReply,
    pub record: Option<CallbackData>,
}

/// The page shown when the redirect reports an error.
pub open spec fn failure_page() -> Seq<char> {
    "<html><body><h1>Authentication Failed</h1><p>You can close this window.</p></body></html>"@
}

/// The page shown when the redirect carries an authorization code.
pub open spec fn success_page() -> Seq<char> {
    "<html><body><h1>Authentication Successful</h1><p>You can close this window and return to the app.</p></body></html>"@
}

/// The page shown when the redirect carries neither a code nor an error.
pub open spec fn missing_code_page() -> Seq<char> {
    "<html><body><h1>Authentication Error</h1><p>Missing authorization code.</p></body></html>"@
}

/// The page for a record: an error goes before a code, a code before neither.
pub open spec fn response_page(record: CallbackRecord) -> Seq<char> {
    if record.error is Some {
        failure_page()
    } else if record.code is Some {
        success_page()
    } else {
        missing_code_page()
    }
}

/// The absolute URL of a request that reached the listener on `port`.
pub open spec fn loopback_url(port: u16, request_url: Seq<char>) -> Seq<char> {
    "http://127.0.0.1:"@ + decimal_text(port as nat) + request_url
}

/// Whether a parsed request is the redirect.
pub open spec fn is_callback(parts: Option<UrlPartsView>) -> bool {
    parts matches Some(p) && p.path == "/callback"@
}

/// The record that a parsed request leaves, if it is the redirect.
pub open spec fn route_record(parts: Option<UrlPartsView>) -> Option<CallbackRecord> {
    if is_callback(parts) {
        Some(record_of_pairs(parts->0.query))
    } else {
        None
    }
}

/// The status code that answers a parsed request.
pub open spec fn route_status(parts: Option<UrlPartsView>) -> u16 {
    if is_callback(parts) {
        200
    } else {
        404
    }
}

/// The body that answers a parsed request.
pub open spec fn route_body(parts: Option<UrlPartsView>) -> Seq<char> {
    if is_callback(parts) {
        response_page(record_of_pairs(parts->0.query))
    } else {
        "Not Found"@
    }
}

/// Whether a reply and a record are the ones that a parsed request calls for.
pub open spec fn outcome_matches(out: RequestOutcome, parts: Option<UrlPartsView>) -> bool {
    &&& record_view(out.record) == route_record(parts)
    &&& out.reply.status == route_status(parts)
    &&& out.reply.html == is_callback(parts)
    &&& out.reply.body@ == route_body(parts)
}

/// Chooses the page for a record.
pub fn page_for(record: &CallbackData) -> (page: &'static str)
    ensures
        page@ == response_page(record@),
{
    if record.error.is_some() {
        "<html><body><h1>Authentication Failed</h1><p>You can close this window.</p></body></html>"
    } else if record.code.is_some() {
        "<html><body><h1>Authentication Successful</h1><p>You can close this window and return to the app.</p></body></html>"
    } else {
        "<html><body><h1>Authentication Error</h1><p>Missing authorization code.</p></body></html>"
    }
}

/// Decides on a request whose URL has been parsed, or has failed to parse.
pub fn route_parsed(parsed: Option<UrlParts>) -> (out: RequestOutcome)
    ensures
        outcome_matches(out, parts_view(parsed)),
{
    match parsed {
        Some(parts) => {
            if same_text(parts.path.as_str(), "/callback") {
                let record = CallbackData::from_query_pairs(&parts.query);
                let body = String::from_str(page_for(&record));
                return RequestOutcome {
                    reply: HttpReply { status: 200, html: true, body },
                    record: Some(record),
                };
            }
        },
        None => {},
    }
    RequestOutcome {
        reply: HttpReply { status: 404, html: false, body: String::from_str("Not Found") },
        record: None,
    }
}

/// Writes out the absolute URL of a request that reached the listener on `port`.
pub fn full_request_url(port: u16, request_url: &str) -> (url: String)
    ensures
        url@ == loopback_url(port, request_url@),
{
    let mut url = String::from_str("http://127.0.0.1:");
    let digits = decimal_string(port);
    url.append(digits.as_str());
    url.append(request_url);
    url
}

/// Decides on one request that reached the listener on `port`. `request_url`
/// is the request line's target, a path with an optional query string.
pub fn route_request(port: u16, request_url: &str) -> (out: RequestOutcome)
    ensures
        outcome_matches(out, url_parse_result(loopback_url(port, request_url@))),
{
    let url = full_request_url(port, request_url);
    route_parsed(parse_url(url.as_str()))
}

} // verus!
