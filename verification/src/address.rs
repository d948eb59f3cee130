//! What the application reads of a URL: its scheme, its host, its path and
//! the name/value pairs of its query string.

use vstd::prelude::*;

verus! {

/// The parts of a parsed absolute URL that the callback rules look at.
pub struct UrlParts {
    /// The scheme, without the `:` delimiter.
    pub scheme: String,
    /// The host, where the URL has one.
    pub host: Option<String>,
    /// The path, percent-encoded.
    pub path: String,
    /// The decoded name/value pairs of the query string, in the order written.
    pub query: Vec<(String, String)>,
}

/// The mathematical value of [`UrlParts`].
pub struct UrlPartsView {
    pub scheme: Seq<char>,
    pub host: Option<Seq<char>>,
    pub path: Seq<char>,
    pub query: Seq<(Seq<char>, Seq<char>)>,
}

impl View for UrlParts {
    type V = UrlPartsView;

    open spec fn view(&self) -> UrlPartsView {
        UrlPartsView {
            scheme: self.scheme@,
            host: self.host.deep_view(),
            path: self.path@,
            query: self.query.deep_view(),
        }
    }
}

/// The value of an optional [`UrlParts`].
pub open spec fn parts_view(parts: Option<UrlParts>) -> Option<UrlPartsView> {
    match parts {
        Some(p) => Some(p@),
        None => None,
    }
}

/// What `url::Url::parse` makes of `input`: nothing where it reports a parse
/// error, else the scheme, the host, the path and the query pairs of the
/// parsed URL.
pub uninterp spec fn url_parse_result(input: Seq<char>) -> Option<UrlPartsView>;

/// Parses `input` with `url::Url::parse` and reads the result's `scheme()`,
/// `host_str()`, `path()` and `query_pairs()`. Nothing is proved of the parser: the contract
/// only gives its outcome a name, which depends on `input` alone.
#[verifier::external_body]
pub(crate) fn parse_url(input: &str) -> (parts: Option<UrlParts>)
    ensures
        parts_view(parts) == url_parse_result(input@),
{
    match url::Url::parse(input) {
        Ok(parsed) => Some(
            UrlParts {
                scheme: parsed.scheme().to_string(),
                host: parsed.host_str().map(str::to_string),
                path: parsed.path().to_string(),
                query: parsed.query_pairs().into_owned().collect(),
            },
        ),
        Err(_) => None,
    }
}

} // verus!
