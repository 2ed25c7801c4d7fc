//! Trusted view of URL parsing: what the library reads out of a URL string —
//! its normalized form, its scheme, and its host — as plain values.

use vstd::prelude::*;

verus! {

/// What parsing a URL string yields, if it parses: the normalized string the
/// parser would print back, the scheme, and the host, in that order.
pub uninterp spec fn parsed_url(s: Seq<char>) -> Option<(Seq<char>, Seq<char>, Option<Seq<char>>)>;

/// What resolving a reference against a base URL string yields, if the base
/// parses and the reference resolves against it: the normalized result.
pub uninterp spec fn joined_url(base: Seq<char>, href: Seq<char>) -> Option<Seq<char>>;

/// The normalized form of a URL string, if it parses.
pub open spec fn url_normalized(s: Seq<char>) -> Option<Seq<char>> {
    match parsed_url(s) {
        Some(p) => Some(p.0),
        None => None,
    }
}

/// The scheme of a URL string, if it parses.
pub open spec fn url_scheme(s: Seq<char>) -> Option<Seq<char>> {
    match parsed_url(s) {
        Some(p) => Some(p.1),
        None => None,
    }
}

/// The host of a URL string: None when the string does not parse or the URL
/// has no host component (as for mailto: or javascript: URLs).
pub open spec fn url_host(s: Seq<char>) -> Option<Seq<char>> {
    match parsed_url(s) {
        Some(p) => p.2,
        None => None,
    }
}

/// The view of an optional string.
pub open spec fn opt_str_view(h: Option<String>) -> Option<Seq<char>> {
    match h {
        Some(s) => Some(s@),
        None => None,
    }
}

/// The pieces of a parsed URL that the crawl logic reads.
pub(crate) struct UrlParts {
    /// The URL as the parser prints it back (resolved and normalized).
    pub normalized: String,
    /// The URL's scheme, lowercased by the parser.
    pub scheme: String,
    /// The URL's host, if it has one.
    pub host: Option<String>,
}

impl UrlParts {
    /// The triple of views this value carries.
    pub(crate) open spec fn view_parts(&self) -> (Seq<char>, Seq<char>, Option<Seq<char>>) {
        (
            self.normalized@,
            self.scheme@,
            opt_str_view(self.host),
        )
    }
}

/// Relies on url::Url::parse and the accessors Url::as_str, Url::scheme and
/// Url::host_str: the outcome is a function of the input string alone.
#[verifier::external_body]
pub(crate) fn parse_url_parts(s: &str) -> (r: Option<UrlParts>)
    ensures
        match r {
            Some(p) => parsed_url(s@) == Some(p.view_parts()),
            None => parsed_url(s@) is None,
        },
{
    match url::Url::parse(s) {
        Ok(u) => Some(
            UrlParts {
                normalized: u.as_str().to_string(),
                scheme: u.scheme().to_string(),
                host: u.host_str().map(|h| h.to_string()),
            },
        ),
        Err(_) => None,
    }
}

/// Relies on url::Url::join called on the parsed base (url::Url::parse):
/// resolving a possibly-relative reference against a base URL is a function
/// of the two strings alone.
#[verifier::external_body]
pub(crate) fn join_url(base: &str, href: &str) -> (r: Option<String>)
    ensures
        match r {
            Some(u) => joined_url(base@, href@) == Some(u@),
            None => joined_url(base@, href@) is None,
        },
{
    match url::Url::parse(base) {
        Ok(b) => match b.join(href) {
            Ok(u) => Some(u.as_str().to_string()),
            Err(_) => None,
        },
        Err(_) => None,
    }
}

} // verus!
