//! Links: what parsing a message text as a URL yields, and which links are
//! accepted for download.

use crate::text::{contains, str_contains};
use vstd::prelude::*;
use vstd::string::*;

verus! {

/// The parts of a parsed URL that the relay reads: the host, where the URL
/// has one, and the URL's normalised text.
#[derive(Debug, PartialEq, Eq)]
pub struct ParsedUrl {
    pub host: Option<String>,
    pub href: String,
}

/// Mathematical content of a [`ParsedUrl`].
pub struct ParsedUrlView {
    pub host: Option<Seq<char>>,
    pub href: Seq<char>,
}

impl View for ParsedUrl {
    type V = ParsedUrlView;

    open spec fn view(&self) -> ParsedUrlView {
        ParsedUrlView {
            host: match self.host {
                Some(h) => Some(h@),
                None => None,
            },
            href: self.href@,
        }
    }
}

/// The view of an optional parse result.
pub open spec fn parsed_view(parsed: Option<ParsedUrl>) -> Option<ParsedUrlView> {
    match parsed {
        Some(url) => Some(url@),
        None => None,
    }
}

/// What the URL parser makes of `text`: nothing where `text` is no absolute
/// URL, else the URL's host and normalised text.
pub uninterp spec fn url_parse(text: Seq<char>) -> Option<ParsedUrlView>;

/// Parses `text` as an absolute URL with `url::Url::parse` and reads the
/// result's `host_str` and `as_str`. Trusted: the outcome is the one that
/// `url_parse` names, that is, it depends on `text` alone.
#[verifier::external_body]
pub(crate) fn parse_url(text: &str) -> (parsed: Option<ParsedUrl>)
    ensures
        parsed_view(parsed) == url_parse(text@),
{
    match url::Url::parse(text) {
        Ok(url) => Some(
            ParsedUrl {
                host: match url.host_str() {
                    Some(host) => Some(host.to_string()),
                    None => None,
                },
                href: url.as_str().to_string(),
            },
        ),
        Err(_) => None,
    }
}

/// The marker that a host must contain for its links to be accepted.
pub open spec fn reddit_marker() -> Seq<char> {
    "reddit.com"@
}

/// Whether a host is accepted: it is present and contains the marker
/// anywhere. This is containment, not a match on the domain.
pub open spec fn is_reddit_host(host: Option<Seq<char>>) -> bool {
    match host {
        Some(h) => contains(h, reddit_marker()),
        None => false,
    }
}

impl ParsedUrl {
    /// Whether the URL points at an accepted host.
    pub fn is_reddit(&self) -> (b: bool)
        ensures
            b == is_reddit_host(self@.host),
    {
        match &self.host {
            Some(host) => str_contains(host.as_str(), "reddit.com"),
            None => false,
        }
    }
}

} // verus!
