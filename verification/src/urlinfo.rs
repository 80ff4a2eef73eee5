//! The parts of a parsed URL that classification reads — whether the
//! string parses, its host, its path — and the terminal path segment.
//!
//! Parsing itself is done by the `url` crate; its outcome on a given
//! string is named by uninterpreted spec functions, and everything
//! downstream of the one trusted call is verified against those names.

use vstd::prelude::*;

use crate::error::AcquireError;
use crate::strutil::{last_segment, last_segment_of, starts_with, str_starts_with};

verus! {

/// Whether `url::Url::parse` accepts the string.
pub uninterp spec fn url_parses(s: Seq<char>) -> bool;

/// The host of the parsed URL, when it has one.
pub uninterp spec fn url_host(s: Seq<char>) -> Option<Seq<char>>;

/// The path of the parsed URL.
pub uninterp spec fn url_path(s: Seq<char>) -> Seq<char>;

/// The host and path of a URL that parsed, as plain strings.
pub struct UrlParts {
    pub host: Option<String>,
    pub path: String,
}

/// The view of an optional string.
pub open spec fn opt_str_view(o: Option<String>) -> Option<Seq<char>> {
    match o {
        Some(s) => Some(s@),
        None => None,
    }
}

/// A URL has path segments exactly when its path starts with `/`:
/// `url::Url::path_segments` is `path.strip_prefix('/')` split on `/`.
pub open spec fn url_has_segments(s: Seq<char>) -> bool {
    starts_with(url_path(s), "/"@)
}

/// The terminal path segment of a URL: the path's suffix after its
/// last `/`. For a URL with segments this is the last element that
/// `url::Url::path_segments` yields.
pub open spec fn terminal_segment(s: Seq<char>) -> Seq<char> {
    last_segment_of(url_path(s))
}

/// Relies on `url::Url::parse` for success or failure of parsing, and
/// on `Url::host_str` and `Url::path` for the host and path of the
/// parsed URL; all three depend on the input string alone.
#[verifier::external_body]
pub(crate) fn parse_url_parts(s: &str) -> (r: Option<UrlParts>)
    ensures
        r is Some <==> url_parses(s@),
        r matches Some(p) ==> {
            &&& opt_str_view(p.host) == url_host(s@)
            &&& p.path@ == url_path(s@)
        },
{
    match url::Url::parse(s) {
        Ok(u) => Some(UrlParts {
            host: u.host_str().map(|h| h.to_string()),
            path: u.path().to_string(),
        }),
        Err(_) => None,
    }
}

/// The terminal path segment of `url_str`: `Ok` exactly when the URL
/// parses and has path segments, and then the segment itself.
pub fn get_filename_from_url(url_str: &str) -> (r: Result<String, AcquireError>)
    ensures
        r is Ok <==> url_parses(url_str@) && url_has_segments(url_str@),
        r matches Ok(name) ==> name@ == terminal_segment(url_str@),
        r matches Err(e) ==> e is UrlParse,
{
    match parse_url_parts(url_str) {
        Some(p) => {
            if str_starts_with(p.path.as_str(), "/") {
                Ok(last_segment(p.path.as_str()))
            } else {
                Err(AcquireError::UrlParse)
            }
        },
        None => Err(AcquireError::UrlParse),
    }
}

} // verus!
