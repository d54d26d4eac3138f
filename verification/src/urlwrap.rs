//! Trusted boundary to the `url` crate: parsing specifier text and turning
//! absolute filesystem paths into `file:` URLs.

use vstd::prelude::*;

verus! {

/// Whether the text parses as an absolute URL (`url::Url::parse` succeeds).
pub uninterp spec fn url_ok(s: Seq<char>) -> bool;

/// The serialization of the parsed URL (`url::Url::as_str`).
pub uninterp spec fn url_href(s: Seq<char>) -> Seq<char>;

/// The path part of the parsed URL (`url::Url::path`).
pub uninterp spec fn url_path(s: Seq<char>) -> Seq<char>;

/// Whether the path converts to a `file:` URL
/// (`url::Url::from_file_path` succeeds; it refuses relative paths).
pub uninterp spec fn file_url_ok(p: Seq<char>) -> bool;

/// The serialization of the `file:` URL made from the path.
pub uninterp spec fn file_url_of(p: Seq<char>) -> Seq<char>;

/// What this crate reads off a parsed URL.
pub struct UrlParts {
    pub href: String,
    pub path: String,
}

/// Relies on `url::Url::parse`, `url::Url::as_str` and `url::Url::path`:
/// whether specifier text is an absolute URL, its serialization, and its
/// path part, each a function of the text alone.
#[verifier::external_body]
pub fn parse_url(s: &str) -> (r: Option<UrlParts>)
    ensures
        r is Some <==> url_ok(s@),
        match r {
            Some(u) => u.href@ == url_href(s@) && u.path@ == url_path(s@),
            None => true,
        },
{
    match url::Url::parse(s) {
        Ok(u) => {
            let path = u.path().to_string();
            Some(UrlParts { href: u.as_str().to_string(), path })
        },
        Err(_) => None,
    }
}

/// Relies on `url::Url::from_file_path` (with `url::Url::as_str` for the
/// serialization): an absolute path converts to a `file:` URL, a function of
/// the path text alone; a relative path is refused.
#[verifier::external_body]
pub fn path_to_file_url(p: &str) -> (r: Option<String>)
    ensures
        r is Some <==> file_url_ok(p@),
        match r {
            Some(h) => h@ == file_url_of(p@),
            None => true,
        },
{
    match url::Url::from_file_path(p) {
        Ok(u) => Some(u.as_str().to_string()),
        Err(()) => None,
    }
}

} // verus!
