//! Trusted boundary around the URL library.
//!
//! Whether a base URL is well formed, and whether an API path joins onto it,
//! is the URL library's judgement; the library only needs the yes-or-no
//! answer, since the composed URL itself is plain text concatenation.

use vstd::prelude::*;

verus! {

#[verifier::external_type_specification]
#[verifier::external_body]
pub struct ExUrl(url::Url);

/// The parsed form of a text, when it is a well-formed absolute URL.
pub uninterp spec fn parsed_url(s: Seq<char>) -> Option<url::Url>;

/// Whether a path joins onto a parsed URL.
pub uninterp spec fn join_ok(u: url::Url, path: Seq<char>) -> bool;

/// Relies on `url::Url::parse`: whether a text parses, and to what, is a
/// function of the text alone.
#[verifier::external_body]
pub fn url_parse(s: &str) -> (r: Option<url::Url>)
    ensures
        r == parsed_url(s@),
{
    url::Url::parse(s).ok()
}

/// Relies on `url::Url::join`: whether a path joins onto a URL is a function
/// of the URL and the path alone.
#[verifier::external_body]
pub fn url_join_ok(u: &url::Url, path: &str) -> (r: bool)
    ensures
        r == join_ok(*u, path@),
{
    u.join(path).is_ok()
}

/// Whether a base URL accepts an API path: the base parses as an absolute
/// URL and the path joins onto it.
pub open spec fn url_ok(base: Seq<char>, path: Seq<char>) -> bool {
    match parsed_url(base) {
        Some(u) => join_ok(u, path),
        None => false,
    }
}

} // verus!
