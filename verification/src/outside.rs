//! Trusted declarations for the outside crates the engine leans on:
//! regular-expression matching, URL percent-encoding, URL parsing and the
//! wall clock.  Each wrapper's contract names exactly what the outside
//! function computes; everything built on top of them is verified.

use vstd::prelude::*;

verus! {

/// Whether `pattern`, compiled as a regular expression, matches anywhere in
/// `text`.  The result depends on the pattern and the text alone.
pub uninterp spec fn regex_is_match(pattern: Seq<char>, text: Seq<char>) -> bool;

/// Relies on `regex::Regex::new` and `regex::Regex::is_match`: compiles
/// `pattern` and reports whether it matches anywhere in `text`.  A pattern
/// that does not compile matches nothing.
#[verifier::external_body]
pub fn regex_match(pattern: &str, text: &str) -> (r: bool)
    ensures
        r == regex_is_match(pattern@, text@),
{
    match regex::Regex::new(pattern) {
        Ok(re) => re.is_match(text),
        Err(_) => false,
    }
}

/// The percent-encoded form of a string.  The result depends on the input
/// alone.
pub uninterp spec fn url_encoded(s: Seq<char>) -> Seq<char>;

/// Relies on `urlencoding::encode`: percent-encodes every byte except ASCII
/// alphanumerics and `-`, `_`, `.`, `~`.  An empty string stays empty.
#[verifier::external_body]
pub fn url_encode(s: &str) -> (r: String)
    ensures
        r@ == url_encoded(s@),
        s@.len() == 0 ==> r@.len() == 0,
{
    urlencoding::encode(s).into_owned()
}

/// The parts a URL parser extracts from a string: scheme, host (if any) and
/// the normalised form; `None` when the string is not a valid URL.  The
/// result depends on the input alone.
pub uninterp spec fn url_parts(s: Seq<char>) -> Option<(Seq<char>, Option<Seq<char>>, Seq<char>)>;

/// Scheme, host and normalised form of a parsed URL.
pub struct UrlParts {
    pub scheme: String,
    pub host: Option<String>,
    pub normalized: String,
}

/// Relies on `url::Url::parse` (with `Url::scheme`, `Url::host_str` and the
/// display form of `Url`): parses `s` and hands back its parts; the scheme
/// comes back ASCII-lowercased, as that crate documents.
#[verifier::external_body]
pub fn parse_url(s: &str) -> (r: Option<UrlParts>)
    ensures
        r is Some <==> url_parts(s@) is Some,
        r matches Some(p) ==> (url_parts(s@) matches Some(q) && p.scheme@ == q.0
            && p.host.deep_view() == q.1 && p.normalized@ == q.2),
{
    match url::Url::parse(s) {
        Ok(u) => Some(UrlParts {
            scheme: u.scheme().to_string(),
            host: u.host_str().map(|h| h.to_string()),
            normalized: u.to_string(),
        }),
        Err(_) => None,
    }
}

/// Relies on `chrono::Utc::now` and `DateTime::to_rfc3339`.  The clock is
/// outside the library, so nothing is promised of the result.
#[verifier::external_body]
pub fn now_rfc3339() -> String {
    chrono::Utc::now().to_rfc3339()
}

} // verus!
