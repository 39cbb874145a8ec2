//! Absolute-URL handling, backed by the `url` crate.
//!
//! Rule documentation links and module locators are absolute URLs.  Parsing
//! and reference joining are deterministic functions of the input text, so
//! their outcomes are named here and every contract speaks of those names.

use vstd::prelude::*;

verus! {

/// Whether `s` parses as an absolute URL.
pub uninterp spec fn url_ok(s: Seq<char>) -> bool;

/// The serialization of the URL parsed from `s` (meaningful when
/// `url_ok(s)` holds).
pub uninterp spec fn url_norm(s: Seq<char>) -> Seq<char>;

/// Whether joining the reference `rel` against the base URL `base`
/// succeeds.
pub uninterp spec fn url_join_ok(base: Seq<char>, rel: Seq<char>) -> bool;

/// The serialization of that joined URL (meaningful when
/// `url_join_ok(base, rel)` holds).
pub uninterp spec fn url_join(base: Seq<char>, rel: Seq<char>) -> Seq<char>;

/// Relies on `url::Url::parse` and `url::Url::as_str`: parsing is a pure
/// function of the input text, and by the WHATWG URL standard's round-trip
/// guarantee the serialization of a parsed URL parses back to itself.
#[verifier::external_body]
pub fn parse_url(s: &str) -> (r: Option<String>)
    ensures
        r is Some <==> url_ok(s@),
        r matches Some(t) ==> t@ == url_norm(s@) && url_ok(t@) && url_norm(t@) == t@,
{
    match url::Url::parse(s) {
        Ok(u) => Some(u.as_str().to_string()),
        Err(_) => None,
    }
}

/// Relies on `url::Url::parse` and `url::Url::join`: the base text is
/// parsed and the reference joined against it, both deterministic in their
/// inputs; the result is serialized as with `parse_url`.
#[verifier::external_body]
pub fn join_url(base: &str, rel: &str) -> (r: Option<String>)
    ensures
        r is Some <==> url_join_ok(base@, rel@),
        r matches Some(t) ==> t@ == url_join(base@, rel@) && url_ok(t@) && url_norm(t@)
            == t@,
{
    match url::Url::parse(base) {
        Ok(b) => match b.join(rel) {
            Ok(u) => Some(u.as_str().to_string()),
            Err(_) => None,
        },
        Err(_) => None,
    }
}

} // verus!
