//! The narrow trusted boundary to the outside crates: URL parsing, fresh
//! task ids, the clock, and the platform's download directory. Each item
//! here is believed, not verified; everything that reasons about their
//! results takes them as plain values.

use vstd::prelude::*;

verus! {

/// What `url::Url::parse` extracts from a URL string: the scheme, and —
/// when the URL has a path — the last path segment. A function of the
/// string alone; `None` when the string does not parse as a URL.
pub uninterp spec fn url_parts_of(s: Seq<char>) -> Option<(Seq<char>, Option<Seq<char>>)>;

/// Relies on `url::Url::parse`, with the parsed value read back through
/// `scheme` and `path_segments`: both are functions of the input string
/// alone, which `url_parts_of` names.
#[verifier::external_body]
pub(crate) fn parse_url_parts(s: &str) -> (r: Option<(String, Option<String>)>)
    ensures
        r is Some <==> url_parts_of(s@) is Some,
        r matches Some(p) ==> (url_parts_of(s@) matches Some(q) && p.0@ == q.0 && (p.1
            is Some <==> q.1 is Some) && (p.1 matches Some(seg) ==> q.1 matches Some(t) && seg@
            == t)),
{
    match url::Url::parse(s) {
        Ok(u) => {
            let scheme = u.scheme().to_string();
            let seg = u.path_segments().and_then(|segs| segs.last()).map(|x| x.to_string());
            Some((scheme, seg))
        },
        Err(_) => None,
    }
}

/// Relies on `uuid::Uuid::new_v4` rendered through `Display`: the hyphenated
/// form is documented as exactly 36 characters. The value is random, so
/// nothing else is assumed of it.
#[verifier::external_body]
pub(crate) fn new_uuid_string() -> (r: String)
    ensures
        r@.len() == 36,
{
    uuid::Uuid::new_v4().to_string()
}

/// Relies on `chrono::Local::now` for the current time, as seconds since the
/// Unix epoch. The clock decides the value, so nothing is assumed of it.
#[verifier::external_body]
pub(crate) fn now_timestamp() -> (r: i64) {
    chrono::Local::now().timestamp()
}

/// Relies on `dirs::download_dir` for the platform's download directory. The
/// environment decides the value, so nothing is assumed of it.
#[verifier::external_body]
pub(crate) fn platform_download_dir() -> (r: Option<String>) {
    dirs::download_dir().map(|p| p.to_string_lossy().to_string())
}

} // verus!
