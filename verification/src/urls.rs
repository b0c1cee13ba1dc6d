//! URLs built with `reqwest::Url` (the `url` crate).
use vstd::prelude::*;
use crate::text::opt_view;

verus! {

/// The serialization of `base` parsed as an absolute URL with the
/// `name=value` pairs appended to its query, form-urlencoded, in order;
/// `None` when `base` does not parse.
pub uninterp spec fn url_with_query_pairs(
    base: Seq<char>,
    pairs: Seq<(Seq<char>, Seq<char>)>,
) -> Option<Seq<char>>;

/// The serialization of `base` parsed as an absolute URL with `segments`
/// pushed onto its path as `PathSegmentsMut::extend` pushes them (each
/// percent-encoded as one path segment; `.` and `..` are skipped); `None`
/// when `base` does not parse or cannot take path segments.
pub uninterp spec fn url_with_path_segments(
    base: Seq<char>,
    segments: Seq<Seq<char>>,
) -> Option<Seq<char>>;

/// Calls `reqwest::Url::parse_with_params` and serializes the URL
/// (`String::from`).
///
/// Trusted: the result is `url_with_query_pairs` of the arguments; the
/// parsing and form-urlencoding rules of the `url` crate are not restated.
#[verifier::external_body]
pub(crate) fn query_url(base: &str, pairs: &Vec<(String, String)>) -> (r: Option<String>)
    ensures
        opt_view(r) == url_with_query_pairs(base@, pairs.deep_view()),
{
    reqwest::Url::parse_with_params(base, pairs.iter()).ok().map(String::from)
}

/// Calls `reqwest::Url::parse`, then `path_segments_mut` and `extend` to push
/// the segments, and serializes the URL (`String::from`).
///
/// Trusted: the result is `url_with_path_segments` of the arguments; the
/// parsing and percent-encoding rules of the `url` crate are not restated.
#[verifier::external_body]
pub(crate) fn path_url(base: &str, segments: &Vec<String>) -> (r: Option<String>)
    ensures
        opt_view(r) == url_with_path_segments(base@, segments.deep_view()),
{
    let mut url = reqwest::Url::parse(base).ok()?;
    url.path_segments_mut().ok()?.extend(segments.iter());
    Some(String::from(url))
}

} // verus!
