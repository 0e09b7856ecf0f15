use vstd::prelude::*;

verus! {

/// A URL that parsed: its scheme and its serialization, which is also its
/// display form.
#[derive(Debug, Clone)]
pub struct ParsedUrl {
    pub scheme: String,
    pub serialization: String,
}

/// The scheme and serialization of `text` read as an absolute URL, or
/// `None` when the URL parser refuses it.
pub uninterp spec fn url_parts(text: Seq<char>) -> Option<(Seq<char>, Seq<char>)>;

/// Trusted: calls `reqwest::Url::parse` (the `url` crate's parser) and takes
/// `scheme()` and `as_str()` of the result.
#[verifier::external_body]
pub(crate) fn parse_url(text: &str) -> (r: Option<ParsedUrl>)
    ensures
        match r {
            Some(p) => url_parts(text@) == Some((p.scheme@, p.serialization@)),
            None => url_parts(text@) is None,
        },
{
    reqwest::Url::parse(text).ok().map(
        |u| ParsedUrl { scheme: u.scheme().to_string(), serialization: u.as_str().to_string() },
    )
}

/// The serialization of `reference` resolved against the base URL `base`,
/// or `None` when `base` does not parse or the reference cannot be joined.
pub uninterp spec fn url_joined(base: Seq<char>, reference: Seq<char>) -> Option<Seq<char>>;

/// Trusted: parses `base` with `reqwest::Url::parse` and calls `Url::join`
/// with `reference`, taking `as_str()` of the result.
#[verifier::external_body]
pub(crate) fn join_url(base: &str, reference: &str) -> (r: Option<String>)
    ensures
        match r {
            Some(s) => url_joined(base@, reference@) == Some(s@),
            None => url_joined(base@, reference@) is None,
        },
{
    reqwest::Url::parse(base).ok()?.join(reference).ok().map(|u| u.as_str().to_string())
}

} // verus!
