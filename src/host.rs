//! The host named by a base URL, as the `url` crate parses it.
use vstd::prelude::*;

verus! {

/// The host that `url` finds in an absolute URL, or `None` where the text does
/// not parse as one or the URL has no host.
pub uninterp spec fn url_host(s: Seq<char>) -> Option<Seq<char>>;

/// The characters of an optional string.
pub open spec fn text_of(o: Option<String>) -> Option<Seq<char>> {
    match o {
        Some(s) => Some(s@),
        None => None,
    }
}

/// Relies on `url::Url::parse` followed by `url::Url::host_str`: the host of
/// the parsed URL, `None` on a parse error or a URL without a host. Both
/// depend on the input text alone.
#[verifier::external_body]
pub(crate) fn parse_host(s: &str) -> (r: Option<String>)
    ensures
        text_of(r) == url_host(s@),
{
    url::Url::parse(s).ok().and_then(|u| u.host_str().map(|h| h.to_string()))
}

} // verus!
