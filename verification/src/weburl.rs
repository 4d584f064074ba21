//! URLs, held as `url::Url`.
//!
//! Verus sees nothing inside a `Url`. A `Url` stands for its text, named by
//! `url_text`; what the `url` crate makes of a text is named, not spelled
//! out. These contracts are believed, not proved.

use vstd::prelude::*;

verus! {

/// `url::Url`, carried through verified code as an opaque value.
#[verifier::external_type_specification]
#[verifier::external_body]
pub struct ExUrl(url::Url);

/// The text of a URL, as `Url::as_str` gives it.
pub uninterp spec fn url_text(u: url::Url) -> Seq<char>;

/// What `Url::parse` makes of a text: the text of the URL it parses to, or
/// `None` where it reports an error.
pub uninterp spec fn url_parse(input: Seq<char>) -> Option<Seq<char>>;

/// What `Url::join` makes of a reference against the URL with text `base`:
/// the text of the resolved URL, or `None` where it reports an error.
pub uninterp spec fn url_join(base: Seq<char>, reference: Seq<char>) -> Option<Seq<char>>;

/// What `Url::query_pairs` yields for the URL with text `url`: the name and
/// value of each parameter of its query, decoded, in order.
pub uninterp spec fn url_query_pairs(url: Seq<char>) -> Seq<(Seq<char>, Seq<char>)>;

/// Calls `Url::parse`. The contract only gives the outcome its name.
#[verifier::external_body]
pub(crate) fn parse_url(input: &str) -> (r: Option<url::Url>)
    ensures
        match r {
            Some(u) => url_parse(input@) == Some(url_text(u)),
            None => url_parse(input@) is None,
        },
{
    url::Url::parse(input).ok()
}

/// Calls `Url::join`. The contract only gives the outcome its name; that it
/// depends on the base by its text alone is how the crate compares URLs.
#[verifier::external_body]
pub(crate) fn join_url(base: &url::Url, reference: &str) -> (r: Option<url::Url>)
    ensures
        match r {
            Some(u) => url_join(url_text(*base), reference@) == Some(url_text(u)),
            None => url_join(url_text(*base), reference@) is None,
        },
{
    base.join(reference).ok()
}

/// Calls `Url::query_pairs` and collects what it yields. The contract only
/// gives the outcome its name.
#[verifier::external_body]
pub(crate) fn query_pairs(u: &url::Url) -> (r: Vec<(String, String)>)
    ensures
        r.deep_view() == url_query_pairs(url_text(*u)),
{
    u.query_pairs().into_owned().collect()
}

} // verus!
