//! The calls into the `url` crate that the library's logic makes.

use vstd::prelude::*;

verus! {

/// The view of an optional string.
pub open spec fn opt_view(o: Option<String>) -> Option<Seq<char>> {
    match o {
        Some(s) => Some(s@),
        None => None,
    }
}

/// The view of a doubly optional string.
pub open spec fn opt_opt_view(o: Option<Option<String>>) -> Option<Option<Seq<char>>> {
    match o {
        Some(i) => Some(opt_view(i)),
        None => None,
    }
}

/// What `url::Url::parse(input)` followed by `Url::host_str` gives: `None` when
/// `input` does not parse as a URL, `Some(None)` when the URL has no host, and
/// `Some(Some(host))` otherwise.
pub uninterp spec fn url_host_of(input: Seq<char>) -> Option<Option<Seq<char>>>;

/// What `url::Url::parse(base)` followed by `Url::join(reference)` and
/// `to_string` gives: the serialized joined URL, or the text (`to_string`)
/// of the `ParseError` of the step that failed.
pub uninterp spec fn url_join_of(base: Seq<char>, reference: Seq<char>) -> Result<Seq<char>, Seq<char>>;

/// Calls `url::Url::parse` on `input` and, when it succeeds, `Url::host_str`.
/// The contract only names the result (`url_host_of`); the URL grammar is the
/// url crate's and is not restated here.
#[verifier::external_body]
pub(crate) fn url_host(input: &str) -> (r: Option<Option<String>>)
    ensures
        opt_opt_view(r) == url_host_of(input@),
{
    match url::Url::parse(input) {
        Ok(u) => match u.host_str() {
            Some(h) => Some(Some(h.to_string())),
            None => Some(None),
        },
        Err(_) => None,
    }
}

/// Calls `url::Url::parse` on `base` and then `Url::join` with `reference`,
/// serializing the joined URL, or the error of the step that failed, with
/// `to_string`. The contract only names the result (`url_join_of`).
#[verifier::external_body]
pub(crate) fn url_join(base: &str, reference: &str) -> (r: Result<String, String>)
    ensures
        match r {
            Ok(u) => url_join_of(base@, reference@) == Ok::<Seq<char>, Seq<char>>(u@),
            Err(e) => url_join_of(base@, reference@) == Err::<Seq<char>, Seq<char>>(e@),
        },
{
    match url::Url::parse(base) {
        Ok(b) => match b.join(reference) {
            Ok(u) => Ok(u.to_string()),
            Err(e) => Err(e.to_string()),
        },
        Err(e) => Err(e.to_string()),
    }
}

} // verus!
