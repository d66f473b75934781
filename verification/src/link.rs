use vstd::prelude::*;

verus! {

/// Whether a string is a well-formed absolute URL under the grammar the
/// `url` crate implements.  The grammar itself is not restated here;
/// only the outcome matters to the pipeline, and it is a function of
/// the characters alone.
pub uninterp spec fn url_is_valid(s: Seq<char>) -> bool;

/// Relies on `reqwest::Url::parse` (the `url` crate's `Url::parse`):
/// it returns `Ok` exactly when its input parses as an absolute URL,
/// which depends on the input string alone.
#[verifier::external_body]
pub(crate) fn url_parses(s: &str) -> (r: bool)
    ensures
        r == url_is_valid(s@),
{
    reqwest::Url::parse(s).is_ok()
}

} // verus!
