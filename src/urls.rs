use vstd::prelude::*;

use url::Url;

verus! {

#[verifier::external_type_specification]
#[verifier::external_body]
pub struct ExUrl(url::Url);

/// What `url::Url::join` gives for `input` resolved against `base`; `None`
/// when it fails.
pub uninterp spec fn joined(base: Url, input: Seq<char>) -> Option<Url>;

/// Relies on `url::Url::join`: resolves `input` against `base` by the URL
/// standard's rules, or fails on input that does not form a URL; the outcome
/// depends on the two arguments alone.
#[verifier::external_body]
pub(crate) fn join_url(base: &Url, input: &str) -> (r: Option<Url>)
    ensures
        r == joined(*base, input@),
{
    base.join(input).ok()
}

} // verus!
