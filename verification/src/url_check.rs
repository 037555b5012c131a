//! Validation of a task's target URL by the `url` crate.

use vstd::prelude::*;

verus! {

/// Whether `url::Url::parse` accepts `text` as an absolute URL. The parser
/// follows the WHATWG URL standard; its answer depends on `text` alone.
pub uninterp spec fn url_well_formed(text: Seq<char>) -> bool;

/// Calls `url::Url::parse` on `text` and reports whether it returned a URL
/// rather than a parse error. Nothing is claimed about which texts parse.
#[verifier::external_body]
pub(crate) fn parses_as_url(text: &str) -> (accepted: bool)
    ensures
        accepted == url_well_formed(text@),
{
    url::Url::parse(text).is_ok()
}

} // verus!
