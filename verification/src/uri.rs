//! Whether a path can stand as the URI of a canonical request.

use vstd::prelude::*;

verus! {

/// The verdict of the `http` crate's URI parser on a text: `true` where it
/// accepts the text as a URI.
pub uninterp spec fn uri_parses(text: Seq<char>) -> bool;

/// Asks `http::Uri::try_from` whether it accepts `text`.
///
/// Nothing is proved of this function. Its contract claims that the parser's
/// verdict depends on the text alone, and calls that verdict `uri_parses`; it
/// claims nothing about which texts are accepted.
#[verifier::external_body]
pub(crate) fn parses_as_uri(text: &str) -> (accepted: bool)
    ensures
        accepted == uri_parses(text@),
{
    http::Uri::try_from(text).is_ok()
}

} // verus!
