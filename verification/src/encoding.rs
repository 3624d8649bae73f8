//! Percent-encoding and -decoding of request targets and listing links,
//! through the `url_escape` crate.

use vstd::prelude::*;

verus! {

/// What `url_escape::decode` returns for a given string: percent-decoding
/// with lossy UTF-8 recovery. A function of the characters alone.
pub uninterp spec fn percent_decoded(s: Seq<char>) -> Seq<char>;

/// What `url_escape::encode_component` returns for a given string:
/// percent-encoding with the component set. A function of the characters
/// alone.
pub uninterp spec fn percent_encoded(s: Seq<char>) -> Seq<char>;

/// Relies on url_escape::decode: percent-decodes the string, recovering
/// lossily from invalid UTF-8; the result depends on the input alone.
#[verifier::external_body]
pub fn decode_target(s: &str) -> (r: String)
    ensures
        r@ == percent_decoded(s@),
{
    url_escape::decode(s).into_owned()
}

/// Relies on url_escape::encode_component: percent-encodes with the
/// component set, which escapes `%` itself and every byte of a non-ASCII
/// character, so url_escape::decode restores the input exactly.
#[verifier::external_body]
pub fn encode_href(s: &str) -> (r: String)
    ensures
        r@ == percent_encoded(s@),
        percent_decoded(r@) == s@,
{
    url_escape::encode_component(s).to_string()
}

} // verus!
