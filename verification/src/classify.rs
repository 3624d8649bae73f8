//! Content classification: a best-effort MIME type guessed from file bytes,
//! through the `infer` crate, with a generic binary fallback.

use vstd::prelude::*;

verus! {

/// What `infer::get` returns for a given byte buffer: the MIME type of the
/// first built-in signature that matches, if any. A function of the bytes
/// alone.
pub uninterp spec fn sniffed_mime(bytes: Seq<u8>) -> Option<Seq<char>>;

/// The content type served for a file with the given bytes: the sniffed
/// type, or the generic binary type when no signature matches.
pub open spec fn spec_content_type(bytes: Seq<u8>) -> Seq<char> {
    match sniffed_mime(bytes) {
        Some(m) => m,
        None => "application/octet-stream"@,
    }
}

/// Relies on infer::get: matches the buffer against the crate's built-in
/// signature list; the result depends on the bytes alone.
#[verifier::external_body]
fn sniff_mime(bytes: &[u8]) -> (r: Option<String>)
    ensures
        match r {
            Some(s) => sniffed_mime(bytes@) == Some(s@),
            None => sniffed_mime(bytes@) is None,
        },
{
    infer::get(bytes).map(|kind| kind.mime_type().to_string())
}

/// Best-effort MIME type for file contents. Classification is content-based
/// only; file names are never consulted.
pub fn content_type_for(bytes: &Vec<u8>) -> (r: String)
    ensures
        r@ == spec_content_type(bytes@),
{
    match sniff_mime(bytes.as_slice()) {
        Some(s) => s,
        None => String::from_str("application/octet-stream"),
    }
}

} // verus!
