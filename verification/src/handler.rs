//! The response decision for one request: given a resolved path and what the
//! filesystem showed at it, frame exactly one response.

use vstd::prelude::*;
use vstd::utf8::encode_utf8;

use crate::classify::spec_content_type;
use crate::listing::{generate_directory_listing, listing_page};
use crate::paths::{root_relative, spec_root_relative};
use crate::response::{file_response, not_found_response, ok_response, spec_not_found_response,
    spec_ok_response};

verus! {

/// What the filesystem showed at a resolved, contained path: a directory
/// with the given immediate children, a regular file with the given bytes,
/// or nothing servable.
pub enum FsObservation {
    Directory { names: Vec<String> },
    File { bytes: Vec<u8> },
    Missing,
}

/// The one response for a request whose canonical path passed the
/// containment check: a listing page for a directory, the file bytes under
/// a sniffed content type for a regular file, and not-found for anything
/// else.
pub fn respond_for(root: &str, path: &str, obs: &FsObservation) -> (r: Vec<u8>)
    ensures
        match obs {
            FsObservation::Directory { names } => r@ == spec_ok_response(
                "text/html"@,
                encode_utf8(listing_page(spec_root_relative(root@, path@), names.deep_view())),
            ),
            FsObservation::File { bytes } => r@ == spec_ok_response(
                spec_content_type(bytes@),
                bytes@,
            ),
            FsObservation::Missing => r@ == spec_not_found_response(),
        },
{
    match obs {
        FsObservation::Directory { names } => {
            let rel = root_relative(root, path);
            let html = generate_directory_listing(rel.as_str(), names);
            let body = html.as_str().as_bytes_vec();
            ok_response("text/html", &body)
        },
        FsObservation::File { bytes } => file_response(bytes),
        FsObservation::Missing => not_found_response(),
    }
}

} // verus!
