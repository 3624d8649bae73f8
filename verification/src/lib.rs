//! A minimal HTTP/1.1 file-server library: request-line parsing, percent
//! decoding, path containment under a root directory, directory-listing
//! rendering, content classification, and response framing, each with a
//! verified contract.
//!
//! One request is handled per connection, in stages: [`request`] extracts
//! the target from the request line; [`paths`] decodes it and joins it under
//! the root; the embedding program canonicalizes that path on disk and
//! [`paths`] checks containment on the canonical form; the program then
//! observes what the path is on disk, and [`handler`] frames exactly one
//! response from that observation, via [`listing`], [`classify`] and
//! [`response`].

pub mod classify;
pub mod encoding;
pub mod handler;
pub mod listing;
pub mod numerals;
pub mod paths;
pub mod request;
pub mod response;
pub mod scan;
