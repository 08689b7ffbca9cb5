//! A client library for the Neocities static-site-hosting API.
//!
//! The heart of the crate is the site catalog in [`site_info`]: it parses the
//! remote file manifest into typed entries and compares content hashes, so
//! that a publisher only uploads the files that actually changed. The HTTP
//! transport itself is deliberately kept out of this crate's scope; callers
//! hand the catalog the raw response text of the list endpoint.

use vstd::prelude::*;

pub mod hashing;
pub mod json;
pub mod site_info;

verus! {

/// The closed set of failures a catalog operation can surface.
///
/// Transport, local I/O, authentication and manifest-parse failures are kept
/// as one flat enum so that every fallible operation returns the same error
/// type. The payload of the first two variants is the underlying error's
/// message, rendered by the caller that performed the request or the read.
#[derive(Debug)]
pub enum NeocitiesError {
    /// An HTTP request failed before a response body could be read.
    RequestError(String),
    /// A local file could not be read.
    FileError(String),
    /// The operation needs authentication but the client has none.
    AuthError,
    /// The site item list was malformed or violated the manifest schema.
    ListParseError,
}

} // verus!
