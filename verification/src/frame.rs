//! The frames of a body.

use vstd::prelude::*;

verus! {

/// `http::HeaderMap`, carried as an opaque value.
#[verifier::external_type_specification]
#[verifier::external_body]
#[verifier::reject_recursive_types(T)]
pub struct ExHeaderMap<T>(http::HeaderMap<T>);

/// `http::HeaderValue`, carried as an opaque value.
#[verifier::external_type_specification]
#[verifier::external_body]
pub struct ExHeaderValue(http::HeaderValue);

/// A frame of a body: a chunk of its bytes, or the trailers after them.
#[derive(Debug)]
pub enum Frame {
    /// A chunk of the body.
    Data(bytes::Bytes),
    /// The trailers.
    Trailers(http::HeaderMap),
}

} // verus!
