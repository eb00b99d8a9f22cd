use vstd::prelude::*;

verus! {

/// A persisted association between a caller-chosen slug and a destination URL.
#[derive(Debug, PartialEq)]
pub struct Link {
    pub slug: String,
    pub url: String,
}

/// A storage-layer failure. A duplicate slug is an expected, non-fatal outcome
/// that callers handle as a distinct case; everything else (connection
/// exhaustion, I/O failure) is surfaced as `StorageUnavailable`.
#[derive(Debug, PartialEq)]
pub enum StoreError {
    DuplicateSlug,
    StorageUnavailable,
}

/// The outcome of a store lookup. Absence is a normal, expected result,
/// distinct from a storage failure.
#[derive(Debug, PartialEq)]
pub enum LookupOutcome {
    Found(Link),
    NotFound,
    Error(StoreError),
}

/// The outcome of resolving a slug, for the transport layer to render.
#[derive(Debug, PartialEq)]
pub enum ResolveOutcome {
    Redirect(String),
    NotFound,
    InternalError,
}

/// The outcome of registering a slug, for the transport layer to render.
#[derive(Debug, PartialEq)]
pub enum RegisterOutcome {
    Created(String, String),
    Conflict(String),
    Forbidden,
    Unauthorized,
    BadRequest,
    InternalError,
}

} // verus!
