//! The error taxonomy of the pipeline. Every failure except a cache write
//! aborts the whole operation; a cache write failure only degrades the cache,
//! never correctness.

use vstd::prelude::*;

verus! {

/// An existing cache record held data that does not parse as an interface
/// definition. A missing record is an ordinary miss, never this error.
#[derive(Clone, Copy, PartialEq, Eq, Structural, Debug)]
pub struct CacheError;

/// Writing a cache record failed. Non-fatal: the cache is an optimization,
/// so callers are expected to continue without it.
#[derive(Clone, Copy, PartialEq, Eq, Structural, Debug)]
pub struct IoError;

/// Why an interface definition could not be resolved for an address.
#[derive(Clone, Copy, PartialEq, Eq, Structural, Debug)]
pub enum ResolveError {
    /// The interface-lookup service returned no metadata item.
    NotFound,
    /// The service returned an item whose interface text fails to parse.
    Malformed,
    /// The service itself could not be reached or answered with a failure.
    ServiceUnavailable,
}

/// Why a registry or ledger query did not yield a usable answer.
#[derive(Clone, Copy, PartialEq, Eq, Structural, Debug)]
pub enum QueryError {
    /// The registry answered with the all-zero address: the name is not
    /// registered. Never surfaced as a usable address.
    Unresolved,
    /// The ledger read service failed to answer the call.
    RpcFailure,
}

} // verus!
