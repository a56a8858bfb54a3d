//! The two-kind error taxonomy of the library.
//!
//! A dispatch can fail in exactly two distinguishable ways: the account bytes
//! could not be retrieved at all, or they were retrieved but do not conform
//! to the requested schema.  The two categories are never mixed or silently
//! downgraded.

use vstd::prelude::*;

verus! {

/// Why the account bytes could not be retrieved.
#[derive(Debug, Clone, Copy, PartialEq, Eq, Structural)]
pub enum FetchError {
    /// No account exists at the requested address.
    AccountNotFound,
    /// The endpoint could not be reached or timed out.
    Unreachable,
    /// The endpoint refused the request because of rate limiting.
    RateLimited,
}

/// Why retrieved bytes do not conform to the requested schema.
#[derive(Debug, Clone, Copy, PartialEq, Eq, Structural)]
pub enum SchemaError {
    /// The buffer is shorter than the schema discriminator.
    MissingDiscriminator,
    /// The discriminator prefix is not the one of the requested schema.
    WrongDiscriminator,
    /// The discriminator matched but the buffer ends before the last
    /// required field.
    Truncated,
}

/// A classified dispatch failure: either the fetch layer failed, or the
/// bytes did not match the schema.
#[derive(Debug, Clone, Copy, PartialEq, Eq, Structural)]
pub enum PoolError {
    /// The account could not be retrieved; carries the fetch-layer cause.
    Fetch(FetchError),
    /// The account bytes did not match the requested schema; carries the
    /// schema-layer cause.
    Schema(SchemaError),
}

} // verus!
