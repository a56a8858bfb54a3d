//! The dispatcher: from a pool selector and an account fetcher to a decoded
//! pool or a classified error.
//!
//! The fetcher is an injected capability.  `get_pool` asks it exactly once
//! for the bytes at the selector's address; a fetch failure short-circuits
//! to a fetch error without any decode attempt, and retrieved bytes are
//! decoded under the selector's schema kind.

use vstd::prelude::*;

use crate::bytes::copy_bytes;
use crate::decode::{decode, spec_decode};
use crate::error::{FetchError, PoolError};
use crate::pool::{Address, AmmPool, AmmPoolView, PoolType};

verus! {

/// Ghost view of a fetch result.
pub open spec fn fetched_view(r: Result<Vec<u8>, FetchError>) -> Result<Seq<u8>, FetchError> {
    match r {
        Ok(v) => Ok(v@),
        Err(e) => Err(e),
    }
}

/// The account-fetcher capability: one operation that returns the raw byte
/// content of the account at an address, or fails.  Retry policy, timeouts
/// and transport belong to the implementation, never to the dispatcher.
pub trait AccountFetcher {
    /// The outcome this fetcher yields for an address.
    spec fn spec_fetch(&self, address: Seq<u8>) -> Result<Seq<u8>, FetchError>;

    /// One round trip for the raw bytes of the account at `address`.
    fn get_account_bytes(&self, address: &Address) -> (r: Result<Vec<u8>, FetchError>)
        ensures
            fetched_view(r) == self.spec_fetch(address@),
    ;
}

/// A fetcher that serves the same stored byte content for every address,
/// standing in for a chain whose account data is known ahead of time.
pub struct FixtureFetcher {
    bytes: Vec<u8>,
}

impl FixtureFetcher {
    /// The byte content this fetcher serves.
    pub closed spec fn spec_bytes(&self) -> Seq<u8> {
        self.bytes@
    }

    /// Builds a fetcher that serves `bytes`.
    pub fn new(bytes: Vec<u8>) -> (r: FixtureFetcher)
        ensures
            r.spec_bytes() == bytes@,
    {
        FixtureFetcher { bytes }
    }
}

impl AccountFetcher for FixtureFetcher {
    open spec fn spec_fetch(&self, address: Seq<u8>) -> Result<Seq<u8>, FetchError> {
        Ok(self.spec_bytes())
    }

    fn get_account_bytes(&self, address: &Address) -> (r: Result<Vec<u8>, FetchError>) {
        Ok(copy_bytes(&self.bytes))
    }
}

/// A fetcher that fails every request with a fixed fetch error, standing in
/// for an endpoint that is down or knows no such account.
pub struct FailingFetcher {
    error: FetchError,
}

impl FailingFetcher {
    /// The error this fetcher reports.
    pub closed spec fn spec_error(&self) -> FetchError {
        self.error
    }

    /// Builds a fetcher that always fails with `error`.
    pub fn new(error: FetchError) -> (r: FailingFetcher)
        ensures
            r.spec_error() == error,
    {
        FailingFetcher { error }
    }
}

impl AccountFetcher for FailingFetcher {
    open spec fn spec_fetch(&self, address: Seq<u8>) -> Result<Seq<u8>, FetchError> {
        Err(self.spec_error())
    }

    fn get_account_bytes(&self, address: &Address) -> (r: Result<Vec<u8>, FetchError>) {
        Err(self.error)
    }
}

/// What dispatching yields for a selector kind and a fetch outcome: the
/// fetch error unchanged, or the decode of the fetched bytes with any
/// schema error classified as such.
pub open spec fn spec_get_pool(
    pool_type: &PoolType,
    fetched: Result<Seq<u8>, FetchError>,
) -> Result<AmmPoolView, PoolError> {
    match fetched {
        Err(e) => Err(PoolError::Fetch(e)),
        Ok(bytes) => match spec_decode(bytes, pool_type.spec_kind()) {
            Ok(p) => Ok(p),
            Err(e) => Err(PoolError::Schema(e)),
        },
    }
}

/// Ghost view of a dispatch result.
pub open spec fn pool_result_view(r: Result<AmmPool, PoolError>) -> Result<AmmPoolView, PoolError> {
    match r {
        Ok(p) => Ok(p@),
        Err(e) => Err(e),
    }
}

/// Fetches the account at the selector's address — exactly one round trip —
/// and decodes it under the selector's schema kind.  The result is exactly
/// `spec_get_pool` of the fetch outcome: a fetch failure comes back as a
/// fetch error with no decode attempt, bytes that do not match the schema
/// come back as a schema error, and anything else is the decoded pool of
/// the selector's own kind.
pub fn get_pool<F: AccountFetcher>(pool_type: &PoolType, fetcher: &F) -> (r: Result<
    AmmPool,
    PoolError,
>)
    ensures
        pool_result_view(r) == spec_get_pool(pool_type, fetcher.spec_fetch(pool_type.spec_program_id())),
{
    let address = pool_type.program_id();
    match fetcher.get_account_bytes(address) {
        Err(e) => Err(PoolError::Fetch(e)),
        Ok(bytes) => match decode(&bytes, pool_type.kind()) {
            Ok(pool) => Ok(pool),
            Err(e) => Err(PoolError::Schema(e)),
        },
    }
}

} // verus!
