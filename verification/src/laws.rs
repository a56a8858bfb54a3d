//! Laws of the decoder and the dispatcher, stated over the ghost model and
//! proved once for all inputs.

use vstd::prelude::*;

use crate::decode::{
    spec_decode,
    spec_decode_fields,
    spec_discriminator,
    spec_required_len,
    DISCRIMINATOR_LEN,
};
use crate::dispatch::spec_get_pool;
use crate::error::{FetchError, PoolError, SchemaError};
use crate::pool::{AmmPoolView, PoolKind, PoolType};

verus! {

/// Distinct kinds carry distinct discriminators; the registry never lets two
/// schemas share a tag.
pub proof fn lemma_discriminators_distinct(k1: PoolKind, k2: PoolKind)
    requires
        k1 != k2,
    ensures
        spec_discriminator(k1) != spec_discriminator(k2),
{
    assert(spec_discriminator(k1)[0] != spec_discriminator(k2)[0]);
}

/// A buffer that starts with a kind's discriminator and reaches that kind's
/// required length always decodes, and the result is that kind's fully
/// parsed record — every field read from its fixed offset, none invented.
pub proof fn lemma_valid_fixture_decodes(bytes: Seq<u8>, kind: PoolKind)
    requires
        bytes.len() >= spec_required_len(kind),
        bytes.subrange(0, DISCRIMINATOR_LEN as int) == spec_discriminator(kind),
    ensures
        spec_decode(bytes, kind) == Ok::<AmmPoolView, SchemaError>(spec_decode_fields(bytes, kind)),
{
}

/// A successful decode always carries the variant of the requested kind:
/// the tag of the record matches the schema that was asked for.
pub proof fn lemma_decode_kind_matches(bytes: Seq<u8>, kind: PoolKind, p: AmmPoolView)
    requires
        spec_decode(bytes, kind) == Ok::<AmmPoolView, SchemaError>(p),
    ensures
        p.kind() == kind,
{
}

/// Bytes whose discriminator belongs to a different kind are rejected with
/// a schema error, never decoded as the requested kind.
pub proof fn lemma_wrong_discriminator_rejected(bytes: Seq<u8>, kind: PoolKind, other: PoolKind)
    requires
        kind != other,
        bytes.len() >= DISCRIMINATOR_LEN,
        bytes.subrange(0, DISCRIMINATOR_LEN as int) == spec_discriminator(other),
    ensures
        spec_decode(bytes, kind) == Err::<AmmPoolView, SchemaError>(SchemaError::WrongDiscriminator),
{
    lemma_discriminators_distinct(kind, other);
}

/// Truncating a valid fixture at any offset before its last required byte
/// yields a schema error, never a partially populated record: before the
/// discriminator is complete the discriminator is reported missing, after
/// that the buffer is reported truncated.
pub proof fn lemma_truncation_rejected(bytes: Seq<u8>, kind: PoolKind, n: int)
    requires
        bytes.len() >= spec_required_len(kind),
        bytes.subrange(0, DISCRIMINATOR_LEN as int) == spec_discriminator(kind),
        0 <= n < spec_required_len(kind),
    ensures
        n < DISCRIMINATOR_LEN ==> spec_decode(bytes.subrange(0, n), kind) == Err::<
            AmmPoolView,
            SchemaError,
        >(SchemaError::MissingDiscriminator),
        n >= DISCRIMINATOR_LEN ==> spec_decode(bytes.subrange(0, n), kind) == Err::<
            AmmPoolView,
            SchemaError,
        >(SchemaError::Truncated),
{
    let t = bytes.subrange(0, n);
    if n >= DISCRIMINATOR_LEN {
        assert(t.subrange(0, DISCRIMINATOR_LEN as int) =~= bytes.subrange(
            0,
            DISCRIMINATOR_LEN as int,
        ));
    }
}

/// A fetch failure short-circuits dispatch: the result is that very fetch
/// error, and no byte buffer exists for a decoder to look at.
pub proof fn lemma_fetch_failure_short_circuits(pool_type: &PoolType, e: FetchError)
    ensures
        spec_get_pool(pool_type, Err(e)) == Err::<AmmPoolView, PoolError>(PoolError::Fetch(e)),
{
}

/// Dispatch is deterministic in the fetch outcome: the same selector and the
/// same fetched bytes give structurally equal results, so two calls against
/// a fetcher that answers identically twice agree.
pub proof fn lemma_get_pool_deterministic(
    pool_type: &PoolType,
    fetched: Result<Seq<u8>, FetchError>,
    r1: Result<AmmPoolView, PoolError>,
    r2: Result<AmmPoolView, PoolError>,
)
    requires
        r1 == spec_get_pool(pool_type, fetched),
        r2 == spec_get_pool(pool_type, fetched),
    ensures
        r1 == r2,
{
}

/// A successful dispatch always hands back a record of the selector's own
/// kind.
pub proof fn lemma_get_pool_kind_matches(
    pool_type: &PoolType,
    fetched: Result<Seq<u8>, FetchError>,
    p: AmmPoolView,
)
    requires
        spec_get_pool(pool_type, fetched) == Ok::<AmmPoolView, PoolError>(p),
    ensures
        p.kind() == pool_type.spec_kind(),
{
    match fetched {
        Ok(bytes) => {
            lemma_decode_kind_matches(bytes, pool_type.spec_kind(), p);
        },
        Err(_) => {},
    }
}

} // verus!
