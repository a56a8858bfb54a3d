//! The schema registry and the pool decoder.
//!
//! Each supported kind owns a fixed eight-byte discriminator and a fixed
//! little-endian field layout.  `spec_decode` states, byte for byte, what
//! decoding means; the executable `decode` is proved to return exactly that.
//! Decoding is all-or-nothing: a wrong discriminator or a buffer that ends
//! before the last required field yields a schema error, never a partial
//! record.

use vstd::prelude::*;

use crate::bytes::{le_u16, le_u64, le_u128, read_u16_le, read_u64_le, read_u128_le, read_bytes};
use crate::error::SchemaError;
use crate::pool::{
    Address,
    AmmPool,
    AmmPoolView,
    PoolKind,
    PumpFunPool,
    PumpFunPoolView,
    RaydiumCammPool,
    RaydiumCammPoolView,
    RaydiumCpmmPool,
    RaydiumCpmmPoolView,
};

verus! {

/// Width of the schema discriminator prefix, in bytes.
pub const DISCRIMINATOR_LEN: usize = 8;

/// The eight-byte discriminator that the owning program writes at the start
/// of every account of the given kind.
pub open spec fn spec_discriminator(kind: PoolKind) -> Seq<u8> {
    match kind {
        PoolKind::PumpFun => seq![0xf1u8, 0x9au8, 0x6du8, 0x04u8, 0x11u8, 0xb1u8, 0x6du8, 0xbcu8],
        PoolKind::RaydiumCpmmAmm => seq![
            0xf7u8,
            0xedu8,
            0xe3u8,
            0xf5u8,
            0xd7u8,
            0xc3u8,
            0xdeu8,
            0x46u8,
        ],
        PoolKind::RaydiumCamm => seq![0x0au8, 0x5du8, 0x33u8, 0x7du8, 0x8eu8, 0x8du8, 0xaau8, 0x71u8],
    }
}

/// The discriminator of a kind, as a byte vector.
pub fn discriminator(kind: PoolKind) -> (r: Vec<u8>)
    ensures
        r@ == spec_discriminator(kind),
{
    let mut v: Vec<u8> = Vec::new();
    match kind {
        PoolKind::PumpFun => {
            v.push(0xf1);
            v.push(0x9a);
            v.push(0x6d);
            v.push(0x04);
            v.push(0x11);
            v.push(0xb1);
            v.push(0x6d);
            v.push(0xbc);
        },
        PoolKind::RaydiumCpmmAmm => {
            v.push(0xf7);
            v.push(0xed);
            v.push(0xe3);
            v.push(0xf5);
            v.push(0xd7);
            v.push(0xc3);
            v.push(0xde);
            v.push(0x46);
        },
        PoolKind::RaydiumCamm => {
            v.push(0x0a);
            v.push(0x5d);
            v.push(0x33);
            v.push(0x7d);
            v.push(0x8e);
            v.push(0x8d);
            v.push(0xaa);
            v.push(0x71);
        },
    }
    proof {
        assert(v@ =~= spec_discriminator(kind));
    }
    v
}

/// Number of bytes a buffer must hold for every required field of the given
/// kind to be readable.
pub open spec fn spec_required_len(kind: PoolKind) -> int {
    match kind {
        PoolKind::PumpFun => 66,
        PoolKind::RaydiumCpmmAmm => 97,
        PoolKind::RaydiumCamm => 43,
    }
}

/// Exec copy of `spec_required_len`.
pub fn required_len(kind: PoolKind) -> (r: usize)
    ensures
        r == spec_required_len(kind),
{
    match kind {
        PoolKind::PumpFun => 66,
        PoolKind::RaydiumCpmmAmm => 97,
        PoolKind::RaydiumCamm => 43,
    }
}

/// The fields of a PumpFun pool, read from their fixed offsets.
pub open spec fn spec_decode_pump_fun(bytes: Seq<u8>) -> PumpFunPoolView
    recommends
        bytes.len() >= spec_required_len(PoolKind::PumpFun),
{
    PumpFunPoolView {
        base_reserve: le_u64(bytes.subrange(8, 16)) as u64,
        quote_reserve: le_u64(bytes.subrange(16, 24)) as u64,
        lp_supply: le_u64(bytes.subrange(24, 32)) as u64,
        fee_basis_points: le_u16(bytes.subrange(32, 34)) as u16,
        creator: bytes.subrange(34, 66),
    }
}

/// The fields of a Raydium CPMM pool, read from their fixed offsets.
pub open spec fn spec_decode_raydium_cpmm(bytes: Seq<u8>) -> RaydiumCpmmPoolView
    recommends
        bytes.len() >= spec_required_len(PoolKind::RaydiumCpmmAmm),
{
    RaydiumCpmmPoolView {
        token_0_vault: bytes.subrange(8, 40),
        token_1_vault: bytes.subrange(40, 72),
        lp_supply: le_u64(bytes.subrange(72, 80)) as u64,
        protocol_fees_token_0: le_u64(bytes.subrange(80, 88)) as u64,
        protocol_fees_token_1: le_u64(bytes.subrange(88, 96)) as u64,
        status: bytes[96],
    }
}

/// The fields of a Raydium CAMM pool, read from their fixed offsets.
pub open spec fn spec_decode_raydium_camm(bytes: Seq<u8>) -> RaydiumCammPoolView
    recommends
        bytes.len() >= spec_required_len(PoolKind::RaydiumCamm),
{
    RaydiumCammPoolView {
        liquidity: le_u128(bytes.subrange(8, 24)) as u128,
        sqrt_price: le_u128(bytes.subrange(24, 40)) as u128,
        observation_index: le_u16(bytes.subrange(40, 42)) as u16,
        status: bytes[42],
    }
}

/// The record a successful decode of the given kind produces.
pub open spec fn spec_decode_fields(bytes: Seq<u8>, kind: PoolKind) -> AmmPoolView
    recommends
        bytes.len() >= spec_required_len(kind),
{
    match kind {
        PoolKind::PumpFun => AmmPoolView::PumpFun(spec_decode_pump_fun(bytes)),
        PoolKind::RaydiumCpmmAmm => AmmPoolView::RaydiumCpmmAmm(spec_decode_raydium_cpmm(bytes)),
        PoolKind::RaydiumCamm => AmmPoolView::RaydiumCamm(spec_decode_raydium_camm(bytes)),
    }
}

/// What decoding a buffer as the given kind yields: the schema error that
/// rejects it, or the fully parsed record.
pub open spec fn spec_decode(bytes: Seq<u8>, kind: PoolKind) -> Result<AmmPoolView, SchemaError> {
    if bytes.len() < DISCRIMINATOR_LEN {
        Err(SchemaError::MissingDiscriminator)
    } else if bytes.subrange(0, DISCRIMINATOR_LEN as int) != spec_discriminator(kind) {
        Err(SchemaError::WrongDiscriminator)
    } else if bytes.len() < spec_required_len(kind) {
        Err(SchemaError::Truncated)
    } else {
        Ok(spec_decode_fields(bytes, kind))
    }
}

/// Ghost view of an executable decode result.
pub open spec fn decoded_view(r: Result<AmmPool, SchemaError>) -> Result<AmmPoolView, SchemaError> {
    match r {
        Ok(p) => Ok(p@),
        Err(e) => Err(e),
    }
}

/// True exactly when the buffer starts with the discriminator of `kind`.
fn matches_discriminator(bytes: &Vec<u8>, kind: PoolKind) -> (r: bool)
    requires
        bytes@.len() >= DISCRIMINATOR_LEN,
    ensures
        r <==> bytes@.subrange(0, DISCRIMINATOR_LEN as int) == spec_discriminator(kind),
{
    let d = discriminator(kind);
    let mut i: usize = 0;
    while i < DISCRIMINATOR_LEN
        invariant
            bytes@.len() >= DISCRIMINATOR_LEN,
            d@ == spec_discriminator(kind),
            i <= DISCRIMINATOR_LEN,
            forall|j: int| 0 <= j < i ==> bytes@[j] == d@[j],
        decreases DISCRIMINATOR_LEN - i,
    {
        proof {
            assert(d@.len() == 8);
        }
        if bytes[i] != d[i] {
            proof {
                assert(bytes@.subrange(0, DISCRIMINATOR_LEN as int)[i as int] == bytes@[i as int]);
            }
            return false;
        }
        i = i + 1;
    }
    proof {
        assert(bytes@.subrange(0, DISCRIMINATOR_LEN as int) =~= d@);
    }
    true
}

/// Parses the PumpFun field layout.
fn decode_pump_fun(bytes: &Vec<u8>) -> (r: PumpFunPool)
    requires
        bytes@.len() >= spec_required_len(PoolKind::PumpFun),
    ensures
        r@ == spec_decode_pump_fun(bytes@),
{
    let r = PumpFunPool {
        base_reserve: read_u64_le(bytes, 8),
        quote_reserve: read_u64_le(bytes, 16),
        lp_supply: read_u64_le(bytes, 24),
        fee_basis_points: read_u16_le(bytes, 32),
        creator: Address::from_raw(read_bytes(bytes, 34, 32)),
    };
    proof {
        assert(r@ =~= spec_decode_pump_fun(bytes@));
    }
    r
}

/// Parses the Raydium CPMM field layout.
fn decode_raydium_cpmm(bytes: &Vec<u8>) -> (r: RaydiumCpmmPool)
    requires
        bytes@.len() >= spec_required_len(PoolKind::RaydiumCpmmAmm),
    ensures
        r@ == spec_decode_raydium_cpmm(bytes@),
{
    let r = RaydiumCpmmPool {
        token_0_vault: Address::from_raw(read_bytes(bytes, 8, 32)),
        token_1_vault: Address::from_raw(read_bytes(bytes, 40, 32)),
        lp_supply: read_u64_le(bytes, 72),
        protocol_fees_token_0: read_u64_le(bytes, 80),
        protocol_fees_token_1: read_u64_le(bytes, 88),
        status: bytes[96],
    };
    proof {
        assert(r@ =~= spec_decode_raydium_cpmm(bytes@));
    }
    r
}

/// Parses the Raydium CAMM field layout.
fn decode_raydium_camm(bytes: &Vec<u8>) -> (r: RaydiumCammPool)
    requires
        bytes@.len() >= spec_required_len(PoolKind::RaydiumCamm),
    ensures
        r@ == spec_decode_raydium_camm(bytes@),
{
    let r = RaydiumCammPool {
        liquidity: read_u128_le(bytes, 8),
        sqrt_price: read_u128_le(bytes, 24),
        observation_index: read_u16_le(bytes, 40),
        status: bytes[42],
    };
    proof {
        assert(r@ =~= spec_decode_raydium_camm(bytes@));
    }
    r
}

/// Decodes an account byte buffer as the given kind.  Returns exactly what
/// `spec_decode` states: a schema error for a short or mismatching buffer,
/// and the fully parsed record otherwise.
pub fn decode(bytes: &Vec<u8>, kind: PoolKind) -> (r: Result<AmmPool, SchemaError>)
    ensures
        decoded_view(r) == spec_decode(bytes@, kind),
{
    if bytes.len() < DISCRIMINATOR_LEN {
        return Err(SchemaError::MissingDiscriminator);
    }
    if !matches_discriminator(bytes, kind) {
        return Err(SchemaError::WrongDiscriminator);
    }
    if bytes.len() < required_len(kind) {
        return Err(SchemaError::Truncated);
    }
    let pool = match kind {
        PoolKind::PumpFun => AmmPool::PumpFun(decode_pump_fun(bytes)),
        PoolKind::RaydiumCpmmAmm => AmmPool::RaydiumCpmmAmm(decode_raydium_cpmm(bytes)),
        PoolKind::RaydiumCamm => AmmPool::RaydiumCamm(decode_raydium_camm(bytes)),
    };
    Ok(pool)
}

} // verus!
