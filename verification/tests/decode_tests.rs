use pool_decoder::decode::{decode, discriminator, required_len};
use pool_decoder::error::SchemaError;
use pool_decoder::pool::{
    Address, AmmPool, PoolKind, PumpFunPool, RaydiumCammPool, RaydiumCpmmPool,
};

fn all_kinds() -> Vec<PoolKind> {
    vec![
        PoolKind::PumpFun,
        PoolKind::RaydiumCpmmAmm,
        PoolKind::RaydiumCamm,
    ]
}

fn pump_fun_fixture() -> Vec<u8> {
    let mut v = discriminator(PoolKind::PumpFun);
    v.extend_from_slice(&1000u64.to_le_bytes());
    v.extend_from_slice(&2000u64.to_le_bytes());
    v.extend_from_slice(&555_000u64.to_le_bytes());
    v.extend_from_slice(&30u16.to_le_bytes());
    v.extend_from_slice(&[7u8; 32]);
    assert_eq!(v.len(), required_len(PoolKind::PumpFun));
    v
}

fn raydium_cpmm_fixture() -> Vec<u8> {
    let mut v = discriminator(PoolKind::RaydiumCpmmAmm);
    v.extend_from_slice(&[1u8; 32]);
    v.extend_from_slice(&[2u8; 32]);
    v.extend_from_slice(&123_456u64.to_le_bytes());
    v.extend_from_slice(&11u64.to_le_bytes());
    v.extend_from_slice(&22u64.to_le_bytes());
    v.push(1);
    assert_eq!(v.len(), required_len(PoolKind::RaydiumCpmmAmm));
    v
}

fn raydium_camm_fixture() -> Vec<u8> {
    let mut v = discriminator(PoolKind::RaydiumCamm);
    v.extend_from_slice(&100_000_000_000_000_000_000u128.to_le_bytes());
    v.extend_from_slice(&79_228_162_514_264_337_593u128.to_le_bytes());
    v.extend_from_slice(&42u16.to_le_bytes());
    v.push(3);
    assert_eq!(v.len(), required_len(PoolKind::RaydiumCamm));
    v
}

fn fixture_for(kind: PoolKind) -> Vec<u8> {
    match kind {
        PoolKind::PumpFun => pump_fun_fixture(),
        PoolKind::RaydiumCpmmAmm => raydium_cpmm_fixture(),
        PoolKind::RaydiumCamm => raydium_camm_fixture(),
    }
}

fn addr(byte: u8) -> Address {
    Address::new(vec![byte; 32]).unwrap()
}

#[test]
fn pump_fun_fixture_decodes() {
    let r = decode(&pump_fun_fixture(), PoolKind::PumpFun);
    assert_eq!(
        r,
        Ok(AmmPool::PumpFun(PumpFunPool {
            base_reserve: 1000,
            quote_reserve: 2000,
            lp_supply: 555_000,
            fee_basis_points: 30,
            creator: addr(7),
        }))
    );
}

#[test]
fn raydium_cpmm_fixture_decodes() {
    let r = decode(&raydium_cpmm_fixture(), PoolKind::RaydiumCpmmAmm);
    assert_eq!(
        r,
        Ok(AmmPool::RaydiumCpmmAmm(RaydiumCpmmPool {
            token_0_vault: addr(1),
            token_1_vault: addr(2),
            lp_supply: 123_456,
            protocol_fees_token_0: 11,
            protocol_fees_token_1: 22,
            status: 1,
        }))
    );
}

#[test]
fn raydium_camm_fixture_decodes() {
    let r = decode(&raydium_camm_fixture(), PoolKind::RaydiumCamm);
    assert_eq!(
        r,
        Ok(AmmPool::RaydiumCamm(RaydiumCammPool {
            liquidity: 100_000_000_000_000_000_000,
            sqrt_price: 79_228_162_514_264_337_593,
            observation_index: 42,
            status: 3,
        }))
    );
}

#[test]
fn trailing_bytes_are_ignored() {
    for kind in all_kinds() {
        let exact = decode(&fixture_for(kind), kind);
        let mut padded = fixture_for(kind);
        padded.extend_from_slice(&[0xabu8; 64]);
        assert_eq!(decode(&padded, kind), exact);
        assert!(exact.is_ok());
    }
}

#[test]
fn wrong_discriminator_rejected_for_every_pair() {
    for kind in all_kinds() {
        for other in all_kinds() {
            if kind != other {
                let mut bytes = fixture_for(kind);
                let foreign = discriminator(other);
                for i in 0..8 {
                    bytes[i] = foreign[i];
                }
                assert_eq!(
                    decode(&bytes, kind),
                    Err(SchemaError::WrongDiscriminator)
                );
            }
        }
    }
}

#[test]
fn foreign_fixture_never_decodes_silently() {
    for kind in all_kinds() {
        for other in all_kinds() {
            if kind != other {
                let r = decode(&fixture_for(other), kind);
                assert_eq!(r, Err(SchemaError::WrongDiscriminator));
            }
        }
    }
}

#[test]
fn truncation_rejected_at_every_offset() {
    for kind in all_kinds() {
        let full = fixture_for(kind);
        for n in 0..required_len(kind) {
            let cut: Vec<u8> = full[..n].to_vec();
            let expected = if n < 8 {
                SchemaError::MissingDiscriminator
            } else {
                SchemaError::Truncated
            };
            assert_eq!(decode(&cut, kind), Err(expected));
        }
    }
}

#[test]
fn empty_bytes_missing_discriminator() {
    for kind in all_kinds() {
        assert_eq!(
            decode(&Vec::new(), kind),
            Err(SchemaError::MissingDiscriminator)
        );
    }
}

#[test]
fn exact_required_length_succeeds() {
    for kind in all_kinds() {
        let full = fixture_for(kind);
        assert_eq!(full.len(), required_len(kind));
        assert!(decode(&full, kind).is_ok());
    }
}

#[test]
fn address_new_rejects_wrong_length() {
    assert!(Address::new(vec![0u8; 31]).is_none());
    assert!(Address::new(vec![0u8; 33]).is_none());
    assert!(Address::new(Vec::new()).is_none());
    let a = Address::new(vec![9u8; 32]).unwrap();
    assert_eq!(a.as_bytes(), &vec![9u8; 32]);
}
