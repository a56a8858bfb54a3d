use pool_decoder::decode::discriminator;
use pool_decoder::dispatch::{get_pool, FailingFetcher, FixtureFetcher};
use pool_decoder::error::{FetchError, PoolError, SchemaError};
use pool_decoder::pool::{Address, AmmPool, PoolKind, PoolType};

fn addr(byte: u8) -> Address {
    Address::new(vec![byte; 32]).unwrap()
}

fn selector_for(kind: PoolKind, address: Address) -> PoolType {
    match kind {
        PoolKind::PumpFun => PoolType::PumpFun {
            program_id: address,
        },
        PoolKind::RaydiumCpmmAmm => PoolType::RaydiumCpmmAmm {
            program_id: address,
        },
        PoolKind::RaydiumCamm => PoolType::RaydiumCamm {
            program_id: address,
        },
    }
}

#[test]
fn fetch_failure_returns_fetch_error() {
    let errors = vec![
        FetchError::AccountNotFound,
        FetchError::Unreachable,
        FetchError::RateLimited,
    ];
    for e in errors {
        let fetcher = FailingFetcher::new(e);
        let selector = PoolType::PumpFun {
            program_id: addr(5),
        };
        assert_eq!(
            get_pool(&selector, &fetcher),
            Err(PoolError::Fetch(e))
        );
    }
}

#[test]
fn get_pool_is_idempotent_on_identical_bytes() {
    let mut bytes = discriminator(PoolKind::PumpFun);
    bytes.extend_from_slice(&1u64.to_le_bytes());
    bytes.extend_from_slice(&2u64.to_le_bytes());
    bytes.extend_from_slice(&3u64.to_le_bytes());
    bytes.extend_from_slice(&4u16.to_le_bytes());
    bytes.extend_from_slice(&[6u8; 32]);
    let fetcher = FixtureFetcher::new(bytes);
    let selector = PoolType::PumpFun {
        program_id: addr(5),
    };
    let first = get_pool(&selector, &fetcher);
    let second = get_pool(&selector, &fetcher);
    assert!(first.is_ok());
    assert_eq!(first, second);
}

#[test]
fn scenario_pump_fun_two_hundred_byte_fixture() {
    // A 200-byte account image: the PumpFun discriminator, then the two
    // reserve amounts, the rest zero.
    let mut bytes = discriminator(PoolKind::PumpFun);
    bytes.extend_from_slice(&1000u64.to_le_bytes());
    bytes.extend_from_slice(&2000u64.to_le_bytes());
    while bytes.len() < 200 {
        bytes.push(0);
    }
    let selector = PoolType::PumpFun {
        program_id: addr(0xaa),
    };

    let fetcher = FixtureFetcher::new(bytes.clone());
    let r = get_pool(&selector, &fetcher);
    match r {
        Ok(AmmPool::PumpFun(p)) => {
            assert_eq!(p.base_reserve, 1000);
            assert_eq!(p.quote_reserve, 2000);
        }
        other => panic!("expected a PumpFun pool, got {:?}", other),
    }

    // The same bytes under the Raydium CPMM discriminator must be a
    // schema error.
    let foreign = discriminator(PoolKind::RaydiumCpmmAmm);
    let mut swapped = bytes;
    for i in 0..8 {
        swapped[i] = foreign[i];
    }
    let fetcher = FixtureFetcher::new(swapped);
    assert_eq!(
        get_pool(&selector, &fetcher),
        Err(PoolError::Schema(SchemaError::WrongDiscriminator))
    );
}

#[test]
fn schema_error_is_distinguishable_from_fetch_error() {
    let fetcher = FixtureFetcher::new(vec![1, 2, 3]);
    let selector = PoolType::RaydiumCamm {
        program_id: addr(1),
    };
    let r = get_pool(&selector, &fetcher);
    assert_eq!(
        r,
        Err(PoolError::Schema(SchemaError::MissingDiscriminator))
    );
    assert!(!matches!(r, Err(PoolError::Fetch(_))));
}

#[test]
fn selector_exposes_kind_address_and_name() {
    let selector = PoolType::RaydiumCpmmAmm {
        program_id: addr(0x11),
    };
    assert_eq!(selector.kind(), PoolKind::RaydiumCpmmAmm);
    assert_eq!(selector.program_id(), &addr(0x11));
    assert_eq!(selector.pool_name(), "Raydium CPMM AMM");

    let selector = PoolType::PumpFun {
        program_id: addr(0x22),
    };
    assert_eq!(selector.pool_name(), "PumpFun AMM");
    assert_eq!(selector.kind(), PoolKind::PumpFun);

    let selector = PoolType::RaydiumCamm {
        program_id: addr(0x33),
    };
    assert_eq!(selector.pool_name(), "Raydium CAMM");
    assert_eq!(selector.kind(), PoolKind::RaydiumCamm);
}

#[test]
fn decoded_pool_kind_matches_selector_kind() {
    let mut bytes = discriminator(PoolKind::RaydiumCamm);
    while bytes.len() < 43 {
        bytes.push(0);
    }
    let fetcher = FixtureFetcher::new(bytes);
    let selector = PoolType::RaydiumCamm {
        program_id: addr(9),
    };
    match get_pool(&selector, &fetcher) {
        Ok(pool) => assert_eq!(pool.kind(), PoolKind::RaydiumCamm),
        other => panic!("expected a decoded pool, got {:?}", other),
    }
}
