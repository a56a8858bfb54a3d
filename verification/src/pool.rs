//! Pool selectors and decoded pool records.
//!
//! `PoolType` names one of the supported pool schemas together with the
//! account address to read; `AmmPool` is the tagged union of fully parsed
//! pool records that a successful decode produces.  Each executable record
//! has a ghost view so that contracts can speak of it in terms of plain
//! sequences and integers.

use vstd::prelude::*;

verus! {

/// Width of an on-chain account address, in bytes.
pub const ADDRESS_LEN: usize = 32;

/// A fixed-width binary account identifier.  It is opaque to the decoding
/// logic: it is only handed to the account fetcher and carried through into
/// decoded records.
#[derive(Debug, Clone, PartialEq, Eq)]
pub struct Address {
    bytes: Vec<u8>,
}

impl View for Address {
    type V = Seq<u8>;

    closed spec fn view(&self) -> Seq<u8> {
        self.bytes@
    }
}

impl Address {
    /// An address always holds exactly `ADDRESS_LEN` bytes.
    pub open spec fn wf(&self) -> bool {
        self@.len() == ADDRESS_LEN
    }

    /// Builds an address from exactly `ADDRESS_LEN` raw bytes; any other
    /// length is refused.
    pub fn new(bytes: Vec<u8>) -> (r: Option<Address>)
        ensures
            bytes@.len() == ADDRESS_LEN ==> (r matches Some(a) && a@ == bytes@ && a.wf()),
            bytes@.len() != ADDRESS_LEN ==> r is None,
    {
        if bytes.len() == ADDRESS_LEN {
            Some(Address { bytes })
        } else {
            None
        }
    }

    /// Builds an address from bytes already known to have the right width.
    pub(crate) fn from_raw(bytes: Vec<u8>) -> (r: Address)
        requires
            bytes@.len() == ADDRESS_LEN,
        ensures
            r@ == bytes@,
            r.wf(),
    {
        Address { bytes }
    }

    /// The raw bytes of the address.
    pub fn as_bytes(&self) -> (r: &Vec<u8>)
        ensures
            r@ == self@,
    {
        &self.bytes
    }
}

/// The closed set of pool account schemas the library understands.
#[derive(Debug, Clone, Copy, PartialEq, Eq, Structural)]
pub enum PoolKind {
    /// A PumpFun AMM pool account.
    PumpFun,
    /// A Raydium CPMM (constant-product) pool account.
    RaydiumCpmmAmm,
    /// A Raydium CAMM (concentrated-liquidity) pool account.
    RaydiumCamm,
}

/// Selects a pool schema together with the account address to read.  The
/// variant fixes the schema; the address is opaque and never mutated.
#[derive(Debug, Clone, PartialEq, Eq)]
pub enum PoolType {
    /// A PumpFun AMM pool at the given account address.
    PumpFun { program_id: Address },
    /// A Raydium CPMM pool at the given account address.
    RaydiumCpmmAmm { program_id: Address },
    /// A Raydium CAMM pool at the given account address.
    RaydiumCamm { program_id: Address },
}

impl PoolType {
    /// The schema kind this selector names.
    pub open spec fn spec_kind(&self) -> PoolKind {
        match self {
            PoolType::PumpFun { .. } => PoolKind::PumpFun,
            PoolType::RaydiumCpmmAmm { .. } => PoolKind::RaydiumCpmmAmm,
            PoolType::RaydiumCamm { .. } => PoolKind::RaydiumCamm,
        }
    }

    /// The bytes of the account address this selector carries.
    pub open spec fn spec_program_id(&self) -> Seq<u8> {
        match self {
            PoolType::PumpFun { program_id } => program_id@,
            PoolType::RaydiumCpmmAmm { program_id } => program_id@,
            PoolType::RaydiumCamm { program_id } => program_id@,
        }
    }

    /// The schema kind this selector names.
    pub fn kind(&self) -> (r: PoolKind)
        ensures
            r == self.spec_kind(),
    {
        match self {
            PoolType::PumpFun { .. } => PoolKind::PumpFun,
            PoolType::RaydiumCpmmAmm { .. } => PoolKind::RaydiumCpmmAmm,
            PoolType::RaydiumCamm { .. } => PoolKind::RaydiumCamm,
        }
    }

    /// The account address this selector carries.
    pub fn program_id(&self) -> (r: &Address)
        ensures
            r@ == self.spec_program_id(),
    {
        match self {
            PoolType::PumpFun { program_id } => program_id,
            PoolType::RaydiumCpmmAmm { program_id } => program_id,
            PoolType::RaydiumCamm { program_id } => program_id,
        }
    }

    /// A human-readable name for the schema kind.
    pub fn pool_name(&self) -> (r: &'static str)
        ensures
            r@ == self.spec_pool_name(),
    {
        match self {
            PoolType::PumpFun { .. } => "PumpFun AMM",
            PoolType::RaydiumCpmmAmm { .. } => "Raydium CPMM AMM",
            PoolType::RaydiumCamm { .. } => "Raydium CAMM",
        }
    }

    /// The name `pool_name` returns, one distinct name per kind.
    pub open spec fn spec_pool_name(&self) -> Seq<char> {
        match self {
            PoolType::PumpFun { .. } => "PumpFun AMM"@,
            PoolType::RaydiumCpmmAmm { .. } => "Raydium CPMM AMM"@,
            PoolType::RaydiumCamm { .. } => "Raydium CAMM"@,
        }
    }
}

/// A fully parsed PumpFun AMM pool account.
#[derive(Debug, Clone, PartialEq, Eq)]
pub struct PumpFunPool {
    pub base_reserve: u64,
    pub quote_reserve: u64,
    pub lp_supply: u64,
    pub fee_basis_points: u16,
    pub creator: Address,
}

/// Ghost view of a `PumpFunPool`.
#[verifier::ext_equal]
pub struct PumpFunPoolView {
    pub base_reserve: u64,
    pub quote_reserve: u64,
    pub lp_supply: u64,
    pub fee_basis_points: u16,
    pub creator: Seq<u8>,
}

impl View for PumpFunPool {
    type V = PumpFunPoolView;

    open spec fn view(&self) -> PumpFunPoolView {
        PumpFunPoolView {
            base_reserve: self.base_reserve,
            quote_reserve: self.quote_reserve,
            lp_supply: self.lp_supply,
            fee_basis_points: self.fee_basis_points,
            creator: self.creator@,
        }
    }
}

/// A fully parsed Raydium CPMM pool account.
#[derive(Debug, Clone, PartialEq, Eq)]
pub struct RaydiumCpmmPool {
    pub token_0_vault: Address,
    pub token_1_vault: Address,
    pub lp_supply: u64,
    pub protocol_fees_token_0: u64,
    pub protocol_fees_token_1: u64,
    pub status: u8,
}

/// Ghost view of a `RaydiumCpmmPool`.
#[verifier::ext_equal]
pub struct RaydiumCpmmPoolView {
    pub token_0_vault: Seq<u8>,
    pub token_1_vault: Seq<u8>,
    pub lp_supply: u64,
    pub protocol_fees_token_0: u64,
    pub protocol_fees_token_1: u64,
    pub status: u8,
}

impl View for RaydiumCpmmPool {
    type V = RaydiumCpmmPoolView;

    open spec fn view(&self) -> RaydiumCpmmPoolView {
        RaydiumCpmmPoolView {
            token_0_vault: self.token_0_vault@,
            token_1_vault: self.token_1_vault@,
            lp_supply: self.lp_supply,
            protocol_fees_token_0: self.protocol_fees_token_0,
            protocol_fees_token_1: self.protocol_fees_token_1,
            status: self.status,
        }
    }
}

/// A fully parsed Raydium CAMM (concentrated-liquidity) pool account.
#[derive(Debug, Clone, PartialEq, Eq)]
pub struct RaydiumCammPool {
    pub liquidity: u128,
    pub sqrt_price: u128,
    pub observation_index: u16,
    pub status: u8,
}

/// Ghost view of a `RaydiumCammPool`.
#[verifier::ext_equal]
pub struct RaydiumCammPoolView {
    pub liquidity: u128,
    pub sqrt_price: u128,
    pub observation_index: u16,
    pub status: u8,
}

impl View for RaydiumCammPool {
    type V = RaydiumCammPoolView;

    open spec fn view(&self) -> RaydiumCammPoolView {
        RaydiumCammPoolView {
            liquidity: self.liquidity,
            sqrt_price: self.sqrt_price,
            observation_index: self.observation_index,
            status: self.status,
        }
    }
}

/// The tagged union of decoded pool records, one variant per schema kind.
#[derive(Debug, Clone, PartialEq, Eq)]
pub enum AmmPool {
    /// A decoded PumpFun AMM pool.
    PumpFun(PumpFunPool),
    /// A decoded Raydium CPMM pool.
    RaydiumCpmmAmm(RaydiumCpmmPool),
    /// A decoded Raydium CAMM pool.
    RaydiumCamm(RaydiumCammPool),
}

/// Ghost view of an `AmmPool`.
#[verifier::ext_equal]
pub enum AmmPoolView {
    PumpFun(PumpFunPoolView),
    RaydiumCpmmAmm(RaydiumCpmmPoolView),
    RaydiumCamm(RaydiumCammPoolView),
}

impl View for AmmPool {
    type V = AmmPoolView;

    open spec fn view(&self) -> AmmPoolView {
        match self {
            AmmPool::PumpFun(p) => AmmPoolView::PumpFun(p@),
            AmmPool::RaydiumCpmmAmm(p) => AmmPoolView::RaydiumCpmmAmm(p@),
            AmmPool::RaydiumCamm(p) => AmmPoolView::RaydiumCamm(p@),
        }
    }
}

impl AmmPoolView {
    /// The schema kind a decoded record belongs to.
    pub open spec fn kind(&self) -> PoolKind {
        match self {
            AmmPoolView::PumpFun(_) => PoolKind::PumpFun,
            AmmPoolView::RaydiumCpmmAmm(_) => PoolKind::RaydiumCpmmAmm,
            AmmPoolView::RaydiumCamm(_) => PoolKind::RaydiumCamm,
        }
    }
}

impl AmmPool {
    /// The schema kind this decoded record belongs to.
    pub fn kind(&self) -> (r: PoolKind)
        ensures
            r == self@.kind(),
    {
        match self {
            AmmPool::PumpFun(_) => PoolKind::PumpFun,
            AmmPool::RaydiumCpmmAmm(_) => PoolKind::RaydiumCpmmAmm,
            AmmPool::RaydiumCamm(_) => PoolKind::RaydiumCamm,
        }
    }
}

} // verus!
