//! Creating an isolated lending market.
use vstd::prelude::*;

use crate::constants::{
    ISSUER_RISK_CEILING_BPS, LIQUIDATION_BONUS_BPS, LIQUIDATION_THRESHOLD_BPS, MAX_LIQUIDATION_BPS,
    MAX_LTV_BPS, MIN_LTV_BPS, PRESTOCKS_TRANSFER_FEE_BPS, REFERENCE_LIQUIDATION_SIZE_USDC,
};
use crate::error::LendingError;
use crate::key::{spec_zero_key, AccountKey};
use crate::state::MarketConfig;

verus! {

/// The parameters that the market authority chooses.
#[derive(Debug, Clone, Copy)]
pub struct InitializeMarketParams {
    pub collateral_mint: AccountKey,
    pub debt_mint: AccountKey,
    pub dlmm_pool: AccountKey,
    pub collateral_price_usdc: u64,
}

/// What initialization reads: the signing authority and the bump of the market's
/// derived address.
#[derive(Debug, Clone, Copy)]
pub struct Initialize {
    pub authority: AccountKey,
    pub market_bump: u8,
}

/// Whether the parameters describe a usable market: every address set and a positive price.
pub open spec fn spec_valid_market_params(params: InitializeMarketParams) -> bool {
    &&& params.collateral_mint@ != spec_zero_key()
    &&& params.debt_mint@ != spec_zero_key()
    &&& params.dlmm_pool@ != spec_zero_key()
    &&& params.collateral_price_usdc > 0
}

/// The market that initialization writes: the chosen addresses and price, the signer as
/// authority, and the protocol's fixed risk parameters.
pub open spec fn spec_initialized_market(accounts: Initialize, params: InitializeMarketParams, market: MarketConfig) -> bool {
    &&& market.collateral_mint@ == params.collateral_mint@
    &&& market.debt_mint@ == params.debt_mint@
    &&& market.dlmm_pool@ == params.dlmm_pool@
    &&& market.collateral_price_usdc == params.collateral_price_usdc
    &&& market.authority@ == accounts.authority@
    &&& market.max_ltv_bps == MAX_LTV_BPS
    &&& market.min_ltv_bps == MIN_LTV_BPS
    &&& market.liquidation_threshold_bps == LIQUIDATION_THRESHOLD_BPS
    &&& market.liquidation_bonus_bps == LIQUIDATION_BONUS_BPS
    &&& market.max_liquidation_bps == MAX_LIQUIDATION_BPS
    &&& market.reference_liquidation_size_usdc == REFERENCE_LIQUIDATION_SIZE_USDC
    &&& market.issuer_risk_ceiling_bps == ISSUER_RISK_CEILING_BPS
    &&& market.transfer_fee_bps == PRESTOCKS_TRANSFER_FEE_BPS
    &&& market.bump == accounts.market_bump
}

/// Creates the configuration of a new market, refusing unset addresses and a zero price.
pub fn handle_initialize(accounts: &Initialize, params: InitializeMarketParams) -> (r: Result<MarketConfig, LendingError>)
    ensures
        r is Err <==> !spec_valid_market_params(params),
        r is Err ==> r == Err::<MarketConfig, LendingError>(LendingError::InvalidMarketConfig),
        r matches Ok(market) ==> spec_initialized_market(*accounts, params, market),
{
    if params.collateral_mint.is_zero() {
        return Err(LendingError::InvalidMarketConfig);
    }
    if params.debt_mint.is_zero() {
        return Err(LendingError::InvalidMarketConfig);
    }
    if params.dlmm_pool.is_zero() {
        return Err(LendingError::InvalidMarketConfig);
    }
    if params.collateral_price_usdc == 0 {
        return Err(LendingError::InvalidMarketConfig);
    }
    if !(MIN_LTV_BPS < MAX_LTV_BPS) {
        return Err(LendingError::InvalidLtvConfiguration);
    }
    if !(MAX_LTV_BPS < LIQUIDATION_THRESHOLD_BPS) {
        return Err(LendingError::InvalidLtvConfiguration);
    }
    if !(LIQUIDATION_BONUS_BPS < 10_000) {
        return Err(LendingError::InvalidLtvConfiguration);
    }
    if !(MAX_LIQUIDATION_BPS > 0 && MAX_LIQUIDATION_BPS <= 10_000) {
        return Err(LendingError::InvalidLtvConfiguration);
    }
    if !(ISSUER_RISK_CEILING_BPS <= MAX_LTV_BPS) {
        return Err(LendingError::InvalidLtvConfiguration);
    }
    if !(PRESTOCKS_TRANSFER_FEE_BPS < 10_000) {
        return Err(LendingError::InvalidMarketConfig);
    }
    Ok(
        MarketConfig {
            collateral_mint: params.collateral_mint,
            debt_mint: params.debt_mint,
            collateral_price_usdc: params.collateral_price_usdc,
            dlmm_pool: params.dlmm_pool,
            authority: accounts.authority,
            max_ltv_bps: MAX_LTV_BPS,
            min_ltv_bps: MIN_LTV_BPS,
            liquidation_threshold_bps: LIQUIDATION_THRESHOLD_BPS,
            liquidation_bonus_bps: LIQUIDATION_BONUS_BPS,
            max_liquidation_bps: MAX_LIQUIDATION_BPS,
            reference_liquidation_size_usdc: REFERENCE_LIQUIDATION_SIZE_USDC,
            issuer_risk_ceiling_bps: ISSUER_RISK_CEILING_BPS,
            transfer_fee_bps: PRESTOCKS_TRANSFER_FEE_BPS,
            bump: accounts.market_bump,
        },
    )
}

} // verus!
