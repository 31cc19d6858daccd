//! Publishing an observation of executable liquidity.
use vstd::prelude::*;

use crate::error::LendingError;
use crate::key::AccountKey;
use crate::risk_engine::{execution_ltv_from_quote, spec_execution_ltv_from_quote};
use crate::state::{LiquidityRiskSnapshot, MarketConfig};

verus! {

/// What publishing a liquidity snapshot reads: the signer, the market (its address and
/// configuration) and the bump of the snapshot's derived address.
#[derive(Debug, Clone, Copy)]
pub struct UpdateLiquidityRisk {
    pub authority: AccountKey,
    pub market_key: AccountKey,
    pub market: MarketConfig,
    pub risk_snapshot_bump: u8,
}

/// What `handle_update_liquidity_risk` gives: the refusal, or the snapshot it writes.
pub open spec fn spec_update_liquidity_risk(
    accounts: UpdateLiquidityRisk,
    quote_collateral_in: u64,
    quote_usdc_out: u64,
    current_slot: u64,
    r: Result<LiquidityRiskSnapshot, LendingError>,
) -> bool {
    if accounts.market.authority@ != accounts.authority@ {
        r == Err::<LiquidityRiskSnapshot, LendingError>(LendingError::InvalidMarketConfig)
    } else if quote_collateral_in == 0 || quote_usdc_out == 0 {
        r == Err::<LiquidityRiskSnapshot, LendingError>(LendingError::InvalidAmount)
    } else if spec_execution_ltv_from_quote(accounts.market, quote_usdc_out) is Err {
        r == Err::<LiquidityRiskSnapshot, LendingError>(
            spec_execution_ltv_from_quote(accounts.market, quote_usdc_out)->Err_0,
        )
    } else {
        r matches Ok(snapshot) && snapshot.market@ == accounts.market_key@ && snapshot.quote_collateral_in
            == quote_collateral_in && snapshot.quote_usdc_out == quote_usdc_out && snapshot.observed_slot
            == current_slot && snapshot.bump == accounts.risk_snapshot_bump
    }
}

/// Records a liquidity quote published by the market authority at `current_slot`.
/// The authority publishes the quote, not an LTV: the quote must yield a valid
/// execution LTV, which the program derives itself.
pub fn handle_update_liquidity_risk(
    accounts: &UpdateLiquidityRisk,
    quote_collateral_in: u64,
    quote_usdc_out: u64,
    current_slot: u64,
) -> (r: Result<LiquidityRiskSnapshot, LendingError>)
    ensures
        spec_update_liquidity_risk(*accounts, quote_collateral_in, quote_usdc_out, current_slot, r),
{
    if !accounts.market.authority.eq(&accounts.authority) {
        return Err(LendingError::InvalidMarketConfig);
    }
    if quote_collateral_in == 0 {
        return Err(LendingError::InvalidAmount);
    }
    if quote_usdc_out == 0 {
        return Err(LendingError::InvalidAmount);
    }
    match execution_ltv_from_quote(&accounts.market, quote_usdc_out) {
        Ok(_) => {},
        Err(e) => return Err(e),
    }
    Ok(
        LiquidityRiskSnapshot {
            market: accounts.market_key,
            quote_collateral_in,
            quote_usdc_out,
            observed_slot: current_slot,
            bump: accounts.risk_snapshot_bump,
        },
    )
}

} // verus!
