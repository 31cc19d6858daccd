//! The accounts that the lending market stores.
use vstd::prelude::*;

use crate::key::AccountKey;

verus! {

/// Configuration of one isolated lending market.
#[derive(Debug, Clone, Copy)]
pub struct MarketConfig {
    /// Collateral mint (a tokenized equity).
    pub collateral_mint: AccountKey,
    /// Debt mint (USDC).
    pub debt_mint: AccountKey,
    /// Reference price of one whole collateral token, in USDC base units.
    pub collateral_price_usdc: u64,
    /// DLMM pool used for liquidity assessment and liquidation.
    pub dlmm_pool: AccountKey,
    /// Authority allowed to configure the market and publish liquidity snapshots.
    pub authority: AccountKey,
    /// Absolute protocol LTV ceiling.
    pub max_ltv_bps: u16,
    /// Floor of the execution-risk LTV model.
    pub min_ltv_bps: u16,
    /// A position becomes liquidatable above this LTV.
    pub liquidation_threshold_bps: u16,
    /// Incentive paid to the liquidator.
    pub liquidation_bonus_bps: u16,
    /// Largest share of the collateral that one liquidation may sell.
    pub max_liquidation_bps: u16,
    /// Standardized liquidation notional, in USDC base units.
    pub reference_liquidation_size_usdc: u64,
    /// Independent ceiling caused by issuer/admin risk.
    pub issuer_risk_ceiling_bps: u16,
    /// Expected Token-2022 transfer fee.
    pub transfer_fee_bps: u16,
    /// Bump of the market's derived address.
    pub bump: u8,
}

impl MarketConfig {
    /// Bytes that the stored account occupies (discriminator included).
    pub const LEN: usize = 8 + 32 + 32 + 8 + 32 + 32 + 2 + 2 + 2 + 2 + 2 + 8 + 2 + 2 + 1;
}

/// One borrower's position in one market.
#[derive(Debug, Clone, Copy)]
pub struct Position {
    /// Wallet controlling this position.
    pub owner: AccountKey,
    /// Market this position belongs to.
    pub market: AccountKey,
    /// Collateral held by the market for this position, in collateral base units.
    pub collateral_amount: u64,
    /// Outstanding debt, in USDC base units.
    pub debt_amount: u64,
    /// Bump of the position's derived address.
    pub bump: u8,
}

impl Position {
    /// Bytes that the stored account occupies (discriminator included).
    pub const LEN: usize = 8 + 32 + 32 + 8 + 8 + 1;
}

/// An observation of executable liquidity, published by the market authority.
#[derive(Debug, Clone, Copy)]
pub struct LiquidityRiskSnapshot {
    /// Market this snapshot belongs to.
    pub market: AccountKey,
    /// Collateral amount used for the executable-liquidity quote.
    pub quote_collateral_in: u64,
    /// Executable USDC output observed for that quote.
    pub quote_usdc_out: u64,
    /// Slot at which the observation was published.
    pub observed_slot: u64,
    /// Bump of the snapshot's derived address.
    pub bump: u8,
}

impl LiquidityRiskSnapshot {
    /// Bytes that the stored account occupies (discriminator included).
    pub const LEN: usize = 8 + 32 + 8 + 8 + 8 + 1;
}

} // verus!
