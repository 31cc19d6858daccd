//! Fixed parameters of a newly initialized market.
use vstd::prelude::*;

verus! {

/// Absolute LTV ceiling of a market, in basis points.
pub const MAX_LTV_BPS: u16 = 6_500;

/// Floor of the execution-derived LTV, in basis points.
pub const MIN_LTV_BPS: u16 = 3_500;

/// LTV above which a position may be liquidated, in basis points.
pub const LIQUIDATION_THRESHOLD_BPS: u16 = 7_000;

/// Incentive paid to the liquidator, in basis points.
pub const LIQUIDATION_BONUS_BPS: u16 = 500;

/// Largest share of a position's collateral sold in one liquidation, in basis points.
pub const MAX_LIQUIDATION_BPS: u16 = 2_500;

/// Ceiling that issuer and administrative risk put on the LTV, in basis points.
pub const ISSUER_RISK_CEILING_BPS: u16 = 6_000;

/// Reference liquidation notional in USDC base units (USDC has 6 decimals: $5,000).
pub const REFERENCE_LIQUIDATION_SIZE_USDC: u64 = 5_000_000_000;

/// Expected Token-2022 transfer fee of the collateral, in basis points.
pub const PRESTOCKS_TRANSFER_FEE_BPS: u16 = 50;

/// Largest age, in slots, at which a liquidity snapshot may still be used.
pub const MAX_RISK_SNAPSHOT_AGE_SLOTS: u64 = 300;

/// One whole unit expressed in basis points.
pub const BPS_DENOMINATOR: u64 = 10_000;

} // verus!
