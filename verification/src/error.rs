//! Errors reported by the lending rules.
use vstd::prelude::*;

verus! {

/// Every way in which an instruction of the lending market can be refused.
#[derive(Debug, Clone, Copy, PartialEq, Eq, Structural)]
pub enum LendingError {
    InvalidMarketConfig,
    MarketMismatch,
    DebtMintMismatch,
    InvalidLtvConfiguration,
    InvalidAmount,
    InsufficientCollateral,
    BorrowExceedsLtv,
    WithdrawalViolatesLtv,
    UnhealthyPosition,
    PositionHealthy,
    LiquidationExceedsCap,
    StaleLiquidityQuote,
    LiquidationCannotRestoreHealth,
    IssuerRiskCeilingBreached,
    InsufficientDebtLiquidity,
    MathOverflow,
}

} // verus!
