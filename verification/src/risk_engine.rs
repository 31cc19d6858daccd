//! The liquidity-aware risk engine: from executable liquidity to an enforceable LTV.
use vstd::prelude::*;

use crate::constants::{BPS_DENOMINATOR, MAX_RISK_SNAPSHOT_AGE_SLOTS};
use crate::error::LendingError;
use crate::math::{lemma_bps_monotone, lemma_div_monotone, lemma_mul_monotone, lemma_share_bps_bounded, max_int, min_int};
use crate::state::{LiquidityRiskSnapshot, MarketConfig};

verus! {

/// The outcome of a complete risk assessment.
#[derive(Debug, Clone, Copy, PartialEq, Eq, Structural)]
pub struct RiskAssessment {
    /// LTV implied by executable liquidity.
    pub execution_ltv_bps: u16,
    /// Final protocol LTV after the issuer/admin-risk ceiling.
    pub effective_ltv_bps: u16,
    /// Maximum debt allowed for the supplied collateral value.
    pub max_debt: u64,
}

/// Whether a snapshot observed at `observed_slot` may still be used at `current_slot`.
pub open spec fn spec_snapshot_freshness(observed_slot: u64, current_slot: u64) -> Result<(), LendingError> {
    if current_slot < observed_slot {
        Err(LendingError::StaleLiquidityQuote)
    } else if current_slot - observed_slot > MAX_RISK_SNAPSHOT_AGE_SLOTS {
        Err(LendingError::StaleLiquidityQuote)
    } else {
        Ok(())
    }
}

/// Share of the reference liquidation that executable liquidity recovers, in basis
/// points; a quote above the reference counts as full recovery.
pub open spec fn spec_recovery_bps(quote_usdc_out: int, reference: int) -> int {
    min_int(quote_usdc_out, reference) * 10000 / reference
}

/// The configured maximum LTV scaled by the recovery, then clamped to `[min_ltv, max_ltv]`.
pub open spec fn spec_clamped_execution_ltv(max_ltv: int, min_ltv: int, recovery_bps: int) -> int {
    min_int(max_int(max_ltv * recovery_bps / 10000, min_ltv), max_ltv)
}

/// What `execution_ltv_from_quote` gives for a market and a quoted USDC output.
pub open spec fn spec_execution_ltv_from_quote(market: MarketConfig, quote_usdc_out: u64) -> Result<u16, LendingError> {
    let reference = market.reference_liquidation_size_usdc;
    if reference == 0 {
        Err(LendingError::InvalidMarketConfig)
    } else if quote_usdc_out == 0 {
        Err(LendingError::InvalidAmount)
    } else if min_int(quote_usdc_out as int, reference as int) * 10000 > u64::MAX {
        Err(LendingError::MathOverflow)
    } else {
        Ok(
            spec_clamped_execution_ltv(
                market.max_ltv_bps as int,
                market.min_ltv_bps as int,
                spec_recovery_bps(quote_usdc_out as int, reference as int),
            ) as u16,
        )
    }
}

/// What `effective_ltv_bps` gives: the execution LTV capped by the issuer-risk ceiling.
pub open spec fn spec_effective_ltv_bps(market: MarketConfig, quote_usdc_out: u64) -> Result<u16, LendingError> {
    match spec_execution_ltv_from_quote(market, quote_usdc_out) {
        Ok(execution) => Ok(min_int(execution as int, market.issuer_risk_ceiling_bps as int) as u16),
        Err(e) => Err(e),
    }
}

/// What `assess_risk` gives.
pub open spec fn spec_assess_risk(
    market: MarketConfig,
    snapshot: LiquidityRiskSnapshot,
    collateral_value_usdc: u64,
    current_slot: u64,
) -> Result<RiskAssessment, LendingError> {
    if snapshot.quote_collateral_in == 0 {
        Err(LendingError::InvalidAmount)
    } else if spec_snapshot_freshness(snapshot.observed_slot, current_slot) is Err {
        Err(LendingError::StaleLiquidityQuote)
    } else {
        match spec_execution_ltv_from_quote(market, snapshot.quote_usdc_out) {
            Err(e) => Err(e),
            Ok(execution) => {
                let effective = min_int(execution as int, market.issuer_risk_ceiling_bps as int);
                let max_debt = collateral_value_usdc * effective / 10000;
                if max_debt > u64::MAX {
                    Err(LendingError::MathOverflow)
                } else {
                    Ok(
                        RiskAssessment {
                            execution_ltv_bps: execution,
                            effective_ltv_bps: effective as u16,
                            max_debt: max_debt as u64,
                        },
                    )
                }
            },
        }
    }
}

/// Ensures the liquidity observation is recent enough to use.
pub fn validate_snapshot_freshness(snapshot: &LiquidityRiskSnapshot, current_slot: u64) -> (r: Result<(), LendingError>)
    ensures
        r == spec_snapshot_freshness(snapshot.observed_slot, current_slot),
        r is Ok <==> snapshot.observed_slot <= current_slot <= snapshot.observed_slot
            + MAX_RISK_SNAPSHOT_AGE_SLOTS,
{
    if current_slot < snapshot.observed_slot {
        return Err(LendingError::StaleLiquidityQuote);
    }
    let age = match current_slot.checked_sub(snapshot.observed_slot) {
        Some(age) => age,
        None => return Err(LendingError::MathOverflow),
    };
    if age > MAX_RISK_SNAPSHOT_AGE_SLOTS {
        return Err(LendingError::StaleLiquidityQuote);
    }
    Ok(())
}

/// Converts executable liquidation output into an execution-derived LTV.
///
/// The market defines a reference liquidation notional in USDC. With a reference of
/// $5,000 and an executable output of $4,900 the recovery is 98%, and the execution
/// LTV is 98% of the configured maximum LTV. The result is clamped between the
/// market's configured minimum and maximum LTV.
pub fn execution_ltv_from_quote(market: &MarketConfig, quote_usdc_out: u64) -> (r: Result<u16, LendingError>)
    ensures
        r == spec_execution_ltv_from_quote(*market, quote_usdc_out),
        r matches Ok(ltv) ==> ltv <= market.max_ltv_bps,
        r matches Ok(ltv) ==> market.min_ltv_bps <= market.max_ltv_bps ==> market.min_ltv_bps <= ltv,
{
    let reference = market.reference_liquidation_size_usdc;
    if reference == 0 {
        return Err(LendingError::InvalidMarketConfig);
    }
    if quote_usdc_out == 0 {
        return Err(LendingError::InvalidAmount);
    }
    let capped_output = if quote_usdc_out <= reference {
        quote_usdc_out
    } else {
        reference
    };
    let scaled_output = match capped_output.checked_mul(BPS_DENOMINATOR) {
        Some(v) => v,
        None => return Err(LendingError::MathOverflow),
    };
    let recovery_bps = match scaled_output.checked_div(reference) {
        Some(v) => v,
        None => return Err(LendingError::MathOverflow),
    };
    proof {
        lemma_share_bps_bounded(capped_output as int, reference as int);
        assert(market.max_ltv_bps * recovery_bps <= 65535 * 10000) by (nonlinear_arith)
            requires
                market.max_ltv_bps <= 65535,
                recovery_bps <= 10000,
        ;
    }
    let scaled_ltv = match (market.max_ltv_bps as u64).checked_mul(recovery_bps) {
        Some(v) => v,
        None => return Err(LendingError::MathOverflow),
    };
    let raw_execution_ltv = match scaled_ltv.checked_div(BPS_DENOMINATOR) {
        Some(v) => v,
        None => return Err(LendingError::MathOverflow),
    };
    let floored = if raw_execution_ltv >= market.min_ltv_bps as u64 {
        raw_execution_ltv
    } else {
        market.min_ltv_bps as u64
    };
    let clamped = if floored <= market.max_ltv_bps as u64 {
        floored
    } else {
        market.max_ltv_bps as u64
    };
    if clamped > u16::MAX as u64 {
        return Err(LendingError::MathOverflow);
    }
    Ok(clamped as u16)
}

/// Applies issuer/admin risk after execution risk:
/// final LTV = min(execution-derived LTV, issuer-risk ceiling).
pub fn effective_ltv_bps(market: &MarketConfig, quote_usdc_out: u64) -> (r: Result<u16, LendingError>)
    ensures
        r == spec_effective_ltv_bps(*market, quote_usdc_out),
        r matches Ok(ltv) ==> ltv <= market.issuer_risk_ceiling_bps && ltv <= market.max_ltv_bps,
{
    let execution_ltv = match execution_ltv_from_quote(market, quote_usdc_out) {
        Ok(v) => v,
        Err(e) => return Err(e),
    };
    if execution_ltv <= market.issuer_risk_ceiling_bps {
        Ok(execution_ltv)
    } else {
        Ok(market.issuer_risk_ceiling_bps)
    }
}

/// Complete risk assessment for a collateral position: the snapshot must be fresh,
/// and the maximum debt is the collateral value times the effective LTV.
pub fn assess_risk(
    market: &MarketConfig,
    snapshot: &LiquidityRiskSnapshot,
    collateral_value_usdc: u64,
    current_slot: u64,
) -> (r: Result<RiskAssessment, LendingError>)
    ensures
        r == spec_assess_risk(*market, *snapshot, collateral_value_usdc, current_slot),
        r matches Ok(risk) ==> {
            &&& risk.effective_ltv_bps <= risk.execution_ltv_bps
            &&& risk.effective_ltv_bps <= market.issuer_risk_ceiling_bps
            &&& risk.max_debt == collateral_value_usdc * risk.effective_ltv_bps / 10000
        },
{
    if snapshot.quote_collateral_in == 0 {
        return Err(LendingError::InvalidAmount);
    }
    match validate_snapshot_freshness(snapshot, current_slot) {
        Ok(()) => {},
        Err(e) => return Err(e),
    }
    let execution_ltv_bps = match execution_ltv_from_quote(market, snapshot.quote_usdc_out) {
        Ok(v) => v,
        Err(e) => return Err(e),
    };
    let effective_ltv_bps = if execution_ltv_bps <= market.issuer_risk_ceiling_bps {
        execution_ltv_bps
    } else {
        market.issuer_risk_ceiling_bps
    };
    proof {
        assert(collateral_value_usdc * effective_ltv_bps <= u64::MAX * 65535) by (nonlinear_arith)
            requires
                collateral_value_usdc <= u64::MAX,
                effective_ltv_bps <= 65535,
        ;
    }
    let scaled = match (collateral_value_usdc as u128).checked_mul(effective_ltv_bps as u128) {
        Some(v) => v,
        None => return Err(LendingError::MathOverflow),
    };
    let max_debt_u128 = match scaled.checked_div(BPS_DENOMINATOR as u128) {
        Some(v) => v,
        None => return Err(LendingError::MathOverflow),
    };
    if max_debt_u128 > u64::MAX as u128 {
        return Err(LendingError::MathOverflow);
    }
    Ok(RiskAssessment { execution_ltv_bps, effective_ltv_bps, max_debt: max_debt_u128 as u64 })
}

/// A quote above the reference liquidation size cannot raise the execution LTV: it
/// counts exactly as a quote of the reference size.
pub proof fn law_quote_above_reference_is_capped(market: MarketConfig, quote_usdc_out: u64)
    requires
        quote_usdc_out >= market.reference_liquidation_size_usdc > 0,
    ensures
        spec_execution_ltv_from_quote(market, quote_usdc_out) == spec_execution_ltv_from_quote(
            market,
            market.reference_liquidation_size_usdc,
        ),
{
}

/// Deeper executable liquidity never lowers the execution LTV: if a larger quote is
/// accepted, a smaller positive quote is accepted too and gives an LTV no higher.
pub proof fn law_deeper_liquidity_never_lowers_ltv(market: MarketConfig, shallow: u64, deep: u64)
    requires
        0 < shallow <= deep,
        spec_execution_ltv_from_quote(market, deep) is Ok,
    ensures
        spec_execution_ltv_from_quote(market, shallow) is Ok,
        spec_execution_ltv_from_quote(market, shallow)->Ok_0 <= spec_execution_ltv_from_quote(
            market,
            deep,
        )->Ok_0,
{
    let reference = market.reference_liquidation_size_usdc as int;
    let c1 = min_int(shallow as int, reference);
    let c2 = min_int(deep as int, reference);
    lemma_mul_monotone(c1, c2, 10000);
    lemma_div_monotone(c1 * 10000, c2 * 10000, reference);
    lemma_share_bps_bounded(c1, reference);
    lemma_share_bps_bounded(c2, reference);
    let r1 = spec_recovery_bps(shallow as int, reference);
    let r2 = spec_recovery_bps(deep as int, reference);
    lemma_bps_monotone(market.max_ltv_bps as int, market.max_ltv_bps as int, r1, r2);
}

/// A quote that recovers the whole reference liquidation gives exactly the configured
/// maximum LTV (when the market's floor is not above its ceiling).
pub proof fn law_full_recovery_gives_max_ltv(market: MarketConfig, quote_usdc_out: u64)
    requires
        quote_usdc_out >= market.reference_liquidation_size_usdc > 0,
        market.reference_liquidation_size_usdc * 10000 <= u64::MAX,
        market.min_ltv_bps <= market.max_ltv_bps,
    ensures
        spec_execution_ltv_from_quote(market, quote_usdc_out) == Ok::<u16, LendingError>(market.max_ltv_bps),
{
    let reference = market.reference_liquidation_size_usdc as int;
    vstd::arithmetic::div_mod::lemma_div_by_multiple(10000, reference);
    vstd::arithmetic::mul::lemma_mul_is_commutative(10000, reference);
    vstd::arithmetic::div_mod::lemma_div_by_multiple(market.max_ltv_bps as int, 10000);
}

/// Deeper executable liquidity never lowers borrowing capacity: for the same market,
/// collateral value and slot, a snapshot with a larger quote that passes the risk
/// assessment makes a snapshot with a smaller positive quote pass too, with a maximum
/// debt no higher.
pub proof fn law_deeper_liquidity_never_lowers_borrowing_capacity(
    market: MarketConfig,
    shallow: LiquidityRiskSnapshot,
    deep: LiquidityRiskSnapshot,
    collateral_value_usdc: u64,
    current_slot: u64,
)
    requires
        0 < shallow.quote_usdc_out <= deep.quote_usdc_out,
        shallow.quote_collateral_in == deep.quote_collateral_in,
        shallow.observed_slot == deep.observed_slot,
        spec_assess_risk(market, deep, collateral_value_usdc, current_slot) is Ok,
    ensures
        spec_assess_risk(market, shallow, collateral_value_usdc, current_slot) is Ok,
        spec_assess_risk(market, shallow, collateral_value_usdc, current_slot)->Ok_0.max_debt <= spec_assess_risk(
            market,
            deep,
            collateral_value_usdc,
            current_slot,
        )->Ok_0.max_debt,
{
    law_deeper_liquidity_never_lowers_ltv(market, shallow.quote_usdc_out, deep.quote_usdc_out);
    let e1 = spec_execution_ltv_from_quote(market, shallow.quote_usdc_out)->Ok_0;
    let e2 = spec_execution_ltv_from_quote(market, deep.quote_usdc_out)->Ok_0;
    let f1 = min_int(e1 as int, market.issuer_risk_ceiling_bps as int);
    let f2 = min_int(e2 as int, market.issuer_risk_ceiling_bps as int);
    lemma_bps_monotone(collateral_value_usdc as int, collateral_value_usdc as int, f1, f2);
}

/// The execution LTV is the configured maximum scaled by the recovery of the
/// reference liquidation (a quote above the reference counting as full recovery),
/// rounded down, then raised to the minimum LTV and capped at the maximum LTV. A quote
/// of 80% of the reference gives 80% of the maximum LTV whenever that is above the
/// minimum. Where the recovery's numerator overflows the quote is refused.
pub proof fn law_execution_ltv_is_scaled_and_clamped(market: MarketConfig, quote_usdc_out: u64)
    requires
        market.reference_liquidation_size_usdc > 0,
        quote_usdc_out > 0,
    ensures
        ({
            let reference = market.reference_liquidation_size_usdc as int;
            let covered = if quote_usdc_out < reference {
                quote_usdc_out as int
            } else {
                reference
            };
            let recovery = covered * 10000 / reference;
            let scaled = market.max_ltv_bps * recovery / 10000;
            let floored = if scaled < market.min_ltv_bps {
                market.min_ltv_bps as int
            } else {
                scaled
            };
            let expected = if floored > market.max_ltv_bps {
                market.max_ltv_bps as int
            } else {
                floored
            };
            &&& covered * 10000 > u64::MAX ==> spec_execution_ltv_from_quote(market, quote_usdc_out) == Err::<
                u16,
                LendingError,
            >(LendingError::MathOverflow)
            &&& covered * 10000 <= u64::MAX ==> spec_execution_ltv_from_quote(market, quote_usdc_out) == Ok::<
                u16,
                LendingError,
            >(expected as u16)
        }),
{
}

/// A risk assessment with a usable quote and a snapshot no older than the maximum
/// age reports the execution LTV, the smaller of it and the issuer-risk ceiling as the
/// effective LTV, and the collateral value times the effective LTV as the maximum debt.
pub proof fn law_assessment_reports_effective_capacity(
    market: MarketConfig,
    snapshot: LiquidityRiskSnapshot,
    collateral_value_usdc: u64,
    current_slot: u64,
)
    requires
        snapshot.quote_collateral_in > 0,
        snapshot.observed_slot <= current_slot <= snapshot.observed_slot + MAX_RISK_SNAPSHOT_AGE_SLOTS,
        spec_execution_ltv_from_quote(market, snapshot.quote_usdc_out) is Ok,
    ensures
        ({
            let execution = spec_execution_ltv_from_quote(market, snapshot.quote_usdc_out)->Ok_0;
            let effective = if execution < market.issuer_risk_ceiling_bps {
                execution
            } else {
                market.issuer_risk_ceiling_bps
            };
            let max_debt = collateral_value_usdc * effective / 10000;
            &&& max_debt > u64::MAX ==> spec_assess_risk(market, snapshot, collateral_value_usdc, current_slot)
                == Err::<RiskAssessment, LendingError>(LendingError::MathOverflow)
            &&& max_debt <= u64::MAX ==> spec_assess_risk(market, snapshot, collateral_value_usdc, current_slot)
                == Ok::<RiskAssessment, LendingError>(
                RiskAssessment {
                    execution_ltv_bps: execution,
                    effective_ltv_bps: effective,
                    max_debt: max_debt as u64,
                },
            )
        }),
{
}

/// The effective LTV is the smaller of the execution LTV and the issuer-risk ceiling.
pub proof fn law_effective_ltv_is_min_of_execution_and_ceiling(market: MarketConfig, quote_usdc_out: u64)
    requires
        spec_execution_ltv_from_quote(market, quote_usdc_out) is Ok,
    ensures
        spec_effective_ltv_bps(market, quote_usdc_out) is Ok,
        spec_effective_ltv_bps(market, quote_usdc_out)->Ok_0 == min_int(
            spec_execution_ltv_from_quote(market, quote_usdc_out)->Ok_0 as int,
            market.issuer_risk_ceiling_bps as int,
        ),
        spec_effective_ltv_bps(market, quote_usdc_out)->Ok_0 <= market.issuer_risk_ceiling_bps,
{
}

} // verus!
