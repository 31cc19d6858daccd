//! Liquidation: health checks, liquidation caps and the settlement of a swap.
use vstd::prelude::*;

use crate::constants::BPS_DENOMINATOR;
use crate::error::LendingError;
use crate::math::{
    lemma_below_ceil_div, lemma_bps_monotone, lemma_div_below, lemma_div_monotone, lemma_mul_monotone,
    lemma_mul_within_bound, lemma_pow10_monotone, lemma_pow10_u64_limit, min_int, pow10_u64, spec_pow10,
};
use crate::integrations::meteora::{
    build_swap2_instruction, spec_build_swap2_instruction, AccountMeta, Instruction, RemainingAccountsInfo,
    Swap2Accounts,
};
use crate::key::AccountKey;
use crate::state::{MarketConfig, Position};

verus! {

// ---------------------------------------------------------------------------
// Specifications
// ---------------------------------------------------------------------------

/// `value * bps / 10_000`, or `MathOverflow` where the product leaves `u64`.
pub open spec fn spec_bps_of(value: u64, bps: u16) -> Result<u64, LendingError> {
    if value * bps > u64::MAX {
        Err(LendingError::MathOverflow)
    } else {
        Ok((value * bps / 10000) as u64)
    }
}

/// Whether valuing `amount` collateral at `price` returns at all: scaling by
/// `10^decimals` panics when that power leaves `u64`, unless the product
/// `amount * price` has already overflowed and been reported.
pub open spec fn spec_valuation_returns(amount: u64, price: u64, decimals: u8) -> bool {
    amount * price > u64::MAX || decimals <= 19
}

/// Value in USDC base units of `amount` collateral base units, at `price` USDC base
/// units per whole token of a mint with `decimals` decimals.
pub open spec fn spec_collateral_value_usdc(amount: u64, price: u64, decimals: u8) -> Result<u64, LendingError> {
    if amount * price > u64::MAX {
        Err(LendingError::MathOverflow)
    } else {
        Ok((amount * price / spec_pow10(decimals as nat)) as u64)
    }
}

/// Whether a position is liquidatable: its debt exceeds the collateral value at the
/// liquidation threshold.
pub open spec fn spec_is_liquidatable(
    collateral_value_usdc: u64,
    debt_amount: u64,
    liquidation_threshold_bps: u16,
) -> Result<bool, LendingError> {
    match spec_bps_of(collateral_value_usdc, liquidation_threshold_bps) {
        Ok(limit) => Ok(debt_amount > limit),
        Err(e) => Err(e),
    }
}

/// Whether `collateral_required_for_debt` returns at all (see `spec_valuation_returns`).
pub open spec fn spec_collateral_required_returns(debt_amount: u64, decimals: u8, liquidation_bonus_bps: u16) -> bool {
    debt_amount * (10000 + liquidation_bonus_bps) > u64::MAX || decimals <= 19
}

/// Collateral (base units) worth `debt_amount` plus the liquidation bonus.
pub open spec fn spec_collateral_required_for_debt(
    debt_amount: u64,
    collateral_price_usdc: u64,
    collateral_decimals: u8,
    liquidation_bonus_bps: u16,
) -> Result<u64, LendingError> {
    if debt_amount * (10000 + liquidation_bonus_bps) > u64::MAX {
        Err(LendingError::MathOverflow)
    } else {
        let debt_with_bonus = debt_amount * (10000 + liquidation_bonus_bps) / 10000;
        if debt_with_bonus * spec_pow10(collateral_decimals as nat) > u64::MAX {
            Err(LendingError::MathOverflow)
        } else if collateral_price_usdc == 0 {
            Err(LendingError::MathOverflow)
        } else {
            Ok((debt_with_bonus * spec_pow10(collateral_decimals as nat) / collateral_price_usdc as int) as u64)
        }
    }
}

/// Largest debt that `remaining_collateral` supports at `max_ltv_bps`.
pub open spec fn spec_remaining_debt_capacity(
    remaining_collateral: u64,
    collateral_price_usdc: u64,
    collateral_decimals: u8,
    max_ltv_bps: u16,
) -> Result<u64, LendingError> {
    match spec_collateral_value_usdc(remaining_collateral, collateral_price_usdc, collateral_decimals) {
        Ok(value) => spec_bps_of(value, max_ltv_bps),
        Err(e) => Err(e),
    }
}

/// Whether `required_debt_repayment` returns at all.
pub open spec fn spec_required_repayment_returns(
    collateral_amount: u64,
    collateral_to_sell: u64,
    collateral_price_usdc: u64,
    collateral_decimals: u8,
) -> bool {
    collateral_to_sell <= collateral_amount ==> spec_valuation_returns(
        (collateral_amount - collateral_to_sell) as u64,
        collateral_price_usdc,
        collateral_decimals,
    )
}

/// Smallest repayment that brings the debt within the capacity left after selling
/// `collateral_to_sell` (zero when the position is already within it).
pub open spec fn spec_required_debt_repayment(
    collateral_amount: u64,
    debt_amount: u64,
    collateral_to_sell: u64,
    collateral_price_usdc: u64,
    collateral_decimals: u8,
    max_ltv_bps: u16,
) -> Result<u64, LendingError> {
    if collateral_to_sell > collateral_amount {
        Err(LendingError::InsufficientCollateral)
    } else {
        match spec_remaining_debt_capacity(
            (collateral_amount - collateral_to_sell) as u64,
            collateral_price_usdc,
            collateral_decimals,
            max_ltv_bps,
        ) {
            Err(e) => Err(e),
            Ok(capacity) => if debt_amount <= capacity {
                Ok(0u64)
            } else {
                Ok((debt_amount - capacity) as u64)
            },
        }
    }
}

/// Whether `validate_liquidation_execution` returns at all.
pub open spec fn spec_execution_check_returns(
    collateral_amount: u64,
    debt_amount: u64,
    collateral_to_sell: u64,
    collateral_price_usdc: u64,
    collateral_decimals: u8,
    max_liquidation_bps: u16,
) -> bool {
    let reaches_repayment = collateral_amount > 0 && debt_amount > 0 && collateral_to_sell > 0
        && spec_bps_of(collateral_amount, max_liquidation_bps) is Ok && collateral_to_sell <= spec_bps_of(
        collateral_amount,
        max_liquidation_bps,
    )->Ok_0;
    reaches_repayment ==> spec_required_repayment_returns(
        collateral_amount,
        collateral_to_sell,
        collateral_price_usdc,
        collateral_decimals,
    )
}

/// What `validate_liquidation_execution` gives: the debt reduction of a liquidation
/// that sold `collateral_to_sell` and recovered `usdc_recovered`.
pub open spec fn spec_validate_liquidation_execution(
    collateral_amount: u64,
    debt_amount: u64,
    collateral_to_sell: u64,
    usdc_recovered: u64,
    collateral_price_usdc: u64,
    collateral_decimals: u8,
    max_ltv_bps: u16,
    max_liquidation_bps: u16,
) -> Result<u64, LendingError> {
    if collateral_amount == 0 {
        Err(LendingError::InsufficientCollateral)
    } else if debt_amount == 0 {
        Err(LendingError::InvalidAmount)
    } else if collateral_to_sell == 0 {
        Err(LendingError::InvalidAmount)
    } else {
        match spec_bps_of(collateral_amount, max_liquidation_bps) {
            Err(e) => Err(e),
            Ok(cap) => if collateral_to_sell > cap {
                Err(LendingError::LiquidationExceedsCap)
            } else {
                match spec_required_debt_repayment(
                    collateral_amount,
                    debt_amount,
                    collateral_to_sell,
                    collateral_price_usdc,
                    collateral_decimals,
                    max_ltv_bps,
                ) {
                    Err(e) => Err(e),
                    Ok(required) => if usdc_recovered < required {
                        Err(LendingError::LiquidationCannotRestoreHealth)
                    } else {
                        Ok(min_int(usdc_recovered as int, debt_amount as int) as u64)
                    },
                }
            },
        }
    }
}

/// What `validate_liquidation` gives for a position.
pub open spec fn spec_validate_liquidation(market: MarketConfig, position: Position, collateral_decimals: u8) -> Result<
    (),
    LendingError,
> {
    if position.collateral_amount == 0 {
        Err(LendingError::InsufficientCollateral)
    } else if position.debt_amount == 0 {
        Err(LendingError::InvalidAmount)
    } else {
        match spec_collateral_value_usdc(
            position.collateral_amount,
            market.collateral_price_usdc,
            collateral_decimals,
        ) {
            Err(e) => Err(e),
            Ok(value) => match spec_is_liquidatable(
                value,
                position.debt_amount,
                market.liquidation_threshold_bps,
            ) {
                Err(e) => Err(e),
                Ok(liquidatable) => if liquidatable {
                    Ok(())
                } else {
                    Err(LendingError::PositionHealthy)
                },
            },
        }
    }
}

/// Whether `validate_liquidation` returns at all.
pub open spec fn spec_validate_liquidation_returns(market: MarketConfig, position: Position, collateral_decimals: u8) -> bool {
    (position.collateral_amount > 0 && position.debt_amount > 0) ==> spec_valuation_returns(
        position.collateral_amount,
        market.collateral_price_usdc,
        collateral_decimals,
    )
}

/// The inputs of the search for the smallest liquidation that restores health.
#[derive(Debug, Clone, Copy)]
pub struct LiquidationSearch {
    pub collateral_amount: u64,
    pub debt_amount: u64,
    pub collateral_price_usdc: u64,
    pub collateral_decimals: u8,
    pub max_ltv_bps: u16,
    pub quote_collateral_in: u64,
    pub quote_usdc_out: u64,
}

impl LiquidationSearch {
    /// Tests one candidate sale of `sold` collateral base units under the quote
    /// `quote_collateral_in -> quote_usdc_out`: `Ok(true)` when the estimated recovery
    /// leaves the remaining debt within the remaining capacity; `None` where the test
    /// panics.
    pub open spec fn probe(self, sold: int) -> Option<Result<bool, LendingError>> {
        if sold * self.quote_usdc_out > u64::MAX {
            Some(Err(LendingError::MathOverflow))
        } else if sold > self.collateral_amount {
            Some(Err(LendingError::MathOverflow))
        } else if !spec_valuation_returns(
            (self.collateral_amount - sold) as u64,
            self.collateral_price_usdc,
            self.collateral_decimals,
        ) {
            None
        } else {
            match spec_remaining_debt_capacity(
                (self.collateral_amount - sold) as u64,
                self.collateral_price_usdc,
                self.collateral_decimals,
                self.max_ltv_bps,
            ) {
                Err(e) => Some(Err(e)),
                Ok(capacity) => {
                    let recovered = sold * self.quote_usdc_out / self.quote_collateral_in as int;
                    let remaining_debt = if self.debt_amount >= recovered {
                        self.debt_amount - recovered
                    } else {
                        0
                    };
                    Some(Ok(remaining_debt <= capacity))
                },
            }
        }
    }

    /// The least sale in `[from, top]` that restores health, scanning upward: a
    /// candidate whose test fails plainly is passed over, one that restores health is
    /// the answer, one whose test overflows ends the scan with that error, and one
    /// whose test panics gives `None`. With no candidate left the position cannot be
    /// restored within the range.
    pub open spec fn least_restoring_sale(self, from: int, top: int) -> Option<Result<u64, LendingError>>
        decreases top - from + 1,
    {
        if from > top {
            Some(Err(LendingError::LiquidationCannotRestoreHealth))
        } else {
            match self.probe(from) {
                None => None,
                Some(Err(e)) => Some(Err(e)),
                Some(Ok(restores)) => if restores {
                    Some(Ok(from as u64))
                } else {
                    self.least_restoring_sale(from + 1, top)
                },
            }
        }
    }
}

/// What `minimum_collateral_to_sell` gives (`None` where it panics): the least sale
/// between one base unit and the liquidation cap that restores health.
pub open spec fn spec_minimum_collateral_to_sell(search: LiquidationSearch, max_liquidation_bps: u16) -> Option<
    Result<u64, LendingError>,
> {
    if search.quote_collateral_in == 0 {
        Some(Err(LendingError::InvalidAmount))
    } else if search.quote_usdc_out == 0 {
        Some(Err(LendingError::InvalidAmount))
    } else {
        match spec_bps_of(search.collateral_amount, max_liquidation_bps) {
            Err(e) => Some(Err(e)),
            Ok(cap) => if cap == 0 {
                Some(Err(LendingError::InsufficientCollateral))
            } else {
                search.least_restoring_sale(1, cap as int)
            },
        }
    }
}

/// A probe only ever fails with an arithmetic overflow.
pub proof fn lemma_probe_errors_are_overflows(search: LiquidationSearch, sold: int)
    ensures
        search.probe(sold) matches Some(Err(e)) ==> e == LendingError::MathOverflow,
{
}

/// Every probe returns when the collateral mint has at most 19 decimals.
pub proof fn lemma_probe_returns_for_small_decimals(search: LiquidationSearch, sold: int)
    requires
        search.collateral_decimals <= 19,
    ensures
        search.probe(sold) is Some,
{
}

/// What the scan gives, stated without the scan: the least restoring sale with every
/// smaller candidate failing plainly; `LiquidationCannotRestoreHealth` exactly when
/// every candidate fails plainly; otherwise an overflow at the first candidate that
/// does not fail plainly.
pub proof fn lemma_least_restoring_sale_is_least(search: LiquidationSearch, from: int, top: int)
    requires
        0 <= from,
        top <= u64::MAX,
    ensures
        search.least_restoring_sale(from, top) matches Some(Ok(m)) ==> {
            &&& from <= m <= top
            &&& search.probe(m as int) == Some(Ok::<bool, LendingError>(true))
            &&& forall|j: int| from <= j < m ==> #[trigger] search.probe(j) == Some(Ok::<bool, LendingError>(false))
        },
        search.least_restoring_sale(from, top) == Some(Err::<u64, LendingError>(LendingError::LiquidationCannotRestoreHealth))
            <==> forall|j: int| from <= j <= top ==> #[trigger] search.probe(j) == Some(Ok::<bool, LendingError>(false)),
        search.least_restoring_sale(from, top) matches Some(Err(e)) ==> e == LendingError::LiquidationCannotRestoreHealth
            || e == LendingError::MathOverflow,
    decreases top - from + 1,
{
    lemma_probe_errors_are_overflows(search, from);
    if from <= top {
        lemma_least_restoring_sale_is_least(search, from + 1, top);
        if search.probe(from) != Some(Ok::<bool, LendingError>(false)) {
            assert(!(forall|j: int| from <= j <= top ==> #[trigger] search.probe(j) == Some(Ok::<bool, LendingError>(false))));
        } else {
            if let Some(Ok(m)) = search.least_restoring_sale(from, top) {
                assert forall|j: int| from <= j < m implies #[trigger] search.probe(j) == Some(
                    Ok::<bool, LendingError>(false),
                ) by {
                    if j > from {
                        assert(from + 1 <= j < m);
                    }
                }
            }
            if forall|j: int| from + 1 <= j <= top ==> #[trigger] search.probe(j) == Some(Ok::<bool, LendingError>(false)) {
                assert forall|j: int| from <= j <= top implies #[trigger] search.probe(j) == Some(
                    Ok::<bool, LendingError>(false),
                ) by {
                    if j > from {
                        assert(from + 1 <= j <= top);
                    }
                }
            }
        }
    }
}

/// Passing over candidates that fail plainly does not change the scan's result.
pub proof fn lemma_least_restoring_sale_skip(search: LiquidationSearch, from: int, to: int, top: int)
    requires
        from <= to <= top + 1,
        forall|j: int| from <= j < to ==> #[trigger] search.probe(j) == Some(Ok::<bool, LendingError>(false)),
    ensures
        search.least_restoring_sale(from, top) == search.least_restoring_sale(to, top),
    decreases to - from,
{
    if from < to {
        assert(search.probe(from) == Some(Ok::<bool, LendingError>(false)));
        lemma_least_restoring_sale_skip(search, from + 1, to, top);
    }
}

/// The scan returns (never panics) when the collateral mint has at most 19 decimals.
pub proof fn lemma_least_restoring_sale_returns(search: LiquidationSearch, from: int, top: int)
    requires
        search.collateral_decimals <= 19,
    ensures
        search.least_restoring_sale(from, top) is Some,
    decreases top - from + 1,
{
    if from <= top {
        lemma_probe_returns_for_small_decimals(search, from);
        lemma_least_restoring_sale_returns(search, from + 1, top);
    }
}

/// The search for the least restoring sale returns (never panics) when the
/// collateral mint has at most 19 decimals.
pub proof fn lemma_minimum_collateral_to_sell_returns(search: LiquidationSearch, max_liquidation_bps: u16)
    requires
        search.collateral_decimals <= 19,
    ensures
        spec_minimum_collateral_to_sell(search, max_liquidation_bps) is Some,
{
    if let Ok(cap) = spec_bps_of(search.collateral_amount, max_liquidation_bps) {
        lemma_least_restoring_sale_returns(search, 1, cap as int);
    }
}

/// After a candidate `sold` fails plainly with remaining capacity `capacity`, every
/// larger candidate below `next` fails plainly too: the remaining capacity can only
/// shrink as more is sold, so a larger sale restores health only once its recovery
/// covers the gap `debt - capacity`, which takes at least `ceil(gap * in / out)`
/// units; and `next` stops before the first candidate whose recovery overflows or that
/// exceeds the collateral.
pub proof fn lemma_sales_before_the_gap_is_covered_fail(
    search: LiquidationSearch,
    sold: int,
    capacity: u64,
    next: int,
    j: int,
)
    requires
        search.quote_collateral_in > 0,
        search.quote_usdc_out > 0,
        search.probe(sold) == Some(Ok::<bool, LendingError>(false)),
        spec_remaining_debt_capacity(
            (search.collateral_amount - sold) as u64,
            search.collateral_price_usdc,
            search.collateral_decimals,
            search.max_ltv_bps,
        ) == Ok::<u64, LendingError>(capacity),
        1 <= sold < j < next,
        next <= (u64::MAX as int) / (search.quote_usdc_out as int) + 1,
        next <= search.collateral_amount + 1,
        next <= ((search.debt_amount - capacity) * search.quote_collateral_in + search.quote_usdc_out - 1)
            / (search.quote_usdc_out as int),
    ensures
        search.probe(j) == Some(Ok::<bool, LendingError>(false)),
{
    let qi = search.quote_collateral_in as int;
    let qo = search.quote_usdc_out as int;
    let price = search.collateral_price_usdc as int;
    let debt = search.debt_amount as int;
    let scale = spec_pow10(search.collateral_decimals as nat);
    let rest_sold = search.collateral_amount - sold;
    let rest_j = search.collateral_amount - j;
    lemma_pow10_monotone(0, search.collateral_decimals as nat);
    // The candidate's recovery does not overflow, and it is a valid sale.
    lemma_mul_within_bound(j, u64::MAX as int, qo);
    // Its remaining collateral is worth no more, and still fits.
    lemma_mul_monotone(rest_j, rest_sold, price);
    lemma_div_monotone(rest_j * price, rest_sold * price, scale);
    let value_sold = rest_sold * price / scale;
    let value_j = rest_j * price / scale;
    lemma_mul_monotone(value_j, value_sold, search.max_ltv_bps as int);
    lemma_bps_monotone(value_j, value_sold, search.max_ltv_bps as int, search.max_ltv_bps as int);
    assert(0 <= rest_j * price) by (nonlinear_arith)
        requires
            0 <= rest_j,
            0 <= price,
    ;
    vstd::arithmetic::div_mod::lemma_div_pos_is_pos(rest_j * price, scale);
    // Its recovery falls short of the gap that the failed candidate left.
    let gap = debt - capacity;
    assert(gap > 0);
    assert(0 <= j * qo) by (nonlinear_arith)
        requires
            0 <= j,
            0 <= qo,
    ;
    assert(0 <= gap * qi) by (nonlinear_arith)
        requires
            0 <= gap,
            0 <= qi,
    ;
    lemma_below_ceil_div(j, gap * qi, qo);
    vstd::arithmetic::mul::lemma_mul_is_commutative(j, qo);
    lemma_div_below(j * qo, gap, qi);
}

// ---------------------------------------------------------------------------
// Functions
// ---------------------------------------------------------------------------

/// Returns the maximum debt allowed against a given collateral value:
/// `max_debt = collateral_value * LTV / 10_000`.
pub fn max_debt_for_collateral(collateral_value_usdc: u64, ltv_bps: u16) -> (r: Result<u64, LendingError>)
    ensures
        r == spec_bps_of(collateral_value_usdc, ltv_bps),
{
    let scaled = match collateral_value_usdc.checked_mul(ltv_bps as u64) {
        Some(v) => v,
        None => return Err(LendingError::MathOverflow),
    };
    match scaled.checked_div(BPS_DENOMINATOR) {
        Some(v) => Ok(v),
        None => Err(LendingError::MathOverflow),
    }
}

/// Returns whether a position is liquidatable: `debt > collateral_value * threshold`.
pub fn is_liquidatable(collateral_value_usdc: u64, debt_amount: u64, liquidation_threshold_bps: u16) -> (r: Result<
    bool,
    LendingError,
>)
    ensures
        r == spec_is_liquidatable(collateral_value_usdc, debt_amount, liquidation_threshold_bps),
{
    let liquidation_limit = match max_debt_for_collateral(collateral_value_usdc, liquidation_threshold_bps) {
        Ok(v) => v,
        Err(e) => return Err(e),
    };
    Ok(debt_amount > liquidation_limit)
}

/// Returns the maximum amount of collateral that one liquidation may sell, according
/// to the configured cap: 1,000 tokens at 2,500 bps allow 250 tokens.
pub fn max_liquidation_amount(collateral_amount: u64, max_liquidation_bps: u16) -> (r: Result<u64, LendingError>)
    ensures
        r == spec_bps_of(collateral_amount, max_liquidation_bps),
{
    let scaled = match collateral_amount.checked_mul(max_liquidation_bps as u64) {
        Some(v) => v,
        None => return Err(LendingError::MathOverflow),
    };
    match scaled.checked_div(BPS_DENOMINATOR) {
        Some(v) => Ok(v),
        None => Err(LendingError::MathOverflow),
    }
}

/// Returns the collateral value in USDC base units. `collateral_amount` is in the
/// collateral mint's base units; `collateral_price_usdc` is in USDC base units per
/// whole collateral token.
pub fn collateral_value_usdc(collateral_amount: u64, collateral_price_usdc: u64, collateral_decimals: u8) -> (r: Result<
    u64,
    LendingError,
>)
    requires
        spec_valuation_returns(collateral_amount, collateral_price_usdc, collateral_decimals),
    ensures
        r == spec_collateral_value_usdc(collateral_amount, collateral_price_usdc, collateral_decimals),
{
    let product = match collateral_amount.checked_mul(collateral_price_usdc) {
        Some(v) => v,
        None => return Err(LendingError::MathOverflow),
    };
    let scale = pow10_u64(collateral_decimals);
    proof {
        lemma_pow10_monotone(0, collateral_decimals as nat);
    }
    match product.checked_div(scale) {
        Some(v) => Ok(v),
        None => Err(LendingError::MathOverflow),
    }
}

/// Calculates the collateral amount required to cover a debt amount while accounting
/// for the liquidation bonus: the liquidator must receive debt plus bonus worth of
/// collateral.
pub fn collateral_required_for_debt(
    debt_amount: u64,
    collateral_price_usdc: u64,
    collateral_decimals: u8,
    liquidation_bonus_bps: u16,
) -> (r: Result<u64, LendingError>)
    requires
        spec_collateral_required_returns(debt_amount, collateral_decimals, liquidation_bonus_bps),
    ensures
        r == spec_collateral_required_for_debt(
            debt_amount,
            collateral_price_usdc,
            collateral_decimals,
            liquidation_bonus_bps,
        ),
{
    let scaled = match debt_amount.checked_mul(BPS_DENOMINATOR + liquidation_bonus_bps as u64) {
        Some(v) => v,
        None => return Err(LendingError::MathOverflow),
    };
    let debt_with_bonus = match scaled.checked_div(BPS_DENOMINATOR) {
        Some(v) => v,
        None => return Err(LendingError::MathOverflow),
    };
    let scale = pow10_u64(collateral_decimals);
    let scaled_debt = match debt_with_bonus.checked_mul(scale) {
        Some(v) => v,
        None => return Err(LendingError::MathOverflow),
    };
    match scaled_debt.checked_div(collateral_price_usdc) {
        Some(v) => Ok(v),
        None => Err(LendingError::MathOverflow),
    }
}

/// Returns the maximum debt that can remain after liquidating a given amount of
/// collateral, useful for checking that a partial liquidation restores health.
pub fn remaining_debt_capacity(
    remaining_collateral: u64,
    collateral_price_usdc: u64,
    collateral_decimals: u8,
    max_ltv_bps: u16,
) -> (r: Result<u64, LendingError>)
    requires
        spec_valuation_returns(remaining_collateral, collateral_price_usdc, collateral_decimals),
    ensures
        r == spec_remaining_debt_capacity(
            remaining_collateral,
            collateral_price_usdc,
            collateral_decimals,
            max_ltv_bps,
        ),
{
    let remaining_value = match collateral_value_usdc(remaining_collateral, collateral_price_usdc, collateral_decimals) {
        Ok(v) => v,
        Err(e) => return Err(e),
    };
    max_debt_for_collateral(remaining_value, max_ltv_bps)
}

/// Calculates the minimum USDC repayment required to restore a position to the
/// maximum allowed LTV: `debt - remaining_collateral_value * max_ltv`, or zero if the
/// position is already healthy. The USDC actually recovered is checked by the caller.
pub fn required_debt_repayment(
    collateral_amount: u64,
    debt_amount: u64,
    collateral_to_sell: u64,
    collateral_price_usdc: u64,
    collateral_decimals: u8,
    max_ltv_bps: u16,
) -> (r: Result<u64, LendingError>)
    requires
        spec_required_repayment_returns(
            collateral_amount,
            collateral_to_sell,
            collateral_price_usdc,
            collateral_decimals,
        ),
    ensures
        r == spec_required_debt_repayment(
            collateral_amount,
            debt_amount,
            collateral_to_sell,
            collateral_price_usdc,
            collateral_decimals,
            max_ltv_bps,
        ),
{
    if collateral_to_sell > collateral_amount {
        return Err(LendingError::InsufficientCollateral);
    }
    let remaining_collateral = match collateral_amount.checked_sub(collateral_to_sell) {
        Some(v) => v,
        None => return Err(LendingError::MathOverflow),
    };
    let remaining_capacity = match remaining_debt_capacity(
        remaining_collateral,
        collateral_price_usdc,
        collateral_decimals,
        max_ltv_bps,
    ) {
        Ok(v) => v,
        Err(e) => return Err(e),
    };
    if debt_amount <= remaining_capacity {
        return Ok(0);
    }
    match debt_amount.checked_sub(remaining_capacity) {
        Some(v) => Ok(v),
        None => Err(LendingError::MathOverflow),
    }
}

/// Validates the result of a liquidation swap. `collateral_to_sell` is the collateral
/// actually sent to the liquidation venue and `usdc_recovered` the USDC actually
/// received by the protocol vault. The liquidation succeeds only if the recovered USDC
/// brings the remaining debt back within the maximum LTV; it returns the debt
/// reduction, which never exceeds the debt.
pub fn validate_liquidation_execution(
    collateral_amount: u64,
    debt_amount: u64,
    collateral_to_sell: u64,
    usdc_recovered: u64,
    collateral_price_usdc: u64,
    collateral_decimals: u8,
    max_ltv_bps: u16,
    max_liquidation_bps: u16,
) -> (r: Result<u64, LendingError>)
    requires
        spec_execution_check_returns(
            collateral_amount,
            debt_amount,
            collateral_to_sell,
            collateral_price_usdc,
            collateral_decimals,
            max_liquidation_bps,
        ),
    ensures
        r == spec_validate_liquidation_execution(
            collateral_amount,
            debt_amount,
            collateral_to_sell,
            usdc_recovered,
            collateral_price_usdc,
            collateral_decimals,
            max_ltv_bps,
            max_liquidation_bps,
        ),
        r matches Ok(repaid) ==> repaid <= debt_amount && repaid <= usdc_recovered,
{
    if collateral_amount == 0 {
        return Err(LendingError::InsufficientCollateral);
    }
    if debt_amount == 0 {
        return Err(LendingError::InvalidAmount);
    }
    if collateral_to_sell == 0 {
        return Err(LendingError::InvalidAmount);
    }
    let max_liquidation = match max_liquidation_amount(collateral_amount, max_liquidation_bps) {
        Ok(v) => v,
        Err(e) => return Err(e),
    };
    if collateral_to_sell > max_liquidation {
        return Err(LendingError::LiquidationExceedsCap);
    }
    let required_repayment = match required_debt_repayment(
        collateral_amount,
        debt_amount,
        collateral_to_sell,
        collateral_price_usdc,
        collateral_decimals,
        max_ltv_bps,
    ) {
        Ok(v) => v,
        Err(e) => return Err(e),
    };
    if usdc_recovered < required_repayment {
        return Err(LendingError::LiquidationCannotRestoreHealth);
    }
    if usdc_recovered <= debt_amount {
        Ok(usdc_recovered)
    } else {
        Ok(debt_amount)
    }
}

/// Checks that a position may be liquidated: it holds collateral, owes debt, and its
/// debt exceeds the collateral value at the liquidation threshold.
pub fn validate_liquidation(market: &MarketConfig, position: &Position, collateral_decimals: u8) -> (r: Result<
    (),
    LendingError,
>)
    requires
        spec_validate_liquidation_returns(*market, *position, collateral_decimals),
    ensures
        r == spec_validate_liquidation(*market, *position, collateral_decimals),
{
    if position.collateral_amount == 0 {
        return Err(LendingError::InsufficientCollateral);
    }
    if position.debt_amount == 0 {
        return Err(LendingError::InvalidAmount);
    }
    let collateral_value = match collateral_value_usdc(
        position.collateral_amount,
        market.collateral_price_usdc,
        collateral_decimals,
    ) {
        Ok(v) => v,
        Err(e) => return Err(e),
    };
    let liquidatable = match is_liquidatable(
        collateral_value,
        position.debt_amount,
        market.liquidation_threshold_bps,
    ) {
        Ok(v) => v,
        Err(e) => return Err(e),
    };
    if !liquidatable {
        return Err(LendingError::PositionHealthy);
    }
    Ok(())
}

/// Calculates the minimum collateral amount to sell under an execution quote
/// `quote_collateral_in -> quote_usdc_out` (a quote from the liquidation venue, used
/// here as a rate to estimate the USDC recovered by each candidate amount): the least
/// sale in `[1, cap]`, where `cap` is the configured liquidation cap, after which the
/// remaining debt fits the maximum LTV.
///
/// The candidates are scanned upward. After a candidate that fails, the scan jumps to
/// the first sale whose recovery covers the gap between the debt and that candidate's
/// remaining capacity: the capacity only shrinks as more is sold, so no sale in
/// between can restore health.
///
/// This is a rate abstraction: the production liquidation obtains a fresh quote and
/// enforces it through the swap's minimum output.
pub fn minimum_collateral_to_sell(
    collateral_amount: u64,
    debt_amount: u64,
    collateral_price_usdc: u64,
    collateral_decimals: u8,
    max_ltv_bps: u16,
    max_liquidation_bps: u16,
    quote_collateral_in: u64,
    quote_usdc_out: u64,
) -> (r: Result<u64, LendingError>)
    requires
        spec_minimum_collateral_to_sell(
            LiquidationSearch {
                collateral_amount,
                debt_amount,
                collateral_price_usdc,
                collateral_decimals,
                max_ltv_bps,
                quote_collateral_in,
                quote_usdc_out,
            },
            max_liquidation_bps,
        ) is Some,
    ensures
        ({
            let search = LiquidationSearch {
                collateral_amount,
                debt_amount,
                collateral_price_usdc,
                collateral_decimals,
                max_ltv_bps,
                quote_collateral_in,
                quote_usdc_out,
            };
            let cap = spec_bps_of(collateral_amount, max_liquidation_bps);
            &&& Some(r) == spec_minimum_collateral_to_sell(search, max_liquidation_bps)
            &&& r matches Ok(m) ==> {
                &&& cap is Ok && 1 <= m <= cap->Ok_0
                &&& search.probe(m as int) == Some(Ok::<bool, LendingError>(true))
                &&& forall|j: int| 1 <= j < m ==> #[trigger] search.probe(j) == Some(Ok::<bool, LendingError>(false))
            }
            &&& (quote_collateral_in > 0 && quote_usdc_out > 0 && cap is Ok && cap->Ok_0 > 0) ==> (r == Err::<
                u64,
                LendingError,
            >(LendingError::LiquidationCannotRestoreHealth) <==> forall|j: int|
                1 <= j <= cap->Ok_0 ==> #[trigger] search.probe(j) == Some(Ok::<bool, LendingError>(false)))
        }),
{
    let ghost search = LiquidationSearch {
        collateral_amount,
        debt_amount,
        collateral_price_usdc,
        collateral_decimals,
        max_ltv_bps,
        quote_collateral_in,
        quote_usdc_out,
    };
    if quote_collateral_in == 0 {
        return Err(LendingError::InvalidAmount);
    }
    if quote_usdc_out == 0 {
        return Err(LendingError::InvalidAmount);
    }
    let max_liquidation = match max_liquidation_amount(collateral_amount, max_liquidation_bps) {
        Ok(v) => v,
        Err(e) => return Err(e),
    };
    if max_liquidation == 0 {
        return Err(LendingError::InsufficientCollateral);
    }
    let mut sold: u64 = 1;
    while sold <= max_liquidation
        invariant
            search == (LiquidationSearch {
                collateral_amount,
                debt_amount,
                collateral_price_usdc,
                collateral_decimals,
                max_ltv_bps,
                quote_collateral_in,
                quote_usdc_out,
            }),
            quote_collateral_in > 0,
            quote_usdc_out > 0,
            1 <= max_liquidation <= u64::MAX / 10000,
            1 <= sold <= max_liquidation + 1,
            search.least_restoring_sale(sold as int, max_liquidation as int) == search.least_restoring_sale(
                1,
                max_liquidation as int,
            ),
            search.least_restoring_sale(1, max_liquidation as int) is Some,
            spec_minimum_collateral_to_sell(search, max_liquidation_bps) == search.least_restoring_sale(
                1,
                max_liquidation as int,
            ),
            spec_bps_of(collateral_amount, max_liquidation_bps) == Ok::<u64, LendingError>(max_liquidation),
        decreases max_liquidation + 1 - sold,
    {
        let ghost top = max_liquidation as int;
        proof {
            lemma_least_restoring_sale_is_least(search, 1, top);
            assert(search.least_restoring_sale(sold as int, top) == match search.probe(sold as int) {
                None => None,
                Some(Err(e)) => Some(Err(e)),
                Some(Ok(restores)) => if restores {
                    Some(Ok(sold))
                } else {
                    search.least_restoring_sale(sold + 1, top)
                },
            });
        }
        let scaled_recovery = match sold.checked_mul(quote_usdc_out) {
            Some(v) => v,
            None => return Err(LendingError::MathOverflow),
        };
        let usdc_recovered = scaled_recovery / quote_collateral_in;
        let remaining_collateral = match collateral_amount.checked_sub(sold) {
            Some(v) => v,
            None => return Err(LendingError::MathOverflow),
        };
        let remaining_capacity = match remaining_debt_capacity(
            remaining_collateral,
            collateral_price_usdc,
            collateral_decimals,
            max_ltv_bps,
        ) {
            Ok(v) => v,
            Err(e) => return Err(e),
        };
        let remaining_debt = debt_amount.saturating_sub(usdc_recovered);
        if remaining_debt <= remaining_capacity {
            return Ok(sold);
        }
        // No sale below `next` can restore health.
        let gap = debt_amount - remaining_capacity;
        proof {
            assert(gap * quote_collateral_in + quote_usdc_out <= u128::MAX) by (nonlinear_arith)
                requires
                    gap <= u64::MAX,
                    quote_collateral_in <= u64::MAX,
                    quote_usdc_out <= u64::MAX,
            ;
        }
        let gap_scaled = gap as u128 * quote_collateral_in as u128;
        let covering = (gap_scaled + (quote_usdc_out as u128 - 1)) / quote_usdc_out as u128;
        let mut next: u128 = sold as u128 + 1;
        if covering > next {
            next = covering;
        }
        proof {
            let q = u64::MAX / quote_usdc_out;
            vstd::arithmetic::div_mod::lemma_fundamental_div_mod(u64::MAX as int, quote_usdc_out as int);
            if sold > q {
                lemma_mul_monotone(q + 1, sold as int, quote_usdc_out as int);
                vstd::arithmetic::mul::lemma_mul_is_distributive_add_other_way(quote_usdc_out as int, q as int, 1);
                vstd::arithmetic::mul::lemma_mul_is_commutative(quote_usdc_out as int, q as int);
                vstd::arithmetic::div_mod::lemma_mod_pos_bound(u64::MAX as int, quote_usdc_out as int);
            }
            assert(sold <= q);
        }
        let first_overflowing = (u64::MAX / quote_usdc_out) as u128 + 1;
        if first_overflowing < next {
            next = first_overflowing;
        }
        if (collateral_amount as u128) + 1 < next {
            next = collateral_amount as u128 + 1;
        }
        if (max_liquidation as u128) + 1 < next {
            next = max_liquidation as u128 + 1;
        }
        proof {
            assert(search.probe(sold as int) == Some(Ok::<bool, LendingError>(false)));
            assert forall|j: int| sold <= j < next implies #[trigger] search.probe(j) == Some(
                Ok::<bool, LendingError>(false),
            ) by {
                if j > sold {
                    lemma_sales_before_the_gap_is_covered_fail(search, sold as int, remaining_capacity, next as int, j);
                }
            }
            lemma_least_restoring_sale_skip(search, sold as int, next as int, top);
        }
        sold = next as u64;
    }
    proof {
        lemma_least_restoring_sale_is_least(search, 1, max_liquidation as int);
    }
    Err(LendingError::LiquidationCannotRestoreHealth)
}

// ---------------------------------------------------------------------------
// The liquidation instruction
// ---------------------------------------------------------------------------

/// What a liquidation reads: the liquidator, the market (address and configuration),
/// the position, the mints (with the collateral mint's decimals), the market's vaults
/// and their authority, and the accounts of the Meteora pool and programs.
#[derive(Debug, Clone, Copy)]
pub struct Liquidate {
    pub liquidator: AccountKey,
    pub market_key: AccountKey,
    pub market: MarketConfig,
    pub position: Position,
    pub collateral_mint: AccountKey,
    pub collateral_decimals: u8,
    pub vault_authority: AccountKey,
    pub vault_collateral_account: AccountKey,
    pub debt_mint: AccountKey,
    pub debt_vault: AccountKey,
    pub lb_pair: AccountKey,
    pub reserve_x: AccountKey,
    pub reserve_y: AccountKey,
    pub oracle: AccountKey,
    pub token_x_mint: AccountKey,
    pub token_y_mint: AccountKey,
    pub meteora_event_authority: AccountKey,
    pub meteora_program: AccountKey,
    pub memo_program: AccountKey,
    pub token_2022_program: AccountKey,
    pub token_program: AccountKey,
}

/// The refusal that the account checks of a liquidation give, if any: the pool, the
/// position and the mints must belong to the market.
pub open spec fn spec_liquidate_account_error(accounts: Liquidate) -> Option<LendingError> {
    let market = accounts.market;
    if market.dlmm_pool@ != accounts.lb_pair@ {
        Some(LendingError::MarketMismatch)
    } else if accounts.position.market@ != accounts.market_key@ {
        Some(LendingError::MarketMismatch)
    } else if accounts.collateral_mint@ != market.collateral_mint@ {
        Some(LendingError::MarketMismatch)
    } else if accounts.debt_mint@ != market.debt_mint@ {
        Some(LendingError::DebtMintMismatch)
    } else if accounts.token_x_mint@ != market.collateral_mint@ {
        Some(LendingError::MarketMismatch)
    } else if accounts.token_y_mint@ != market.debt_mint@ {
        Some(LendingError::DebtMintMismatch)
    } else {
        None
    }
}

/// The `Swap2` accounts of a liquidation: collateral leaves the collateral vault, USDC
/// arrives in the debt vault, and the vault authority signs as the swap's user.
pub open spec fn spec_liquidation_swap_accounts(accounts: Liquidate) -> Swap2Accounts {
    Swap2Accounts {
        lb_pair: accounts.lb_pair,
        bin_array_bitmap_extension: None,
        reserve_x: accounts.reserve_x,
        reserve_y: accounts.reserve_y,
        user_token_in: accounts.vault_collateral_account,
        user_token_out: accounts.debt_vault,
        token_x_mint: accounts.token_x_mint,
        token_y_mint: accounts.token_y_mint,
        oracle: accounts.oracle,
        host_fee_in: None,
        user: accounts.vault_authority,
        token_x_program: accounts.token_2022_program,
        token_y_program: accounts.token_program,
        memo_program: accounts.memo_program,
        event_authority: accounts.meteora_event_authority,
        program: accounts.meteora_program,
    }
}

/// Whether `handle_liquidate` returns at all (see `spec_valuation_returns`).
pub open spec fn spec_liquidate_returns(accounts: Liquidate, collateral_to_sell: u64, min_amount_out: u64) -> bool {
    (spec_liquidate_account_error(accounts) is None && collateral_to_sell > 0 && min_amount_out > 0)
        ==> spec_validate_liquidation_returns(accounts.market, accounts.position, accounts.collateral_decimals)
}

/// What `handle_liquidate` gives: the refusal, or the `Swap2` instruction that sells
/// `collateral_to_sell` for at least `min_amount_out`.
pub open spec fn spec_liquidate(
    accounts: Liquidate,
    collateral_to_sell: u64,
    min_amount_out: u64,
    remaining_accounts: Seq<AccountMeta>,
    r: Result<Instruction, LendingError>,
) -> bool {
    if spec_liquidate_account_error(accounts) is Some {
        r == Err::<Instruction, LendingError>(spec_liquidate_account_error(accounts)->0)
    } else if collateral_to_sell == 0 || min_amount_out == 0 {
        r == Err::<Instruction, LendingError>(LendingError::InvalidAmount)
    } else if spec_validate_liquidation(accounts.market, accounts.position, accounts.collateral_decimals) is Err {
        r == Err::<Instruction, LendingError>(
            spec_validate_liquidation(accounts.market, accounts.position, accounts.collateral_decimals)->Err_0,
        )
    } else {
        spec_build_swap2_instruction(
            spec_liquidation_swap_accounts(accounts),
            collateral_to_sell,
            min_amount_out,
            remaining_accounts,
            Seq::empty(),
            r,
        )
    }
}

/// First part of a liquidation, before the swap: checks that the position is
/// liquidatable and builds the `Swap2` instruction that sells `collateral_to_sell` from
/// the collateral vault into the debt vault. `remaining_accounts` (the pool's bin
/// arrays) follow the fixed accounts; no transfer-hook slices are declared.
pub fn handle_liquidate(
    accounts: &Liquidate,
    collateral_to_sell: u64,
    min_amount_out: u64,
    remaining_accounts: Vec<AccountMeta>,
) -> (r: Result<Instruction, LendingError>)
    requires
        spec_liquidate_returns(*accounts, collateral_to_sell, min_amount_out),
    ensures
        spec_liquidate(*accounts, collateral_to_sell, min_amount_out, remaining_accounts@, r),
{
    let market = &accounts.market;
    if !market.dlmm_pool.eq(&accounts.lb_pair) {
        return Err(LendingError::MarketMismatch);
    }
    if !accounts.position.market.eq(&accounts.market_key) {
        return Err(LendingError::MarketMismatch);
    }
    if !accounts.collateral_mint.eq(&market.collateral_mint) {
        return Err(LendingError::MarketMismatch);
    }
    if !accounts.debt_mint.eq(&market.debt_mint) {
        return Err(LendingError::DebtMintMismatch);
    }
    if !accounts.token_x_mint.eq(&market.collateral_mint) {
        return Err(LendingError::MarketMismatch);
    }
    if !accounts.token_y_mint.eq(&market.debt_mint) {
        return Err(LendingError::DebtMintMismatch);
    }
    if collateral_to_sell == 0 {
        return Err(LendingError::InvalidAmount);
    }
    if min_amount_out == 0 {
        return Err(LendingError::InvalidAmount);
    }
    match validate_liquidation(market, &accounts.position, accounts.collateral_decimals) {
        Ok(()) => {},
        Err(e) => return Err(e),
    }
    let swap_accounts = Swap2Accounts {
        lb_pair: accounts.lb_pair,
        bin_array_bitmap_extension: None,
        reserve_x: accounts.reserve_x,
        reserve_y: accounts.reserve_y,
        user_token_in: accounts.vault_collateral_account,
        user_token_out: accounts.debt_vault,
        token_x_mint: accounts.token_x_mint,
        token_y_mint: accounts.token_y_mint,
        oracle: accounts.oracle,
        host_fee_in: None,
        user: accounts.vault_authority,
        token_x_program: accounts.token_2022_program,
        token_y_program: accounts.token_program,
        memo_program: accounts.memo_program,
        event_authority: accounts.meteora_event_authority,
        program: accounts.meteora_program,
    };
    let remaining_accounts_info = RemainingAccountsInfo { slices: Vec::new() };
    build_swap2_instruction(
        swap_accounts,
        collateral_to_sell,
        min_amount_out,
        remaining_accounts,
        remaining_accounts_info,
    )
}

/// Whether `settle_liquidation` returns at all (see `spec_valuation_returns`).
pub open spec fn spec_settle_liquidation_returns(
    accounts: Liquidate,
    collateral_to_sell: u64,
    debt_vault_before: u64,
    debt_vault_after: u64,
) -> bool {
    debt_vault_after > debt_vault_before ==> spec_execution_check_returns(
        accounts.position.collateral_amount,
        accounts.position.debt_amount,
        collateral_to_sell,
        accounts.market.collateral_price_usdc,
        accounts.collateral_decimals,
        accounts.market.max_liquidation_bps,
    )
}

/// What `settle_liquidation` gives.
pub open spec fn spec_settle_liquidation(
    accounts: Liquidate,
    collateral_to_sell: u64,
    debt_vault_before: u64,
    debt_vault_after: u64,
) -> Result<Position, LendingError> {
    let position = accounts.position;
    let market = accounts.market;
    if debt_vault_after < debt_vault_before {
        Err(LendingError::MathOverflow)
    } else if debt_vault_after == debt_vault_before {
        Err(LendingError::InsufficientDebtLiquidity)
    } else {
        match spec_validate_liquidation_execution(
            position.collateral_amount,
            position.debt_amount,
            collateral_to_sell,
            (debt_vault_after - debt_vault_before) as u64,
            market.collateral_price_usdc,
            accounts.collateral_decimals,
            market.max_ltv_bps,
            market.max_liquidation_bps,
        ) {
            Err(e) => Err(e),
            Ok(repaid) => Ok(
                Position {
                    collateral_amount: (position.collateral_amount - collateral_to_sell) as u64,
                    debt_amount: (position.debt_amount - repaid) as u64,
                    ..position
                },
            ),
        }
    }
}

/// Second part of a liquidation, after the swap: the USDC recovered is the debt vault's
/// balance after minus before (never a caller's claim); it must restore the position
/// to the maximum LTV. The sold collateral leaves the position and the recovered USDC,
/// capped at the debt, repays it.
pub fn settle_liquidation(
    accounts: &Liquidate,
    collateral_to_sell: u64,
    debt_vault_before: u64,
    debt_vault_after: u64,
) -> (r: Result<Position, LendingError>)
    requires
        spec_settle_liquidation_returns(*accounts, collateral_to_sell, debt_vault_before, debt_vault_after),
    ensures
        r == spec_settle_liquidation(*accounts, collateral_to_sell, debt_vault_before, debt_vault_after),
{
    let position = &accounts.position;
    let market = &accounts.market;
    let usdc_recovered = match debt_vault_after.checked_sub(debt_vault_before) {
        Some(v) => v,
        None => return Err(LendingError::MathOverflow),
    };
    if usdc_recovered == 0 {
        return Err(LendingError::InsufficientDebtLiquidity);
    }
    let debt_repaid = match validate_liquidation_execution(
        position.collateral_amount,
        position.debt_amount,
        collateral_to_sell,
        usdc_recovered,
        market.collateral_price_usdc,
        accounts.collateral_decimals,
        market.max_ltv_bps,
        market.max_liquidation_bps,
    ) {
        Ok(v) => v,
        Err(e) => return Err(e),
    };
    let collateral_amount = match position.collateral_amount.checked_sub(collateral_to_sell) {
        Some(v) => v,
        None => return Err(LendingError::MathOverflow),
    };
    let debt_amount = match position.debt_amount.checked_sub(debt_repaid) {
        Some(v) => v,
        None => return Err(LendingError::MathOverflow),
    };
    Ok(Position { collateral_amount, debt_amount, ..*position })
}

/// A liquidation only starts on a position that holds collateral, owes debt, and whose
/// debt exceeds its collateral value at the liquidation threshold.
pub proof fn law_only_unhealthy_positions_are_liquidated(
    accounts: Liquidate,
    collateral_to_sell: u64,
    min_amount_out: u64,
    remaining_accounts: Seq<AccountMeta>,
    r: Result<Instruction, LendingError>,
)
    requires
        spec_liquidate(accounts, collateral_to_sell, min_amount_out, remaining_accounts, r),
        r is Ok,
    ensures
        ({
            let position = accounts.position;
            let value = spec_collateral_value_usdc(
                position.collateral_amount,
                accounts.market.collateral_price_usdc,
                accounts.collateral_decimals,
            );
            &&& position.collateral_amount > 0 && position.debt_amount > 0
            &&& value is Ok
            &&& position.debt_amount > value->Ok_0 * accounts.market.liquidation_threshold_bps / 10000
        }),
{
}

/// A settled liquidation sold no more than the liquidation cap, removed exactly the
/// sold collateral, repaid the recovered USDC (capped at the debt), and left the debt
/// within the remaining collateral's capacity at the maximum LTV.
pub proof fn law_settled_liquidation_restores_health(
    accounts: Liquidate,
    collateral_to_sell: u64,
    debt_vault_before: u64,
    debt_vault_after: u64,
)
    requires
        spec_settle_liquidation(accounts, collateral_to_sell, debt_vault_before, debt_vault_after) is Ok,
    ensures
        ({
            let position = accounts.position;
            let market = accounts.market;
            let after = spec_settle_liquidation(accounts, collateral_to_sell, debt_vault_before, debt_vault_after)->Ok_0;
            let recovered = debt_vault_after - debt_vault_before;
            let capacity = spec_remaining_debt_capacity(
                after.collateral_amount,
                market.collateral_price_usdc,
                accounts.collateral_decimals,
                market.max_ltv_bps,
            );
            &&& spec_bps_of(position.collateral_amount, market.max_liquidation_bps) is Ok
            &&& 0 < collateral_to_sell <= spec_bps_of(position.collateral_amount, market.max_liquidation_bps)->Ok_0
            &&& after.collateral_amount == position.collateral_amount - collateral_to_sell
            &&& after.debt_amount == position.debt_amount - min_int(recovered, position.debt_amount as int)
            &&& capacity is Ok
            &&& after.debt_amount <= capacity->Ok_0
        }),
{
}

/// Every unhealthy position is accepted for liquidation: one that holds collateral and
/// owes debt, whose collateral value can be computed, and whose debt exceeds that value
/// at the liquidation threshold; one whose debt is within it is refused as healthy.
pub proof fn law_unhealthy_positions_are_liquidatable(market: MarketConfig, position: Position, collateral_decimals: u8)
    requires
        position.collateral_amount > 0,
        position.debt_amount > 0,
        position.collateral_amount * market.collateral_price_usdc <= u64::MAX,
        (position.collateral_amount * market.collateral_price_usdc / spec_pow10(collateral_decimals as nat))
            * market.liquidation_threshold_bps <= u64::MAX,
    ensures
        ({
            let value = position.collateral_amount * market.collateral_price_usdc / spec_pow10(
                collateral_decimals as nat,
            );
            &&& position.debt_amount > value * market.liquidation_threshold_bps / 10000 ==> spec_validate_liquidation(
                market,
                position,
                collateral_decimals,
            ) == Ok::<(), LendingError>(())
            &&& position.debt_amount <= value * market.liquidation_threshold_bps / 10000
                ==> spec_validate_liquidation(market, position, collateral_decimals) == Err::<(), LendingError>(
                LendingError::PositionHealthy,
            )
        }),
{
    lemma_pow10_monotone(0, collateral_decimals as nat);
    vstd::arithmetic::div_mod::lemma_div_pos_is_pos(
        position.collateral_amount * market.collateral_price_usdc,
        spec_pow10(collateral_decimals as nat),
    );
    vstd::arithmetic::div_mod::lemma_div_is_ordered_by_denominator(
        position.collateral_amount * market.collateral_price_usdc,
        1,
        spec_pow10(collateral_decimals as nat),
    );
}

/// A settlement is accepted whenever the debt vault grew, the position holds
/// collateral and owes debt, the sale is positive and within the liquidation cap, and
/// the USDC recovered covers the debt beyond the capacity left at the maximum LTV (the
/// remaining collateral's value and capacity being computable): the sold collateral
/// leaves the position and the recovered USDC, capped at the debt, repays it.
pub proof fn law_sufficient_liquidation_settles(
    accounts: Liquidate,
    collateral_to_sell: u64,
    debt_vault_before: u64,
    debt_vault_after: u64,
)
    requires
        ({
            let position = accounts.position;
            let market = accounts.market;
            let remaining = position.collateral_amount - collateral_to_sell;
            let value = remaining * market.collateral_price_usdc / spec_pow10(accounts.collateral_decimals as nat);
            &&& debt_vault_after > debt_vault_before
            &&& position.collateral_amount > 0
            &&& position.debt_amount > 0
            &&& collateral_to_sell > 0
            &&& position.collateral_amount * market.max_liquidation_bps <= u64::MAX
            &&& collateral_to_sell <= position.collateral_amount * market.max_liquidation_bps / 10000
            &&& collateral_to_sell <= position.collateral_amount
            &&& remaining * market.collateral_price_usdc <= u64::MAX
            &&& value * market.max_ltv_bps <= u64::MAX
            &&& position.debt_amount <= (debt_vault_after - debt_vault_before) + value * market.max_ltv_bps / 10000
        }),
    ensures
        ({
            let position = accounts.position;
            let recovered = debt_vault_after - debt_vault_before;
            let repaid = if recovered < position.debt_amount {
                recovered
            } else {
                position.debt_amount as int
            };
            spec_settle_liquidation(accounts, collateral_to_sell, debt_vault_before, debt_vault_after) == Ok::<
                Position,
                LendingError,
            >(
                Position {
                    collateral_amount: (position.collateral_amount - collateral_to_sell) as u64,
                    debt_amount: (position.debt_amount - repaid) as u64,
                    ..position
                },
            )
        }),
{
    let position = accounts.position;
    let market = accounts.market;
    let remaining = position.collateral_amount - collateral_to_sell;
    let product = remaining * market.collateral_price_usdc;
    let scale = spec_pow10(accounts.collateral_decimals as nat);
    lemma_pow10_monotone(0, accounts.collateral_decimals as nat);
    assert(0 <= product) by (nonlinear_arith)
        requires
            product == remaining * market.collateral_price_usdc,
            0 <= remaining,
            0 <= market.collateral_price_usdc,
    ;
    vstd::arithmetic::div_mod::lemma_div_pos_is_pos(product, scale);
    vstd::arithmetic::div_mod::lemma_div_is_ordered_by_denominator(product, 1, scale);
    let value = product / scale;
    assert(spec_collateral_value_usdc(remaining as u64, market.collateral_price_usdc, accounts.collateral_decimals)
        == Ok::<u64, LendingError>(value as u64));
    assert(spec_remaining_debt_capacity(
        remaining as u64,
        market.collateral_price_usdc,
        accounts.collateral_decimals,
        market.max_ltv_bps,
    ) == Ok::<u64, LendingError>((value * market.max_ltv_bps / 10000) as u64));
}

} // verus!
