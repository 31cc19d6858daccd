//! Withdrawing collateral while keeping the position within the maximum LTV.
use vstd::prelude::*;

use crate::error::LendingError;
use crate::key::AccountKey;
use crate::math::{lemma_pow10_monotone, pow10_u64, spec_pow10};
use crate::constants::MAX_RISK_SNAPSHOT_AGE_SLOTS;
use crate::risk_engine::{spec_snapshot_freshness, validate_snapshot_freshness};
use crate::instructions::deposit_collateral::spec_settle_deposit;
use crate::state::{LiquidityRiskSnapshot, MarketConfig, Position};

verus! {

/// What a withdrawal reads: the owner, the market (address and configuration), the
/// owner's position, the market's liquidity snapshot and the collateral mint with its
/// decimals.
#[derive(Debug, Clone, Copy)]
pub struct WithdrawCollateral {
    pub user: AccountKey,
    pub market_key: AccountKey,
    pub market: MarketConfig,
    pub position: Position,
    pub risk_snapshot: LiquidityRiskSnapshot,
    pub collateral_mint: AccountKey,
    pub collateral_decimals: u8,
}

/// The refusal that the account checks of a withdrawal give, if any.
pub open spec fn spec_withdraw_account_error(accounts: WithdrawCollateral) -> Option<LendingError> {
    if accounts.position.owner@ != accounts.user@ {
        Some(LendingError::MarketMismatch)
    } else if accounts.position.market@ != accounts.market_key@ {
        Some(LendingError::MarketMismatch)
    } else if accounts.risk_snapshot.market@ != accounts.market_key@ {
        Some(LendingError::MarketMismatch)
    } else if accounts.collateral_mint@ != accounts.market.collateral_mint@ {
        Some(LendingError::MarketMismatch)
    } else {
        None
    }
}

/// Whether `handle_withdraw_collateral` returns at all: valuing the remaining collateral
/// scales by `10^decimals`, which panics beyond `u64` unless the product has already
/// overflowed and been reported.
pub open spec fn spec_withdraw_returns(accounts: WithdrawCollateral, amount: u64) -> bool {
    (spec_withdraw_account_error(accounts) is None && 0 < amount <= accounts.position.collateral_amount
        && (accounts.position.collateral_amount - amount) * accounts.market.collateral_price_usdc <= u64::MAX)
        ==> accounts.collateral_decimals <= 19
}

/// What `handle_withdraw_collateral` gives: the refusal, or the position with `amount`
/// less collateral.
pub open spec fn spec_withdraw(accounts: WithdrawCollateral, amount: u64, current_slot: u64) -> Result<
    Position,
    LendingError,
> {
    let position = accounts.position;
    let remaining = position.collateral_amount - amount;
    if spec_withdraw_account_error(accounts) is Some {
        Err(spec_withdraw_account_error(accounts)->0)
    } else if amount == 0 {
        Err(LendingError::InvalidAmount)
    } else if amount > position.collateral_amount {
        Err(LendingError::InsufficientCollateral)
    } else if remaining * accounts.market.collateral_price_usdc > u64::MAX {
        Err(LendingError::MathOverflow)
    } else {
        let value = remaining * accounts.market.collateral_price_usdc / spec_pow10(
            accounts.collateral_decimals as nat,
        );
        if spec_snapshot_freshness(accounts.risk_snapshot.observed_slot, current_slot) is Err {
            Err(LendingError::StaleLiquidityQuote)
        } else if position.debt_amount > 0 && value * accounts.market.max_ltv_bps > u64::MAX {
            Err(LendingError::MathOverflow)
        } else if position.debt_amount > 0 && position.debt_amount > value * accounts.market.max_ltv_bps
            / 10000 {
            Err(LendingError::WithdrawalViolatesLtv)
        } else {
            Ok(Position { collateral_amount: remaining as u64, ..position })
        }
    }
}

/// Withdraws `amount` of collateral at `current_slot`. The market's liquidity snapshot
/// must be fresh (a withdrawal is refused on stale liquidity data), and a position with
/// debt must keep its debt within the remaining collateral value at the maximum LTV.
/// Returns the updated position; the caller transfers `amount` out of the vault.
pub fn handle_withdraw_collateral(accounts: &WithdrawCollateral, amount: u64, current_slot: u64) -> (r: Result<
    Position,
    LendingError,
>)
    requires
        spec_withdraw_returns(*accounts, amount),
    ensures
        r == spec_withdraw(*accounts, amount, current_slot),
{
    let position = &accounts.position;
    let market = &accounts.market;
    if !position.owner.eq(&accounts.user) {
        return Err(LendingError::MarketMismatch);
    }
    if !position.market.eq(&accounts.market_key) {
        return Err(LendingError::MarketMismatch);
    }
    if !accounts.risk_snapshot.market.eq(&accounts.market_key) {
        return Err(LendingError::MarketMismatch);
    }
    if !accounts.collateral_mint.eq(&market.collateral_mint) {
        return Err(LendingError::MarketMismatch);
    }
    if amount == 0 {
        return Err(LendingError::InvalidAmount);
    }
    if amount > position.collateral_amount {
        return Err(LendingError::InsufficientCollateral);
    }
    let remaining_collateral = match position.collateral_amount.checked_sub(amount) {
        Some(v) => v,
        None => return Err(LendingError::MathOverflow),
    };
    let product = match remaining_collateral.checked_mul(market.collateral_price_usdc) {
        Some(v) => v,
        None => return Err(LendingError::MathOverflow),
    };
    let scale = pow10_u64(accounts.collateral_decimals);
    proof {
        lemma_pow10_monotone(0, accounts.collateral_decimals as nat);
    }
    let remaining_collateral_value_usdc = match product.checked_div(scale) {
        Some(v) => v,
        None => return Err(LendingError::MathOverflow),
    };
    match validate_snapshot_freshness(&accounts.risk_snapshot, current_slot) {
        Ok(()) => {},
        Err(_) => return Err(LendingError::StaleLiquidityQuote),
    }
    if position.debt_amount > 0 {
        let scaled = match remaining_collateral_value_usdc.checked_mul(market.max_ltv_bps as u64) {
            Some(v) => v,
            None => return Err(LendingError::MathOverflow),
        };
        let max_debt = match scaled.checked_div(10_000) {
            Some(v) => v,
            None => return Err(LendingError::MathOverflow),
        };
        if position.debt_amount > max_debt {
            return Err(LendingError::WithdrawalViolatesLtv);
        }
    }
    Ok(Position { collateral_amount: remaining_collateral, ..*position })
}

/// A successful withdrawal relied on a fresh snapshot, removed exactly `amount` of
/// collateral, and leaves any debt within the remaining collateral value at the
/// maximum LTV.
pub proof fn law_withdrawal_keeps_position_within_max_ltv(
    accounts: WithdrawCollateral,
    amount: u64,
    current_slot: u64,
)
    requires
        spec_withdraw(accounts, amount, current_slot) is Ok,
    ensures
        ({
            let after = spec_withdraw(accounts, amount, current_slot)->Ok_0;
            let value = after.collateral_amount * accounts.market.collateral_price_usdc / spec_pow10(
                accounts.collateral_decimals as nat,
            );
            &&& spec_snapshot_freshness(accounts.risk_snapshot.observed_slot, current_slot) is Ok
            &&& after.collateral_amount == accounts.position.collateral_amount - amount
            &&& after.debt_amount == accounts.position.debt_amount
            &&& after.debt_amount > 0 ==> after.debt_amount <= value * accounts.market.max_ltv_bps / 10000
        }),
{
}

/// A withdrawal from a position whose accounts belong together, on a fresh
/// snapshot, of a positive amount no larger than the collateral (whose remaining value
/// can be computed) succeeds exactly when any debt stays within the remaining value at
/// the maximum LTV: the collateral falls by `amount` and nothing else changes. With no
/// debt every such amount, the whole collateral included, is accepted; an amount above
/// the collateral is refused as insufficient collateral.
pub proof fn law_withdrawal_within_health_succeeds(accounts: WithdrawCollateral, amount: u64, current_slot: u64)
    requires
        accounts.position.owner@ == accounts.user@,
        accounts.position.market@ == accounts.market_key@,
        accounts.risk_snapshot.market@ == accounts.market_key@,
        accounts.collateral_mint@ == accounts.market.collateral_mint@,
        amount > 0,
    ensures
        amount > accounts.position.collateral_amount ==> spec_withdraw(accounts, amount, current_slot) == Err::<
            Position,
            LendingError,
        >(LendingError::InsufficientCollateral),
        ({
            let remaining = accounts.position.collateral_amount - amount;
            let value = remaining * accounts.market.collateral_price_usdc / spec_pow10(
                accounts.collateral_decimals as nat,
            );
            let debt = accounts.position.debt_amount;
            (amount <= accounts.position.collateral_amount && remaining * accounts.market.collateral_price_usdc
                <= u64::MAX && accounts.risk_snapshot.observed_slot <= current_slot
                <= accounts.risk_snapshot.observed_slot + MAX_RISK_SNAPSHOT_AGE_SLOTS && (debt == 0 || (value
                * accounts.market.max_ltv_bps <= u64::MAX && debt <= value * accounts.market.max_ltv_bps / 10000)))
                ==> spec_withdraw(accounts, amount, current_slot) == Ok::<Position, LendingError>(
                Position { collateral_amount: remaining as u64, ..accounts.position },
            )
        }),
{
}

/// A withdrawal is refused whenever the liquidity snapshot is stale at `current_slot`.
pub proof fn law_stale_snapshot_blocks_withdrawal(accounts: WithdrawCollateral, amount: u64, current_slot: u64)
    requires
        spec_snapshot_freshness(accounts.risk_snapshot.observed_slot, current_slot) is Err,
    ensures
        spec_withdraw(accounts, amount, current_slot) is Err,
{
}

/// Withdrawing exactly what a deposit credited restores the position as it was
/// before the deposit.
pub proof fn law_withdrawal_undoes_deposit(
    position: Position,
    vault_balance_before: u64,
    vault_balance_after: u64,
    deposited: Position,
    accounts: WithdrawCollateral,
    current_slot: u64,
)
    requires
        spec_settle_deposit(position, vault_balance_before, vault_balance_after, Ok(deposited)),
        accounts.position == deposited,
        spec_withdraw(accounts, (vault_balance_after - vault_balance_before) as u64, current_slot) is Ok,
    ensures
        spec_withdraw(accounts, (vault_balance_after - vault_balance_before) as u64, current_slot)->Ok_0 == position,
{
}

} // verus!
