//! Depositing collateral, credited with what the vault actually received.
use vstd::prelude::*;

use crate::error::LendingError;
use crate::key::{spec_zero_key, AccountKey};
use crate::state::{MarketConfig, Position};

verus! {

/// What a deposit reads: the depositor, the market (its address and configuration),
/// the depositor's position (all zero when it was just created) with the bump of its
/// derived address, and the mint of the deposited tokens.
#[derive(Debug, Clone, Copy)]
pub struct DepositCollateral {
    pub user: AccountKey,
    pub market_key: AccountKey,
    pub market: MarketConfig,
    pub position: Position,
    pub position_bump: u8,
    pub collateral_mint: AccountKey,
}

/// What `handle_deposit_collateral` gives: the refusal, or the position with its owner
/// and market recorded (set on the first deposit), ready to receive the transfer.
pub open spec fn spec_deposit_collateral(accounts: DepositCollateral, amount: u64, r: Result<Position, LendingError>) -> bool {
    let position = accounts.position;
    let fresh = position.owner@ == spec_zero_key();
    if accounts.collateral_mint@ != accounts.market.collateral_mint@ {
        r == Err::<Position, LendingError>(LendingError::MarketMismatch)
    } else if amount == 0 {
        r == Err::<Position, LendingError>(LendingError::InvalidAmount)
    } else if !(fresh || position.owner@ == accounts.user@) {
        r == Err::<Position, LendingError>(LendingError::MarketMismatch)
    } else if !(position.market@ == spec_zero_key() || position.market@ == accounts.market_key@) {
        r == Err::<Position, LendingError>(LendingError::MarketMismatch)
    } else if !fresh && position.market@ != accounts.market_key@ {
        r == Err::<Position, LendingError>(LendingError::MarketMismatch)
    } else {
        r matches Ok(p) && p.owner@ == accounts.user@ && p.market@ == accounts.market_key@ && p.collateral_amount
            == position.collateral_amount && p.debt_amount == position.debt_amount && p.bump == (if fresh {
            accounts.position_bump
        } else {
            position.bump
        })
    }
}

/// First part of a deposit, before the transfer: checks the amount and the mint, and
/// records the position's owner and market on the first deposit.
pub fn handle_deposit_collateral(accounts: &DepositCollateral, amount: u64) -> (r: Result<Position, LendingError>)
    ensures
        spec_deposit_collateral(*accounts, amount, r),
{
    if !accounts.collateral_mint.eq(&accounts.market.collateral_mint) {
        return Err(LendingError::MarketMismatch);
    }
    if amount == 0 {
        return Err(LendingError::InvalidAmount);
    }
    let mut position = accounts.position;
    let owner_unset = position.owner.is_zero();
    if !(owner_unset || position.owner.eq(&accounts.user)) {
        return Err(LendingError::MarketMismatch);
    }
    if !(position.market.is_zero() || position.market.eq(&accounts.market_key)) {
        return Err(LendingError::MarketMismatch);
    }
    if owner_unset {
        position.owner = accounts.user;
        position.market = accounts.market_key;
        position.bump = accounts.position_bump;
    }
    if !position.owner.eq(&accounts.user) {
        return Err(LendingError::MarketMismatch);
    }
    if !position.market.eq(&accounts.market_key) {
        return Err(LendingError::MarketMismatch);
    }
    Ok(position)
}

/// What `settle_deposit_collateral` gives.
pub open spec fn spec_settle_deposit(
    position: Position,
    vault_balance_before: u64,
    vault_balance_after: u64,
    r: Result<Position, LendingError>,
) -> bool {
    if vault_balance_after < vault_balance_before {
        r == Err::<Position, LendingError>(LendingError::MathOverflow)
    } else if vault_balance_after == vault_balance_before {
        r == Err::<Position, LendingError>(LendingError::InvalidAmount)
    } else if position.collateral_amount + (vault_balance_after - vault_balance_before) > u64::MAX {
        r == Err::<Position, LendingError>(LendingError::MathOverflow)
    } else {
        r == Ok::<Position, LendingError>(
            Position {
                collateral_amount: (position.collateral_amount + (vault_balance_after - vault_balance_before)) as u64,
                ..position
            },
        )
    }
}

/// Second part of a deposit, after the transfer: credits the position with what the
/// vault actually received (its balance after minus before), which is less than the
/// amount sent when the collateral mint charges a transfer fee.
pub fn settle_deposit_collateral(position: &Position, vault_balance_before: u64, vault_balance_after: u64) -> (r: Result<
    Position,
    LendingError,
>)
    ensures
        spec_settle_deposit(*position, vault_balance_before, vault_balance_after, r),
{
    let received = match vault_balance_after.checked_sub(vault_balance_before) {
        Some(v) => v,
        None => return Err(LendingError::MathOverflow),
    };
    if received == 0 {
        return Err(LendingError::InvalidAmount);
    }
    let collateral_amount = match position.collateral_amount.checked_add(received) {
        Some(v) => v,
        None => return Err(LendingError::MathOverflow),
    };
    Ok(Position { collateral_amount, ..*position })
}

/// Settling a deposit credits the position with exactly what the vault gained, and
/// changes nothing else; a vault that did not grow is refused.
pub proof fn law_deposit_credits_the_vault_growth(
    position: Position,
    vault_balance_before: u64,
    vault_balance_after: u64,
    r: Result<Position, LendingError>,
)
    requires
        spec_settle_deposit(position, vault_balance_before, vault_balance_after, r),
    ensures
        vault_balance_after > vault_balance_before && position.collateral_amount + vault_balance_after
            - vault_balance_before <= u64::MAX ==> (r matches Ok(p) && p.collateral_amount - position.collateral_amount
            == vault_balance_after - vault_balance_before && p.debt_amount == position.debt_amount && p.owner
            == position.owner && p.market == position.market && p.bump == position.bump),
        vault_balance_after <= vault_balance_before ==> r is Err,
{
}

} // verus!
