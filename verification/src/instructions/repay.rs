//! Repaying debt.
use vstd::prelude::*;

use crate::error::LendingError;
use crate::key::AccountKey;
use crate::instructions::borrow::{spec_borrow, Borrow};
use crate::state::{MarketConfig, Position};

verus! {

/// What a repayment reads: the payer, the market (address and configuration), the
/// payer's position and the mint of the repaid tokens.
#[derive(Debug, Clone, Copy)]
pub struct Repay {
    pub user: AccountKey,
    pub market_key: AccountKey,
    pub market: MarketConfig,
    pub position: Position,
    pub debt_mint: AccountKey,
}

/// What `handle_repay` gives: the refusal, or the position with its debt reduced by `amount`.
pub open spec fn spec_repay(accounts: Repay, amount: u64) -> Result<Position, LendingError> {
    let position = accounts.position;
    if position.owner@ != accounts.user@ {
        Err(LendingError::MarketMismatch)
    } else if position.market@ != accounts.market_key@ {
        Err(LendingError::MarketMismatch)
    } else if accounts.debt_mint@ != accounts.market.debt_mint@ {
        Err(LendingError::DebtMintMismatch)
    } else if amount == 0 || amount > position.debt_amount {
        Err(LendingError::InvalidAmount)
    } else {
        Ok(Position { debt_amount: (position.debt_amount - amount) as u64, ..position })
    }
}

/// Repays `amount` of the position's debt; repaying more than the debt is refused.
/// Needs no liquidity snapshot: reducing risk stays possible when liquidity data is
/// stale. Returns the updated position; the caller transfers `amount` to the vault.
pub fn handle_repay(accounts: &Repay, amount: u64) -> (r: Result<Position, LendingError>)
    ensures
        r == spec_repay(*accounts, amount),
{
    let position = &accounts.position;
    if !position.owner.eq(&accounts.user) {
        return Err(LendingError::MarketMismatch);
    }
    if !position.market.eq(&accounts.market_key) {
        return Err(LendingError::MarketMismatch);
    }
    if !accounts.debt_mint.eq(&accounts.market.debt_mint) {
        return Err(LendingError::DebtMintMismatch);
    }
    if amount == 0 {
        return Err(LendingError::InvalidAmount);
    }
    let current_debt = position.debt_amount;
    if amount > current_debt {
        return Err(LendingError::InvalidAmount);
    }
    let debt_amount = match current_debt.checked_sub(amount) {
        Some(v) => v,
        None => return Err(LendingError::MathOverflow),
    };
    Ok(Position { debt_amount, ..*position })
}

/// A repayment by the position's owner in the market's debt mint succeeds for every
/// positive amount up to the debt, lowering the debt by that amount and changing
/// nothing else; an amount above the debt, or zero, is refused as invalid.
pub proof fn law_repayment_up_to_the_debt_succeeds(accounts: Repay, amount: u64)
    requires
        accounts.position.owner@ == accounts.user@,
        accounts.position.market@ == accounts.market_key@,
        accounts.debt_mint@ == accounts.market.debt_mint@,
    ensures
        0 < amount <= accounts.position.debt_amount ==> spec_repay(accounts, amount) == Ok::<Position, LendingError>(
            Position { debt_amount: (accounts.position.debt_amount - amount) as u64, ..accounts.position },
        ),
        (amount == 0 || amount > accounts.position.debt_amount) ==> spec_repay(accounts, amount) == Err::<
            Position,
            LendingError,
        >(LendingError::InvalidAmount),
{
}

/// Repaying the amount just borrowed, with the same wallet, market and debt mint,
/// restores the position exactly.
pub proof fn law_repay_undoes_borrow(accounts: Borrow, amount: u64, current_slot: u64)
    requires
        spec_borrow(accounts, amount, current_slot) is Ok,
    ensures
        spec_repay(
            Repay {
                user: accounts.user,
                market_key: accounts.market_key,
                market: accounts.market,
                position: spec_borrow(accounts, amount, current_slot)->Ok_0,
                debt_mint: accounts.debt_mint,
            },
            amount,
        ) == Ok::<Position, LendingError>(accounts.position),
{
}

} // verus!
