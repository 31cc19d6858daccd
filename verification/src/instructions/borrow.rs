//! Borrowing against collateral, within the liquidity-derived effective LTV.
use vstd::prelude::*;

use crate::error::LendingError;
use crate::key::AccountKey;
use crate::math::{checked_pow10_u128, lemma_bps_monotone, spec_pow10};
use crate::risk_engine::{assess_risk, spec_assess_risk, spec_effective_ltv_bps, spec_snapshot_freshness};
use crate::state::{LiquidityRiskSnapshot, MarketConfig, Position};

verus! {

/// What a borrow reads: the borrower, the market (address and configuration), the
/// borrower's position, the market's liquidity snapshot, the two mints (with the
/// collateral mint's decimals) and the balance of the market's debt vault.
#[derive(Debug, Clone, Copy)]
pub struct Borrow {
    pub user: AccountKey,
    pub market_key: AccountKey,
    pub market: MarketConfig,
    pub position: Position,
    pub risk_snapshot: LiquidityRiskSnapshot,
    pub collateral_mint: AccountKey,
    pub collateral_decimals: u8,
    pub debt_mint: AccountKey,
    pub debt_vault_amount: u64,
}

/// The refusal that the account checks of a borrow give, if any: the position must
/// belong to the borrower and the market, and the snapshot and mints to the market.
pub open spec fn spec_borrow_account_error(accounts: Borrow) -> Option<LendingError> {
    if accounts.position.owner@ != accounts.user@ {
        Some(LendingError::MarketMismatch)
    } else if accounts.position.market@ != accounts.market_key@ {
        Some(LendingError::MarketMismatch)
    } else if accounts.risk_snapshot.market@ != accounts.market_key@ {
        Some(LendingError::MarketMismatch)
    } else if accounts.collateral_mint@ != accounts.market.collateral_mint@ {
        Some(LendingError::MarketMismatch)
    } else if accounts.debt_mint@ != accounts.market.debt_mint@ {
        Some(LendingError::DebtMintMismatch)
    } else {
        None
    }
}

/// The USDC value of the position's collateral as a borrow computes it (in 128-bit
/// arithmetic, with `10^decimals` required to fit 128 bits and the value 64 bits).
pub open spec fn spec_borrow_collateral_value(accounts: Borrow) -> Result<u64, LendingError> {
    let scale = spec_pow10(accounts.collateral_decimals as nat);
    let value = accounts.position.collateral_amount * accounts.market.collateral_price_usdc / scale;
    if scale > u128::MAX {
        Err(LendingError::MathOverflow)
    } else if value > u64::MAX {
        Err(LendingError::MathOverflow)
    } else {
        Ok(value as u64)
    }
}

/// What `handle_borrow` gives: the refusal, or the position with its debt increased by
/// `amount`.
pub open spec fn spec_borrow(accounts: Borrow, amount: u64, current_slot: u64) -> Result<Position, LendingError> {
    let position = accounts.position;
    if spec_borrow_account_error(accounts) is Some {
        Err(spec_borrow_account_error(accounts)->0)
    } else if amount == 0 {
        Err(LendingError::InvalidAmount)
    } else {
        match spec_borrow_collateral_value(accounts) {
            Err(e) => Err(e),
            Ok(value) => if value == 0 {
                Err(LendingError::InsufficientCollateral)
            } else {
                match spec_assess_risk(accounts.market, accounts.risk_snapshot, value, current_slot) {
                    Err(e) => Err(e),
                    Ok(risk) => if position.debt_amount + amount > u64::MAX {
                        Err(LendingError::MathOverflow)
                    } else if position.debt_amount + amount > risk.max_debt {
                        Err(LendingError::BorrowExceedsLtv)
                    } else if accounts.debt_vault_amount < amount {
                        Err(LendingError::InsufficientDebtLiquidity)
                    } else {
                        Ok(Position { debt_amount: (position.debt_amount + amount) as u64, ..position })
                    },
                }
            },
        }
    }
}

/// Borrows `amount` of the debt asset at `current_slot`: the liquidity snapshot must be
/// fresh, and the new debt must fit the collateral value at the effective LTV (the
/// execution-derived LTV capped by the issuer-risk ceiling), not the static maximum.
/// Returns the updated position; the caller then transfers `amount` from the vault.
pub fn handle_borrow(accounts: &Borrow, amount: u64, current_slot: u64) -> (r: Result<Position, LendingError>)
    ensures
        r == spec_borrow(*accounts, amount, current_slot),
{
    let position = &accounts.position;
    let market = &accounts.market;
    if !position.owner.eq(&accounts.user) {
        return Err(LendingError::MarketMismatch);
    }
    if !position.market.eq(&accounts.market_key) {
        return Err(LendingError::MarketMismatch);
    }
    if !accounts.risk_snapshot.market.eq(&accounts.market_key) {
        return Err(LendingError::MarketMismatch);
    }
    if !accounts.collateral_mint.eq(&market.collateral_mint) {
        return Err(LendingError::MarketMismatch);
    }
    if !accounts.debt_mint.eq(&market.debt_mint) {
        return Err(LendingError::DebtMintMismatch);
    }
    if amount == 0 {
        return Err(LendingError::InvalidAmount);
    }
    let collateral_scale = match checked_pow10_u128(accounts.collateral_decimals) {
        Some(v) => v,
        None => return Err(LendingError::MathOverflow),
    };
    proof {
        crate::math::lemma_pow10_monotone(0, accounts.collateral_decimals as nat);
        assert(position.collateral_amount * market.collateral_price_usdc <= u64::MAX * u64::MAX) by (nonlinear_arith)
            requires
                position.collateral_amount <= u64::MAX,
                market.collateral_price_usdc <= u64::MAX,
        ;
    }
    let product = match (position.collateral_amount as u128).checked_mul(market.collateral_price_usdc as u128) {
        Some(v) => v,
        None => return Err(LendingError::MathOverflow),
    };
    let collateral_value_usdc_u128 = match product.checked_div(collateral_scale) {
        Some(v) => v,
        None => return Err(LendingError::MathOverflow),
    };
    if collateral_value_usdc_u128 > u64::MAX as u128 {
        return Err(LendingError::MathOverflow);
    }
    let collateral_value_usdc = collateral_value_usdc_u128 as u64;
    if collateral_value_usdc == 0 {
        return Err(LendingError::InsufficientCollateral);
    }
    let risk = match assess_risk(market, &accounts.risk_snapshot, collateral_value_usdc, current_slot) {
        Ok(v) => v,
        Err(e) => return Err(e),
    };
    let new_debt = match position.debt_amount.checked_add(amount) {
        Some(v) => v,
        None => return Err(LendingError::MathOverflow),
    };
    if new_debt > risk.max_debt {
        return Err(LendingError::BorrowExceedsLtv);
    }
    if accounts.debt_vault_amount < amount {
        return Err(LendingError::InsufficientDebtLiquidity);
    }
    Ok(Position { debt_amount: new_debt, ..*position })
}

/// A successful borrow relied on a fresh snapshot and leaves the debt (old debt plus
/// `amount`) within the collateral value at the effective LTV, hence also within it at
/// the issuer-risk ceiling; nothing but the debt changes.
pub proof fn law_borrow_respects_effective_ltv(accounts: Borrow, amount: u64, current_slot: u64)
    requires
        spec_borrow(accounts, amount, current_slot) is Ok,
    ensures
        ({
            let borrowed = spec_borrow(accounts, amount, current_slot)->Ok_0;
            let value = spec_borrow_collateral_value(accounts)->Ok_0;
            let effective = spec_effective_ltv_bps(accounts.market, accounts.risk_snapshot.quote_usdc_out)->Ok_0;
            &&& spec_snapshot_freshness(accounts.risk_snapshot.observed_slot, current_slot) is Ok
            &&& spec_borrow_collateral_value(accounts) is Ok
            &&& spec_effective_ltv_bps(accounts.market, accounts.risk_snapshot.quote_usdc_out) is Ok
            &&& borrowed.debt_amount == accounts.position.debt_amount + amount
            &&& borrowed.debt_amount <= value * effective / 10000
            &&& borrowed.debt_amount <= value * accounts.market.issuer_risk_ceiling_bps / 10000
            &&& borrowed.collateral_amount == accounts.position.collateral_amount
            &&& borrowed.owner == accounts.position.owner && borrowed.market == accounts.position.market
        }),
{
    let value = spec_borrow_collateral_value(accounts)->Ok_0;
    let effective = spec_effective_ltv_bps(accounts.market, accounts.risk_snapshot.quote_usdc_out)->Ok_0;
    lemma_bps_monotone(
        value as int,
        value as int,
        effective as int,
        accounts.market.issuer_risk_ceiling_bps as int,
    );
}

/// A borrow whose accounts belong together and whose new debt fits the risk
/// assessment of the collateral's value succeeds exactly when the debt vault holds the
/// amount lent: the position's debt grows by `amount` and nothing else changes;
/// otherwise it is refused for liquidity.
pub proof fn law_borrow_within_capacity_succeeds(accounts: Borrow, amount: u64, current_slot: u64)
    requires
        accounts.position.owner@ == accounts.user@,
        accounts.position.market@ == accounts.market_key@,
        accounts.risk_snapshot.market@ == accounts.market_key@,
        accounts.collateral_mint@ == accounts.market.collateral_mint@,
        accounts.debt_mint@ == accounts.market.debt_mint@,
        amount > 0,
        spec_pow10(accounts.collateral_decimals as nat) <= u128::MAX,
        0 < accounts.position.collateral_amount * accounts.market.collateral_price_usdc / spec_pow10(
            accounts.collateral_decimals as nat,
        ) <= u64::MAX,
        spec_assess_risk(
            accounts.market,
            accounts.risk_snapshot,
            (accounts.position.collateral_amount * accounts.market.collateral_price_usdc / spec_pow10(
                accounts.collateral_decimals as nat,
            )) as u64,
            current_slot,
        ) matches Ok(risk) && accounts.position.debt_amount + amount <= risk.max_debt,
    ensures
        accounts.debt_vault_amount >= amount ==> spec_borrow(accounts, amount, current_slot) == Ok::<
            Position,
            LendingError,
        >(Position { debt_amount: (accounts.position.debt_amount + amount) as u64, ..accounts.position }),
        accounts.debt_vault_amount < amount ==> spec_borrow(accounts, amount, current_slot) == Err::<
            Position,
            LendingError,
        >(LendingError::InsufficientDebtLiquidity),
{
}

/// A borrow is refused whenever the liquidity snapshot is stale at `current_slot`.
pub proof fn law_stale_snapshot_blocks_borrow(accounts: Borrow, amount: u64, current_slot: u64)
    requires
        spec_snapshot_freshness(accounts.risk_snapshot.observed_slot, current_slot) is Err,
    ensures
        spec_borrow(accounts, amount, current_slot) is Err,
{
}

} // verus!
