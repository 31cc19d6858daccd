//! Whole-instruction scenarios. Each instruction is run through the library's
//! decision and the token movements around it are applied to a small in-memory
//! ledger, as the on-chain program applies them through the token program.

use anchor_lang::prelude::Pubkey;

use liquidity_aware_lending::constants::{
    ISSUER_RISK_CEILING_BPS, LIQUIDATION_BONUS_BPS, LIQUIDATION_THRESHOLD_BPS, MAX_LIQUIDATION_BPS, MAX_LTV_BPS,
    MAX_RISK_SNAPSHOT_AGE_SLOTS, MIN_LTV_BPS, PRESTOCKS_TRANSFER_FEE_BPS, REFERENCE_LIQUIDATION_SIZE_USDC,
};
use liquidity_aware_lending::error::LendingError;
use liquidity_aware_lending::instructions::borrow::{handle_borrow, Borrow};
use liquidity_aware_lending::instructions::deposit_collateral::{
    handle_deposit_collateral, settle_deposit_collateral, DepositCollateral,
};
use liquidity_aware_lending::instructions::initialize::{handle_initialize, Initialize, InitializeMarketParams};
use liquidity_aware_lending::instructions::liquidate::{handle_liquidate, settle_liquidation, Liquidate};
use liquidity_aware_lending::instructions::repay::{handle_repay, Repay};
use liquidity_aware_lending::instructions::update_liquidity_risk::{
    handle_update_liquidity_risk, UpdateLiquidityRisk,
};
use liquidity_aware_lending::instructions::withdraw_collateral::{handle_withdraw_collateral, WithdrawCollateral};
use liquidity_aware_lending::integrations::meteora::{event_authority, meteora_dlmm_program_id, AccountMeta};
use liquidity_aware_lending::key::AccountKey;
use liquidity_aware_lending::mock_meteora::{mock_swap2, MockSwapError};
use liquidity_aware_lending::state::{LiquidityRiskSnapshot, MarketConfig, Position};

fn key(n: u8) -> AccountKey {
    AccountKey::new_from_array([n; 32])
}

const COLLATERAL_MINT: u8 = 1;
const DEBT_MINT: u8 = 2;
const DLMM_POOL: u8 = 3;
const AUTHORITY: u8 = 4;
const MARKET: u8 = 5;
const USER: u8 = 6;

fn empty_position() -> Position {
    Position { owner: AccountKey::zero(), market: AccountKey::zero(), collateral_amount: 0, debt_amount: 0, bump: 0 }
}

/// Token fee charged by a mint with a transfer fee (rounded up, as Token-2022 does).
fn transfer_fee(amount: u64, fee_bps: u16) -> u64 {
    ((amount as u128 * fee_bps as u128 + 9_999) / 10_000) as u64
}

/// A market with one user: the market's accounts and the token balances around it.
struct Ledger {
    market: MarketConfig,
    snapshot: LiquidityRiskSnapshot,
    slot: u64,
    position: Option<Position>,
    collateral_fee_bps: u16,
    user_collateral: u64,
    vault_collateral: u64,
    user_debt: u64,
    debt_vault: u64,
}

impl Ledger {
    /// A market for a 9-decimal collateral at 1 USDC per token, with a fresh snapshot
    /// of 5,000 USDC recovered for a 5,000 USDC quote.
    fn new(user_collateral: u64, debt_liquidity: u64, collateral_fee_bps: u16) -> Ledger {
        let params = InitializeMarketParams {
            collateral_mint: key(COLLATERAL_MINT),
            debt_mint: key(DEBT_MINT),
            dlmm_pool: key(DLMM_POOL),
            collateral_price_usdc: 1_000_000,
        };
        let market = handle_initialize(&Initialize { authority: key(AUTHORITY), market_bump: 255 }, params).unwrap();
        let snapshot = LiquidityRiskSnapshot {
            market: AccountKey::zero(),
            quote_collateral_in: 0,
            quote_usdc_out: 0,
            observed_slot: 0,
            bump: 0,
        };
        let mut ledger = Ledger {
            market,
            snapshot,
            slot: 1_000,
            position: None,
            collateral_fee_bps,
            user_collateral,
            vault_collateral: 0,
            user_debt: 0,
            debt_vault: debt_liquidity,
        };
        ledger.publish(5_000_000_000, 5_000_000_000).unwrap();
        ledger
    }

    fn publish(&mut self, quote_collateral_in: u64, quote_usdc_out: u64) -> Result<(), LendingError> {
        let accounts = UpdateLiquidityRisk {
            authority: key(AUTHORITY),
            market_key: key(MARKET),
            market: self.market,
            risk_snapshot_bump: 253,
        };
        self.snapshot = handle_update_liquidity_risk(&accounts, quote_collateral_in, quote_usdc_out, self.slot)?;
        Ok(())
    }

    fn deposit_with_mint(&mut self, amount: u64, mint: AccountKey) -> Result<(), String> {
        let accounts = DepositCollateral {
            user: key(USER),
            market_key: key(MARKET),
            market: self.market,
            position: self.position.unwrap_or(empty_position()),
            position_bump: 254,
            collateral_mint: mint,
        };
        let prepared = handle_deposit_collateral(&accounts, amount).map_err(|e| format!("{e:?}"))?;
        if self.user_collateral < amount {
            return Err("insufficient funds".to_string());
        }
        let before = self.vault_collateral;
        let after = before + amount - transfer_fee(amount, self.collateral_fee_bps);
        let settled = settle_deposit_collateral(&prepared, before, after).map_err(|e| format!("{e:?}"))?;
        self.user_collateral -= amount;
        self.vault_collateral = after;
        self.position = Some(settled);
        Ok(())
    }

    fn deposit(&mut self, amount: u64) -> Result<(), String> {
        self.deposit_with_mint(amount, key(COLLATERAL_MINT))
    }

    fn borrow_with_mint(&mut self, amount: u64, debt_mint: AccountKey) -> Result<(), LendingError> {
        let accounts = Borrow {
            user: key(USER),
            market_key: key(MARKET),
            market: self.market,
            position: self.position.unwrap(),
            risk_snapshot: self.snapshot,
            collateral_mint: key(COLLATERAL_MINT),
            collateral_decimals: 9,
            debt_mint,
            debt_vault_amount: self.debt_vault,
        };
        let position = handle_borrow(&accounts, amount, self.slot)?;
        self.debt_vault -= amount;
        self.user_debt += amount;
        self.position = Some(position);
        Ok(())
    }

    fn borrow(&mut self, amount: u64) -> Result<(), LendingError> {
        self.borrow_with_mint(amount, key(DEBT_MINT))
    }

    fn repay(&mut self, amount: u64) -> Result<(), String> {
        let accounts = Repay {
            user: key(USER),
            market_key: key(MARKET),
            market: self.market,
            position: self.position.unwrap(),
            debt_mint: key(DEBT_MINT),
        };
        let position = handle_repay(&accounts, amount).map_err(|e| format!("{e:?}"))?;
        if self.user_debt < amount {
            return Err("insufficient funds".to_string());
        }
        self.user_debt -= amount;
        self.debt_vault += amount;
        self.position = Some(position);
        Ok(())
    }

    fn withdraw(&mut self, amount: u64) -> Result<(), LendingError> {
        let accounts = WithdrawCollateral {
            user: key(USER),
            market_key: key(MARKET),
            market: self.market,
            position: self.position.unwrap(),
            risk_snapshot: self.snapshot,
            collateral_mint: key(COLLATERAL_MINT),
            collateral_decimals: 9,
        };
        let position = handle_withdraw_collateral(&accounts, amount, self.slot)?;
        self.vault_collateral -= amount;
        self.user_collateral += amount - transfer_fee(amount, self.collateral_fee_bps);
        self.position = Some(position);
        Ok(())
    }
}

// ---------------------------------------------------------------------------
// Initialization
// ---------------------------------------------------------------------------

#[test]
fn test_initialize_market() {
    let program_id = Pubkey::new_unique();
    let collateral_mint = Pubkey::new_unique();
    let debt_mint = Pubkey::new_unique();
    let dlmm_pool = Pubkey::new_unique();
    let authority = Pubkey::new_unique();
    let (_market, expected_bump) = Pubkey::find_program_address(&[b"market", collateral_mint.as_ref()], &program_id);

    let params = InitializeMarketParams {
        collateral_mint: AccountKey::new_from_array(collateral_mint.to_bytes()),
        debt_mint: AccountKey::new_from_array(debt_mint.to_bytes()),
        dlmm_pool: AccountKey::new_from_array(dlmm_pool.to_bytes()),
        collateral_price_usdc: 1_000_000,
    };
    let accounts = Initialize { authority: AccountKey::new_from_array(authority.to_bytes()), market_bump: expected_bump };
    let market_state = handle_initialize(&accounts, params).expect("initialize should succeed");

    assert_eq!(market_state.collateral_mint.to_bytes(), collateral_mint.to_bytes());
    assert_eq!(market_state.debt_mint.to_bytes(), debt_mint.to_bytes());
    assert_eq!(market_state.dlmm_pool.to_bytes(), dlmm_pool.to_bytes());
    assert_eq!(market_state.authority.to_bytes(), authority.to_bytes());
    assert_eq!(market_state.max_ltv_bps, MAX_LTV_BPS);
    assert_eq!(market_state.min_ltv_bps, MIN_LTV_BPS);
    assert_eq!(market_state.liquidation_threshold_bps, LIQUIDATION_THRESHOLD_BPS);
    assert_eq!(market_state.liquidation_bonus_bps, LIQUIDATION_BONUS_BPS);
    assert_eq!(market_state.max_liquidation_bps, MAX_LIQUIDATION_BPS);
    assert_eq!(market_state.reference_liquidation_size_usdc, REFERENCE_LIQUIDATION_SIZE_USDC);
    assert_eq!(market_state.issuer_risk_ceiling_bps, ISSUER_RISK_CEILING_BPS);
    assert_eq!(market_state.transfer_fee_bps, PRESTOCKS_TRANSFER_FEE_BPS);
    assert_eq!(market_state.bump, expected_bump);
}

#[test]
fn initialize_refuses_unset_addresses_and_zero_price() {
    let accounts = Initialize { authority: key(AUTHORITY), market_bump: 1 };
    let valid = InitializeMarketParams {
        collateral_mint: key(COLLATERAL_MINT),
        debt_mint: key(DEBT_MINT),
        dlmm_pool: key(DLMM_POOL),
        collateral_price_usdc: 1,
    };
    assert!(handle_initialize(&accounts, valid).is_ok());
    let cases = [
        InitializeMarketParams { collateral_mint: AccountKey::zero(), ..valid },
        InitializeMarketParams { debt_mint: AccountKey::zero(), ..valid },
        InitializeMarketParams { dlmm_pool: AccountKey::zero(), ..valid },
        InitializeMarketParams { collateral_price_usdc: 0, ..valid },
    ];
    for params in cases {
        assert_eq!(handle_initialize(&accounts, params).unwrap_err(), LendingError::InvalidMarketConfig);
    }
}

// ---------------------------------------------------------------------------
// Liquidity snapshots
// ---------------------------------------------------------------------------

#[test]
fn only_the_market_authority_publishes_snapshots() {
    let ledger = Ledger::new(0, 0, 0);
    let accounts = UpdateLiquidityRisk {
        authority: key(USER),
        market_key: key(MARKET),
        market: ledger.market,
        risk_snapshot_bump: 7,
    };
    assert_eq!(
        handle_update_liquidity_risk(&accounts, 1, 1, 10).unwrap_err(),
        LendingError::InvalidMarketConfig
    );
}

#[test]
fn published_snapshot_records_the_quote_and_slot() {
    let mut ledger = Ledger::new(0, 0, 0);
    ledger.slot = 42;
    ledger.publish(4_000_000_000, 3_900_000_000).unwrap();
    assert_eq!(ledger.snapshot.market, key(MARKET));
    assert_eq!(ledger.snapshot.quote_collateral_in, 4_000_000_000);
    assert_eq!(ledger.snapshot.quote_usdc_out, 3_900_000_000);
    assert_eq!(ledger.snapshot.observed_slot, 42);
    assert_eq!(ledger.snapshot.bump, 253);
    assert_eq!(ledger.publish(0, 1).unwrap_err(), LendingError::InvalidAmount);
    assert_eq!(ledger.publish(1, 0).unwrap_err(), LendingError::InvalidAmount);
}

// ---------------------------------------------------------------------------
// Deposits
// ---------------------------------------------------------------------------

#[test]
fn test_deposit_collateral() {
    let initial_collateral_amount: u64 = 1_000_000_000;
    let deposit_amount: u64 = 500_000_000;
    let mut ledger = Ledger::new(initial_collateral_amount, 0, 0);

    ledger.deposit(deposit_amount).expect("deposit should succeed");

    let position = ledger.position.expect("position should exist");
    assert_eq!(position.owner, key(USER));
    assert_eq!(position.market, key(MARKET));
    assert_eq!(position.collateral_amount, deposit_amount);
    assert_eq!(position.debt_amount, 0);
    assert_eq!(position.bump, 254);
    assert_eq!(ledger.vault_collateral, deposit_amount);
    assert_eq!(ledger.user_collateral, initial_collateral_amount - deposit_amount);
}

#[test]
fn test_deposit_collateral_rejects_zero_amount() {
    let mut ledger = Ledger::new(1_000_000_000, 0, 0);
    assert_eq!(ledger.deposit(0).unwrap_err(), "InvalidAmount");
    assert!(ledger.position.is_none());
}

#[test]
fn test_deposit_collateral_rejects_insufficient_balance() {
    let user_balance: u64 = 100_000_000;
    let deposit_amount: u64 = 200_000_000;
    let mut ledger = Ledger::new(user_balance, 0, 0);

    assert!(ledger.deposit(deposit_amount).is_err(), "deposit exceeding user balance should be rejected");
    assert_eq!(ledger.user_collateral, user_balance);
    assert_eq!(ledger.vault_collateral, 0);
    assert!(ledger.position.is_none());
}

#[test]
fn test_deposit_collateral_rejects_wrong_mint() {
    let mut ledger = Ledger::new(1_000_000_000, 0, 0);
    assert_eq!(ledger.deposit_with_mint(500_000_000, key(99)).unwrap_err(), "MarketMismatch");
    assert!(ledger.position.is_none());
}

#[test]
fn test_deposit_collateral_accumulates_repeated_deposits() {
    let initial_balance = 1_000_000_000;
    let first_deposit = 300_000_000;
    let second_deposit = 200_000_000;
    let mut ledger = Ledger::new(initial_balance, 0, 0);

    ledger.deposit(first_deposit).expect("first deposit should succeed");
    ledger.deposit(second_deposit).expect("second deposit should succeed");

    assert_eq!(ledger.position.unwrap().collateral_amount, first_deposit + second_deposit);
    assert_eq!(ledger.vault_collateral, first_deposit + second_deposit);
    assert_eq!(ledger.user_collateral, initial_balance - first_deposit - second_deposit);
}

#[test]
fn test_deposit_collateral_accounts_for_transfer_fee() {
    let transfer_fee_bps: u16 = 50;
    let initial_balance: u64 = 1_000_000_000;
    let deposit_amount: u64 = 500_000_000;
    let mut ledger = Ledger::new(initial_balance, 0, transfer_fee_bps);

    ledger.deposit(deposit_amount).expect("deposit with transfer-fee mint should succeed");

    let expected_fee = deposit_amount * transfer_fee_bps as u64 / 10_000;
    let expected_received = deposit_amount - expected_fee;
    assert_eq!(ledger.vault_collateral, expected_received);
    assert_eq!(ledger.position.unwrap().collateral_amount, expected_received);
    assert_eq!(ledger.user_collateral, initial_balance - deposit_amount);
}

#[test]
fn deposit_settlement_refuses_an_empty_or_shrinking_vault() {
    let position = Position { owner: key(USER), market: key(MARKET), collateral_amount: 5, debt_amount: 0, bump: 1 };
    assert_eq!(settle_deposit_collateral(&position, 10, 10).unwrap_err(), LendingError::InvalidAmount);
    assert_eq!(settle_deposit_collateral(&position, 10, 9).unwrap_err(), LendingError::MathOverflow);
    assert_eq!(settle_deposit_collateral(&position, 10, 17).unwrap().collateral_amount, 12);
    let full = Position { collateral_amount: u64::MAX, ..position };
    assert_eq!(settle_deposit_collateral(&full, 0, 1).unwrap_err(), LendingError::MathOverflow);
}

#[test]
fn deposit_into_someone_elses_position_is_refused() {
    let mut ledger = Ledger::new(1_000_000_000, 0, 0);
    ledger.deposit(100).unwrap();
    let accounts = DepositCollateral {
        user: key(77),
        market_key: key(MARKET),
        market: ledger.market,
        position: ledger.position.unwrap(),
        position_bump: 1,
        collateral_mint: key(COLLATERAL_MINT),
    };
    assert_eq!(handle_deposit_collateral(&accounts, 10).unwrap_err(), LendingError::MarketMismatch);
}

// ---------------------------------------------------------------------------
// Borrowing
// ---------------------------------------------------------------------------

fn borrow_setup(debt_liquidity: u64) -> Ledger {
    let mut ledger = Ledger::new(1_000_000_000, debt_liquidity, 0);
    ledger.deposit(1_000_000_000).expect("deposit should succeed");
    ledger
}

#[test]
fn test_borrow() {
    let mut ledger = borrow_setup(1_000_000);
    ledger.borrow(500_000).expect("borrow should succeed");
    assert_eq!(ledger.user_debt, 500_000);
    assert_eq!(ledger.debt_vault, 500_000);
}

#[test]
fn test_borrow_rejects_zero_amount() {
    let mut ledger = borrow_setup(1_000_000);
    assert_eq!(ledger.borrow(0).unwrap_err(), LendingError::InvalidAmount);
}

#[test]
fn test_borrow_rejects_amount_exceeding_ltv() {
    let mut ledger = borrow_setup(1_000_000);
    assert_eq!(ledger.borrow(700_000).unwrap_err(), LendingError::BorrowExceedsLtv);
}

#[test]
fn test_borrow_accumulates_debt() {
    let mut ledger = borrow_setup(1_000_000);
    ledger.borrow(300_000).expect("first borrow should succeed");
    ledger.borrow(200_000).expect("second borrow should succeed");
    assert_eq!(ledger.user_debt, 500_000);
    assert_eq!(ledger.debt_vault, 500_000);
    assert_eq!(ledger.position.unwrap().debt_amount, 500_000);
}

#[test]
fn test_borrow_rejects_wrong_debt_mint() {
    let mut ledger = borrow_setup(1_000_000);
    assert_eq!(ledger.borrow_with_mint(500_000, key(COLLATERAL_MINT)).unwrap_err(), LendingError::DebtMintMismatch);
}

#[test]
fn test_borrow_rejects_insufficient_debt_liquidity() {
    let mut ledger = borrow_setup(400_000);
    assert_eq!(ledger.borrow(500_000).unwrap_err(), LendingError::InsufficientDebtLiquidity);
}

#[test]
fn test_borrow_failure_does_not_change_balances() {
    let mut ledger = borrow_setup(1_000_000);
    let user_debt_before = ledger.user_debt;
    let debt_vault_before = ledger.debt_vault;

    assert!(ledger.borrow(700_000).is_err(), "borrow exceeding LTV should have failed");

    assert_eq!(ledger.user_debt, user_debt_before);
    assert_eq!(ledger.debt_vault, debt_vault_before);
    assert_eq!(ledger.position.unwrap().debt_amount, 0);
}

#[test]
fn borrow_capacity_follows_the_effective_ltv() {
    // A perfect 5,000 USDC quote gives 65% execution LTV, capped at the 60% issuer ceiling.
    let mut ledger = borrow_setup(1_000_000);
    assert_eq!(ledger.borrow(600_001).unwrap_err(), LendingError::BorrowExceedsLtv);
    ledger.borrow(600_000).unwrap();

    // A 4,500 USDC recovery gives 58.5%: $1 of collateral supports 0.585 USDC.
    let mut ledger = borrow_setup(1_000_000);
    ledger.publish(5_000_000_000, 4_500_000_000).unwrap();
    assert_eq!(ledger.borrow(585_001).unwrap_err(), LendingError::BorrowExceedsLtv);
    ledger.borrow(585_000).unwrap();
}

#[test]
fn stale_snapshot_blocks_borrow_but_not_repay_or_deposit() {
    let mut ledger = Ledger::new(2_000_000_000, 1_000_000, 0);
    ledger.deposit(1_000_000_000).unwrap();
    ledger.borrow(100_000).unwrap();

    ledger.slot += MAX_RISK_SNAPSHOT_AGE_SLOTS;
    ledger.borrow(1).expect("a snapshot exactly at the maximum age is still fresh");

    ledger.slot += 1;
    assert_eq!(ledger.borrow(1).unwrap_err(), LendingError::StaleLiquidityQuote);
    assert_eq!(ledger.withdraw(1).unwrap_err(), LendingError::StaleLiquidityQuote);
    ledger.repay(50_000).expect("repaying stays possible on stale data");
    ledger.deposit(1_000).expect("depositing stays possible on stale data");

    ledger.publish(5_000_000_000, 5_000_000_000).unwrap();
    ledger.borrow(1).expect("a fresh snapshot unblocks borrowing");
}

#[test]
fn borrow_refuses_a_snapshot_of_another_market() {
    let mut ledger = borrow_setup(1_000_000);
    ledger.snapshot.market = key(88);
    assert_eq!(ledger.borrow(1).unwrap_err(), LendingError::MarketMismatch);
}

// ---------------------------------------------------------------------------
// Repayment
// ---------------------------------------------------------------------------

fn repay_setup() -> Ledger {
    let mut ledger = Ledger::new(1_000_000_000, 1_000_000_000, 0);
    ledger.deposit(1_000_000_000).expect("deposit should succeed");
    ledger.borrow(500_000).expect("borrow should succeed");
    ledger
}

#[test]
fn test_repay() {
    let mut ledger = repay_setup();
    let user_debt_before = ledger.user_debt;
    let debt_vault_before = ledger.debt_vault;

    ledger.repay(200_000).expect("repay should succeed");

    assert_eq!(user_debt_before - ledger.user_debt, 200_000);
    assert_eq!(ledger.debt_vault - debt_vault_before, 200_000);
}

#[test]
fn test_repay_reduces_debt() {
    let mut ledger = repay_setup();
    ledger.repay(200_000).expect("repay should succeed");
    assert_eq!(ledger.position.unwrap().debt_amount, 300_000);
}

#[test]
fn test_repay_multiple_times() {
    let mut ledger = repay_setup();
    ledger.repay(100_000).expect("first repayment should succeed");
    ledger.repay(150_000).expect("second repayment should succeed");
    assert_eq!(ledger.position.unwrap().debt_amount, 250_000);
}

#[test]
fn test_repay_full_debt() {
    let mut ledger = repay_setup();
    ledger.repay(500_000).expect("full repayment should succeed");
    assert_eq!(ledger.position.unwrap().debt_amount, 0);
}

#[test]
fn test_repay_rejects_zero_amount() {
    let mut ledger = repay_setup();
    assert_eq!(ledger.repay(0).unwrap_err(), "InvalidAmount");
}

#[test]
fn test_repay_rejects_amount_greater_than_debt() {
    let mut ledger = repay_setup();
    assert_eq!(ledger.repay(500_001).unwrap_err(), "InvalidAmount");
}

#[test]
fn repay_undoes_borrow() {
    let mut ledger = borrow_setup(1_000_000);
    let before = ledger.position.unwrap();
    ledger.borrow(250_000).unwrap();
    ledger.repay(250_000).unwrap();
    let after = ledger.position.unwrap();
    assert_eq!(after.debt_amount, before.debt_amount);
    assert_eq!(after.collateral_amount, before.collateral_amount);
}

#[test]
fn repay_with_the_wrong_mint_is_refused() {
    let ledger = repay_setup();
    let accounts = Repay {
        user: key(USER),
        market_key: key(MARKET),
        market: ledger.market,
        position: ledger.position.unwrap(),
        debt_mint: key(COLLATERAL_MINT),
    };
    assert_eq!(handle_repay(&accounts, 1).unwrap_err(), LendingError::DebtMintMismatch);
}

// ---------------------------------------------------------------------------
// Withdrawals
// ---------------------------------------------------------------------------

fn withdraw_setup() -> Ledger {
    let mut ledger = Ledger::new(1_000_000_000, 1_000_000_000, 0);
    ledger.deposit(1_000_000_000).expect("deposit should succeed");
    ledger
}

#[test]
fn test_withdraw_collateral() {
    let mut ledger = withdraw_setup();
    let user_before = ledger.user_collateral;
    let vault_before = ledger.vault_collateral;

    ledger.withdraw(400_000_000).unwrap();

    assert_eq!(ledger.user_collateral - user_before, 400_000_000);
    assert_eq!(vault_before - ledger.vault_collateral, 400_000_000);
    let position = ledger.position.unwrap();
    assert_eq!(position.collateral_amount, 600_000_000);
    assert_eq!(position.debt_amount, 0);
}

#[test]
fn test_withdraw_collateral_with_debt() {
    let mut ledger = withdraw_setup();
    ledger.borrow(500_000).unwrap();
    ledger.withdraw(100_000_000).unwrap();
    let position = ledger.position.unwrap();
    assert_eq!(position.collateral_amount, 900_000_000);
    assert_eq!(position.debt_amount, 500_000);
}

#[test]
fn test_withdraw_collateral_rejects_zero_amount() {
    let mut ledger = withdraw_setup();
    assert!(ledger.withdraw(0).is_err(), "withdraw should reject zero amount");
}

#[test]
fn test_withdraw_collateral_rejects_excessive_amount() {
    let mut ledger = withdraw_setup();
    assert!(ledger.withdraw(1_000_000_001).is_err(), "withdraw should reject amount greater than collateral");
}

#[test]
fn test_withdraw_collateral_rejects_ltv_violation() {
    let mut ledger = withdraw_setup();
    ledger.borrow(500_000).unwrap();
    assert!(ledger.withdraw(300_000_000).is_err(), "withdraw should reject withdrawal that violates LTV");
}

#[test]
fn test_withdraw_collateral_does_not_change_position_on_failure() {
    let mut ledger = withdraw_setup();
    ledger.borrow(500_000).unwrap();

    assert!(ledger.withdraw(300_000_000).is_err());

    let position = ledger.position.unwrap();
    assert_eq!(position.collateral_amount, 1_000_000_000);
    assert_eq!(position.debt_amount, 500_000);
}

#[test]
fn withdrawal_errors_name_their_cause() {
    let mut ledger = withdraw_setup();
    ledger.borrow(500_000).unwrap();
    assert_eq!(ledger.withdraw(0).unwrap_err(), LendingError::InvalidAmount);
    assert_eq!(ledger.withdraw(1_000_000_001).unwrap_err(), LendingError::InsufficientCollateral);
    assert_eq!(ledger.withdraw(300_000_000).unwrap_err(), LendingError::WithdrawalViolatesLtv);
    // 769,231,000 base units ($0.769231) are the least collateral that still carries
    // 500,000 of debt at 65%; one base unit less values the rest at $0.769230.
    ledger.withdraw(230_769_000).unwrap();
    assert_eq!(ledger.withdraw(1).unwrap_err(), LendingError::WithdrawalViolatesLtv);
}

#[test]
fn test_withdraw_collateral_accounts_for_transfer_fee() {
    let mut ledger = Ledger::new(1_000_000_000, 0, 50);
    ledger.deposit(1_000_000_000).unwrap();

    // The 1-token deposit incurs a 0.5% transfer fee.
    assert_eq!(ledger.vault_collateral, 995_000_000);
    assert_eq!(ledger.user_collateral, 0);

    ledger.withdraw(400_000_000).unwrap();

    // The vault is debited by the full amount; the user receives it less the fee.
    assert_eq!(ledger.vault_collateral, 595_000_000);
    assert_eq!(ledger.user_collateral, 398_000_000);
    // The position tracks what left the vault, not what the user received.
    assert_eq!(ledger.position.unwrap().collateral_amount, 595_000_000);
}

#[test]
fn withdrawing_what_was_deposited_restores_the_position() {
    let mut ledger = withdraw_setup();
    let before = ledger.position.unwrap();
    ledger.user_collateral += 123_456_789;
    ledger.deposit(123_456_789).unwrap();
    ledger.withdraw(123_456_789).unwrap();
    let after = ledger.position.unwrap();
    assert_eq!(after.collateral_amount, before.collateral_amount);
    assert_eq!(after.debt_amount, before.debt_amount);
}

// ---------------------------------------------------------------------------
// Liquidation through the Meteora stand-in
// ---------------------------------------------------------------------------

struct Pool {
    lb_pair: AccountKey,
    reserve_x: AccountKey,
    reserve_y: AccountKey,
    oracle: AccountKey,
    reserve_authority: AccountKey,
    reserve_y_balance: u64,
    vault_authority: AccountKey,
    vault_collateral_account: AccountKey,
    debt_vault: AccountKey,
}

fn liquidation_accounts(ledger: &Ledger, pool: &Pool) -> Liquidate {
    Liquidate {
        liquidator: key(70),
        market_key: key(MARKET),
        market: ledger.market,
        position: ledger.position.unwrap(),
        collateral_mint: key(COLLATERAL_MINT),
        collateral_decimals: 9,
        vault_authority: pool.vault_authority,
        vault_collateral_account: pool.vault_collateral_account,
        debt_mint: key(DEBT_MINT),
        debt_vault: pool.debt_vault,
        lb_pair: pool.lb_pair,
        reserve_x: pool.reserve_x,
        reserve_y: pool.reserve_y,
        oracle: pool.oracle,
        token_x_mint: key(COLLATERAL_MINT),
        token_y_mint: key(DEBT_MINT),
        meteora_event_authority: event_authority().unwrap(),
        meteora_program: meteora_dlmm_program_id(),
        memo_program: key(71),
        token_2022_program: key(72),
        token_program: key(72),
    }
}

/// Runs a liquidation: the library builds the `Swap2`, the stand-in executes it (moving
/// USDC from its reserve to the debt vault), and the library settles the position.
fn liquidate(ledger: &mut Ledger, pool: &mut Pool, collateral_to_sell: u64, min_amount_out: u64) -> Result<(), String> {
    let accounts = liquidation_accounts(ledger, pool);
    let remaining = vec![AccountMeta::new_readonly(pool.reserve_authority, false)];
    let instruction =
        handle_liquidate(&accounts, collateral_to_sell, min_amount_out, remaining).map_err(|e| format!("{e:?}"))?;
    let keys: Vec<AccountKey> = instruction.accounts.iter().map(|m| m.pubkey).collect();
    let transfer = mock_swap2(&instruction.program_id, &keys, &instruction.data)
        .expect("the stand-in's reserve authority has an address")
        .map_err(|e| format!("{e:?}"))?;
    let ix = transfer.instruction;
    assert_eq!(ix.accounts[0].pubkey, pool.reserve_y);
    assert_eq!(ix.accounts[1].pubkey, pool.debt_vault);
    assert_eq!(ix.accounts[2].pubkey, pool.reserve_authority);
    assert!(ix.accounts[2].is_signer);
    assert_eq!(ix.data[0], 3);
    let amount = u64::from_le_bytes(ix.data[1..9].try_into().unwrap());
    if pool.reserve_y_balance < amount {
        return Err("insufficient funds".to_string());
    }
    let before = ledger.debt_vault;
    pool.reserve_y_balance -= amount;
    ledger.debt_vault += amount;
    let position =
        settle_liquidation(&accounts, collateral_to_sell, before, ledger.debt_vault).map_err(|e| format!("{e:?}"))?;
    ledger.position = Some(position);
    Ok(())
}

fn liquidation_setup() -> (Ledger, Pool) {
    let mut ledger = Ledger::new(10_000_000_000, 6_000_000, 0);
    ledger.market.dlmm_pool = key(40);
    let meteora = Pubkey::new_from_array(meteora_dlmm_program_id().to_bytes());
    let (reserve_authority, _) = Pubkey::find_program_address(&[b"mock-reserve-authority"], &meteora);
    let pool = Pool {
        lb_pair: key(40),
        reserve_x: key(41),
        reserve_y: key(42),
        oracle: key(43),
        reserve_authority: AccountKey::new_from_array(reserve_authority.to_bytes()),
        reserve_y_balance: 2_500_000,
        vault_authority: key(44),
        vault_collateral_account: key(45),
        debt_vault: key(46),
    };
    ledger.deposit(10_000_000_000).expect("deposit should succeed");
    ledger.borrow(6_000_000).expect("borrow should succeed");
    (ledger, pool)
}

#[test]
fn test_liquidate_reaches_meteora_cpi() {
    let (mut ledger, mut pool) = liquidation_setup();
    // $6 debt on $10 of collateral is 60% LTV; at $0.80 it is 75%, above the 70% threshold.
    ledger.market.collateral_price_usdc = 800_000;
    let debt_vault_before = ledger.debt_vault;

    liquidate(&mut ledger, &mut pool, 2_500_000_000, 2_500_000).expect("liquidation should succeed");

    assert_eq!(ledger.debt_vault - debt_vault_before, 2_500_000, "the stand-in should deliver 2.5 USDC");
    let position = ledger.position.unwrap();
    assert_eq!(position.collateral_amount, 7_500_000_000);
    assert_eq!(position.debt_amount, 3_500_000);
}

#[test]
fn healthy_position_cannot_be_liquidated() {
    let (mut ledger, mut pool) = liquidation_setup();
    assert_eq!(liquidate(&mut ledger, &mut pool, 2_500_000_000, 2_500_000).unwrap_err(), "PositionHealthy");
    assert_eq!(ledger.position.unwrap().debt_amount, 6_000_000);
}

#[test]
fn liquidation_above_the_cap_is_refused_after_the_swap() {
    let (mut ledger, mut pool) = liquidation_setup();
    ledger.market.collateral_price_usdc = 800_000;
    pool.reserve_y_balance = 10_000_000;
    assert_eq!(liquidate(&mut ledger, &mut pool, 3_000_000_000, 1).unwrap_err(), "LiquidationExceedsCap");
}

#[test]
fn stand_in_refuses_a_minimum_it_cannot_meet() {
    let (mut ledger, mut pool) = liquidation_setup();
    ledger.market.collateral_price_usdc = 800_000;
    let err = liquidate(&mut ledger, &mut pool, 2_500_000_000, 2_500_001).unwrap_err();
    assert_eq!(err, format!("{:?}", MockSwapError::InsufficientFunds));
}

#[test]
fn liquidation_refuses_a_foreign_pool() {
    let (mut ledger, mut pool) = liquidation_setup();
    ledger.market.collateral_price_usdc = 800_000;
    pool.lb_pair = key(99);
    assert_eq!(liquidate(&mut ledger, &mut pool, 2_500_000_000, 2_500_000).unwrap_err(), "MarketMismatch");
}
