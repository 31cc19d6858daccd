use anchor_lang::prelude::Pubkey;

use liquidity_aware_lending::error::LendingError;
use liquidity_aware_lending::integrations::meteora::{
    build_swap2_instruction, event_authority, meteora_dlmm_program_id, meteora_event_authority_seed,
    serialize_swap2_args, AccountMeta, AccountsType, RemainingAccountsInfo, RemainingAccountsSlice, Swap2Accounts,
    Swap2Args,
};
use liquidity_aware_lending::key::AccountKey;

fn key_of(address: Pubkey) -> AccountKey {
    AccountKey::new_from_array(address.to_bytes())
}

fn unique_key() -> AccountKey {
    key_of(Pubkey::new_unique())
}

fn token_program_id() -> AccountKey {
    AccountKey::new_from_array(anchor_spl::token::ID.to_bytes())
}

fn token_2022_program_id() -> AccountKey {
    AccountKey::new_from_array(anchor_spl::token_2022::ID.to_bytes())
}

fn memo_program_id() -> AccountKey {
    key_of(Pubkey::from_str_const("MemoSq4gqABAXKb96qnH8TysNcWxMyWCqXgDLGmfcHr"))
}

fn swap_accounts(bitmap_extension: Option<AccountKey>, host_fee: Option<AccountKey>) -> Swap2Accounts {
    Swap2Accounts {
        lb_pair: unique_key(),
        bin_array_bitmap_extension: bitmap_extension,
        reserve_x: unique_key(),
        reserve_y: unique_key(),
        user_token_in: unique_key(),
        user_token_out: unique_key(),
        token_x_mint: unique_key(),
        token_y_mint: unique_key(),
        oracle: unique_key(),
        host_fee_in: host_fee,
        user: unique_key(),
        token_x_program: token_2022_program_id(),
        token_y_program: token_program_id(),
        memo_program: memo_program_id(),
        event_authority: event_authority().unwrap(),
        program: meteora_dlmm_program_id(),
    }
}

#[test]
fn test_swap2_discriminator() {
    let args = Swap2Args {
        amount_in: 1_000,
        min_amount_out: 900,
        remaining_accounts_info: RemainingAccountsInfo::default(),
    };

    let data = serialize_swap2_args(&args);

    assert_eq!(&data[..8], &[65, 75, 63, 76, 235, 91, 91, 136]);
}

#[test]
fn test_swap2_serializes_amounts() {
    let args = Swap2Args {
        amount_in: 1_000_000,
        min_amount_out: 950_000,
        remaining_accounts_info: RemainingAccountsInfo::default(),
    };

    let data = serialize_swap2_args(&args);

    assert_eq!(u64::from_le_bytes(data[8..16].try_into().unwrap()), 1_000_000);
    assert_eq!(u64::from_le_bytes(data[16..24].try_into().unwrap()), 950_000);
}

#[test]
fn test_swap2_empty_remaining_accounts_info() {
    let args = Swap2Args {
        amount_in: 1_000,
        min_amount_out: 900,
        remaining_accounts_info: RemainingAccountsInfo::default(),
    };

    let data = serialize_swap2_args(&args);

    // Discriminator, amount_in, min_amount_out, and a zero Vec length.
    assert_eq!(data.len(), 28);
    assert_eq!(&data[24..28], &[0, 0, 0, 0]);
}

#[test]
fn test_swap2_remaining_accounts_info_serialization() {
    let args = Swap2Args {
        amount_in: 1_000,
        min_amount_out: 900,
        remaining_accounts_info: RemainingAccountsInfo {
            slices: vec![
                RemainingAccountsSlice { accounts_type: AccountsType::TransferHookX, length: 3 },
                RemainingAccountsSlice { accounts_type: AccountsType::TransferHookY, length: 2 },
            ],
        },
    };

    let data = serialize_swap2_args(&args);

    assert!(data.len() > 28);
}

#[test]
fn swap2_slices_are_encoded_in_borsh_layout() {
    let args = Swap2Args {
        amount_in: 1_000,
        min_amount_out: 900,
        remaining_accounts_info: RemainingAccountsInfo {
            slices: vec![
                RemainingAccountsSlice { accounts_type: AccountsType::TransferHookX, length: 3 },
                RemainingAccountsSlice { accounts_type: AccountsType::TransferHookMultiReward(7), length: 2 },
                RemainingAccountsSlice { accounts_type: AccountsType::TransferHookReferral, length: 1 },
            ],
        },
    };

    let data = serialize_swap2_args(&args);

    assert_eq!(&data[24..28], &[3, 0, 0, 0]);
    assert_eq!(&data[28..], &[0, 3, 3, 7, 2, 4, 1]);
    // 28 fixed bytes, then two bytes per slice and three for a multi-reward slice.
    assert_eq!(data.len(), 28 + 2 + 3 + 2);
}

#[test]
fn test_event_authority_matches_meteora_derivation() {
    let program = Pubkey::new_from_array(meteora_dlmm_program_id().to_bytes());
    let expected = Pubkey::find_program_address(&[b"__event_authority"], &program).0;

    assert_eq!(event_authority().unwrap(), key_of(expected));
}

#[test]
fn event_authority_seed_and_program_id() {
    assert_eq!(meteora_event_authority_seed(), b"__event_authority".to_vec());
    assert_eq!(
        meteora_dlmm_program_id(),
        key_of(Pubkey::from_str_const("LBUZKhRxPF3XUpBCjp4YzTKgLccjZhTSDM9YuVaPwxo"))
    );
}

#[test]
fn test_swap2_account_order_without_optional_accounts() {
    let accounts = swap_accounts(None, None);

    let instruction = build_swap2_instruction(accounts.clone(), 1_000, 900, vec![], RemainingAccountsInfo::default())
        .expect("Swap2 instruction should build");

    assert_eq!(instruction.program_id, meteora_dlmm_program_id());
    assert_eq!(instruction.accounts.len(), 16);
    assert_eq!(instruction.accounts[0].pubkey, accounts.lb_pair);
    assert_eq!(instruction.accounts[1].pubkey, meteora_dlmm_program_id());
    assert_eq!(instruction.accounts[2].pubkey, accounts.reserve_x);
    assert_eq!(instruction.accounts[3].pubkey, accounts.reserve_y);
    assert_eq!(instruction.accounts[4].pubkey, accounts.user_token_in);
    assert_eq!(instruction.accounts[5].pubkey, accounts.user_token_out);
    assert_eq!(instruction.accounts[6].pubkey, accounts.token_x_mint);
    assert_eq!(instruction.accounts[7].pubkey, accounts.token_y_mint);
    assert_eq!(instruction.accounts[8].pubkey, accounts.oracle);
    assert_eq!(instruction.accounts[9].pubkey, meteora_dlmm_program_id());
    assert_eq!(instruction.accounts[10].pubkey, accounts.user);
    assert!(instruction.accounts[10].is_signer);
    assert_eq!(instruction.accounts[11].pubkey, accounts.token_x_program);
    assert_eq!(instruction.accounts[12].pubkey, accounts.token_y_program);
    assert_eq!(instruction.accounts[13].pubkey, accounts.memo_program);
    assert_eq!(instruction.accounts[14].pubkey, accounts.event_authority);
    assert_eq!(instruction.accounts[15].pubkey, accounts.program);
}

#[test]
fn test_swap2_optional_accounts_are_inserted_in_correct_positions() {
    let bitmap_extension = unique_key();
    let host_fee = unique_key();
    let accounts = swap_accounts(Some(bitmap_extension), Some(host_fee));

    let instruction = build_swap2_instruction(accounts.clone(), 1_000, 900, vec![], RemainingAccountsInfo::default())
        .expect("Swap2 instruction should build");

    assert_eq!(instruction.accounts.len(), 16);
    assert_eq!(instruction.accounts[0].pubkey, accounts.lb_pair);
    assert_eq!(instruction.accounts[1].pubkey, bitmap_extension);
    assert_eq!(instruction.accounts[2].pubkey, accounts.reserve_x);
    assert_eq!(instruction.accounts[3].pubkey, accounts.reserve_y);
    assert_eq!(instruction.accounts[8].pubkey, accounts.oracle);
    assert_eq!(instruction.accounts[9].pubkey, host_fee);
    assert_eq!(instruction.accounts[10].pubkey, accounts.user);
    assert!(instruction.accounts[10].is_signer);
}

#[test]
fn test_swap2_remaining_accounts_are_appended() {
    let accounts = swap_accounts(None, None);
    let bin_array_one = unique_key();
    let bin_array_two = unique_key();
    let remaining_accounts = vec![AccountMeta::new(bin_array_one, false), AccountMeta::new(bin_array_two, false)];

    let instruction =
        build_swap2_instruction(accounts, 1_000, 900, remaining_accounts, RemainingAccountsInfo::default())
            .expect("Swap2 instruction should build");

    assert_eq!(instruction.accounts.len(), 18);
    assert_eq!(instruction.accounts[16].pubkey, bin_array_one);
    assert_eq!(instruction.accounts[17].pubkey, bin_array_two);
}

#[test]
fn swap2_account_flags_follow_meteora_layout() {
    let accounts = swap_accounts(None, None);
    let instruction = build_swap2_instruction(accounts, 1_000, 900, vec![], RemainingAccountsInfo::default()).unwrap();

    let writable: Vec<bool> = instruction.accounts.iter().map(|m| m.is_writable).collect();
    assert_eq!(
        writable,
        vec![true, true, true, true, true, true, false, false, true, true, false, false, false, false, false, false]
    );
    let signers: Vec<usize> =
        instruction.accounts.iter().enumerate().filter(|(_, m)| m.is_signer).map(|(i, _)| i).collect();
    assert_eq!(signers, vec![10]);
    assert_eq!(instruction.data, serialize_swap2_args(&Swap2Args {
        amount_in: 1_000,
        min_amount_out: 900,
        remaining_accounts_info: RemainingAccountsInfo::default(),
    }));
}

#[test]
fn swap2_refuses_a_foreign_program_and_zero_amounts() {
    let mut accounts = swap_accounts(None, None);
    assert_eq!(
        build_swap2_instruction(accounts, 0, 900, vec![], RemainingAccountsInfo::default()).unwrap_err(),
        LendingError::InvalidAmount
    );
    assert_eq!(
        build_swap2_instruction(accounts, 1_000, 0, vec![], RemainingAccountsInfo::default()).unwrap_err(),
        LendingError::InvalidAmount
    );
    accounts.program = unique_key();
    assert_eq!(
        build_swap2_instruction(accounts, 1_000, 900, vec![], RemainingAccountsInfo::default()).unwrap_err(),
        LendingError::MarketMismatch
    );
}
