//! A deterministic stand-in for Meteora's `Swap2`, used to exercise liquidations: it
//! sells collateral at a fixed rate of one USDC per collateral token and pays the USDC
//! out of a reserve controlled by its own derived address.
use vstd::prelude::*;

use crate::integrations::meteora::{
    spec_swap2_discriminator, spec_try_find_program_address, spec_u64_from_le_bytes, spec_u64_le_bytes,
    try_find_program_address, AccountMeta, Instruction,
};
use crate::key::AccountKey;

verus! {

/// Position of the USDC reserve among the `Swap2` accounts.
pub const RESERVE_Y_INDEX: usize = 3;

/// Position of the account that receives the USDC among the `Swap2` accounts.
pub const USER_TOKEN_OUT_INDEX: usize = 5;

/// Position of the USDC token program among the `Swap2` accounts.
pub const TOKEN_Y_PROGRAM_INDEX: usize = 12;

/// Position of the reserve authority, the first account after the sixteen fixed ones.
pub const RESERVE_AUTHORITY_INDEX: usize = 16;

/// Discriminator of the token program's `Transfer` instruction.
pub const TRANSFER_DISCRIMINATOR: u8 = 3;

/// Collateral base units (9 decimals) per USDC base unit (6 decimals) at one USDC per token.
pub const COLLATERAL_TO_USDC_SCALE: u64 = 1_000;

/// Seed of the derived address that controls the USDC reserve (`mock-reserve-authority`).
pub open spec fn spec_reserve_authority_seed() -> Seq<u8> {
    seq![109u8, 111, 99, 107, 45, 114, 101, 115, 101, 114, 118, 101, 45, 97, 117, 116, 104, 111, 114, 105, 116, 121]
}

/// Seed of the derived address that controls the USDC reserve (`mock-reserve-authority`).
pub fn reserve_authority_seed() -> (r: Vec<u8>)
    ensures
        r@ == spec_reserve_authority_seed(),
{
    let r = vec![109u8, 111, 99, 107, 45, 114, 101, 115, 101, 114, 118, 101, 45, 97, 117, 116, 104, 111, 114, 105, 116, 121];
    proof {
        assert(r@ =~= spec_reserve_authority_seed());
    }
    r
}

/// Why the stand-in refuses a call.
#[derive(Debug, Clone, Copy, PartialEq, Eq, Structural)]
pub enum MockSwapError {
    InvalidInstructionData,
    NotEnoughAccountKeys,
    InvalidArgument,
    InsufficientFunds,
}

/// The transfer that the stand-in makes: a token `Transfer` instruction, signed by the
/// reserve authority with the given bump.
#[derive(Debug, Clone)]
pub struct MockTransfer {
    pub instruction: Instruction,
    pub signer_bump: u8,
}

/// What the stand-in does with a call: `None` where it panics (no bump gives the reserve
/// authority an address), else its refusal or the transfer it makes. `reserve_authority`
/// is the derived address of the reserve authority and its bump.
pub open spec fn spec_mock_swap2(
    account_keys: Seq<AccountKey>,
    instruction_data: Seq<u8>,
    reserve_authority: Option<(AccountKey, u8)>,
    r: Option<Result<MockTransfer, MockSwapError>>,
) -> bool {
    let amount_in = spec_u64_from_le_bytes(instruction_data.subrange(8, 16));
    let min_amount_out = spec_u64_from_le_bytes(instruction_data.subrange(16, 24));
    let amount_out = amount_in / COLLATERAL_TO_USDC_SCALE;
    if instruction_data.len() < 24 {
        r == Some(Err::<MockTransfer, MockSwapError>(MockSwapError::InvalidInstructionData))
    } else if instruction_data.subrange(0, 8) != spec_swap2_discriminator() {
        r == Some(Err::<MockTransfer, MockSwapError>(MockSwapError::InvalidInstructionData))
    } else if account_keys.len() < 17 {
        r == Some(Err::<MockTransfer, MockSwapError>(MockSwapError::NotEnoughAccountKeys))
    } else if amount_in == 0 {
        r == Some(Err::<MockTransfer, MockSwapError>(MockSwapError::InvalidArgument))
    } else if amount_out == 0 || amount_out < min_amount_out {
        r == Some(Err::<MockTransfer, MockSwapError>(MockSwapError::InsufficientFunds))
    } else {
        match reserve_authority {
            None => r is None,
            Some((authority, bump)) => if account_keys[RESERVE_AUTHORITY_INDEX as int]@ != authority@ {
                r == Some(Err::<MockTransfer, MockSwapError>(MockSwapError::InvalidArgument))
            } else {
                r matches Some(Ok(transfer)) && transfer.signer_bump == bump
                    && transfer.instruction.program_id@ == account_keys[TOKEN_Y_PROGRAM_INDEX as int]@
                    && transfer.instruction.accounts@.map_values(|m: AccountMeta| m@) == seq![
                    (account_keys[RESERVE_Y_INDEX as int]@, false, true),
                    (account_keys[USER_TOKEN_OUT_INDEX as int]@, false, true),
                    (authority@, true, false),
                ] && transfer.instruction.data@ == seq![TRANSFER_DISCRIMINATOR].add(
                    spec_u64_le_bytes(amount_out as u64),
                )
            },
        }
    }
}

fn read_u64_le(data: &[u8], start: usize) -> (r: u64)
    requires
        start + 8 <= data@.len(),
    ensures
        r == spec_u64_from_le_bytes(data@.subrange(start as int, start + 8)),
{
    proof {
        let b = data@.subrange(start as int, start + 8);
        assert(b[0] == data@[start as int] && b[1] == data@[start + 1] && b[2] == data@[start + 2]);
        assert(b[3] == data@[start + 3] && b[4] == data@[start + 4] && b[5] == data@[start + 5]);
        assert(b[6] == data@[start + 6] && b[7] == data@[start + 7]);
    }
    (data[start] as u64) | ((data[start + 1] as u64) << 8u64) | ((data[start + 2] as u64) << 16u64) | ((
    data[start + 3] as u64) << 24u64) | ((data[start + 4] as u64) << 32u64) | ((data[start + 5] as u64)
        << 40u64) | ((data[start + 6] as u64) << 48u64) | ((data[start + 7] as u64) << 56u64)
}

/// Decides what the stand-in does with a `Swap2` call, given the derived address of
/// its reserve authority: checks the data length and discriminator and the number of
/// accounts, decodes `amount_in` and `min_amount_out`, pays out `amount_in / 1000`
/// USDC base units if that is positive and at least `min_amount_out`, and requires
/// the account after the sixteen fixed ones to be the reserve authority.
pub fn plan_mock_swap2(
    account_keys: &Vec<AccountKey>,
    instruction_data: &[u8],
    reserve_authority: Option<(AccountKey, u8)>,
) -> (r: Option<Result<MockTransfer, MockSwapError>>)
    ensures
        spec_mock_swap2(account_keys@, instruction_data@, reserve_authority, r),
{
    if instruction_data.len() < 24 {
        return Some(Err(MockSwapError::InvalidInstructionData));
    }
    let discriminator_matches = instruction_data[0] == 65u8 && instruction_data[1] == 75u8 && instruction_data[2]
        == 63u8 && instruction_data[3] == 76u8 && instruction_data[4] == 235u8 && instruction_data[5] == 91u8
        && instruction_data[6] == 91u8 && instruction_data[7] == 136u8;
    proof {
        let head = instruction_data@.subrange(0, 8);
        if discriminator_matches {
            assert(head =~= spec_swap2_discriminator());
        } else {
            assert(head != spec_swap2_discriminator() ) by {
                if head == spec_swap2_discriminator() {
                    assert(head[0] == 65u8 && head[1] == 75u8 && head[2] == 63u8 && head[3] == 76u8);
                    assert(head[4] == 235u8 && head[5] == 91u8 && head[6] == 91u8 && head[7] == 136u8);
                }
            }
        }
    }
    if !discriminator_matches {
        return Some(Err(MockSwapError::InvalidInstructionData));
    }
    if account_keys.len() < 17 {
        return Some(Err(MockSwapError::NotEnoughAccountKeys));
    }
    let amount_in = read_u64_le(instruction_data, 8);
    let min_amount_out = read_u64_le(instruction_data, 16);
    if amount_in == 0 {
        return Some(Err(MockSwapError::InvalidArgument));
    }
    let amount_out = amount_in / COLLATERAL_TO_USDC_SCALE;
    if amount_out == 0 || amount_out < min_amount_out {
        return Some(Err(MockSwapError::InsufficientFunds));
    }
    let reserve_y = account_keys[RESERVE_Y_INDEX];
    let user_token_out = account_keys[USER_TOKEN_OUT_INDEX];
    let token_y_program = account_keys[TOKEN_Y_PROGRAM_INDEX];
    let reserve_authority_account = account_keys[RESERVE_AUTHORITY_INDEX];
    let (authority, bump) = match reserve_authority {
        Some(derived) => derived,
        None => return None,
    };
    if !reserve_authority_account.eq(&authority) {
        return Some(Err(MockSwapError::InvalidArgument));
    }
    let mut data: Vec<u8> = Vec::new();
    data.push(TRANSFER_DISCRIMINATOR);
    data.push(amount_out as u8);
    data.push((amount_out >> 8u64) as u8);
    data.push((amount_out >> 16u64) as u8);
    data.push((amount_out >> 24u64) as u8);
    data.push((amount_out >> 32u64) as u8);
    data.push((amount_out >> 40u64) as u8);
    data.push((amount_out >> 48u64) as u8);
    data.push((amount_out >> 56u64) as u8);
    proof {
        assert(data@ =~= seq![TRANSFER_DISCRIMINATOR].add(spec_u64_le_bytes(amount_out)));
    }
    let mut accounts: Vec<AccountMeta> = Vec::new();
    accounts.push(AccountMeta::new(reserve_y, false));
    accounts.push(AccountMeta::new(user_token_out, false));
    accounts.push(AccountMeta::new_readonly(authority, true));
    proof {
        assert(accounts@.map_values(|m: AccountMeta| m@) =~= seq![
            (reserve_y@, false, true),
            (user_token_out@, false, true),
            (authority@, true, false),
        ]);
    }
    Some(Ok(MockTransfer { instruction: Instruction { program_id: token_y_program, accounts, data }, signer_bump: bump }))
}

/// Decides what the stand-in program `program_id` does with a `Swap2` call, deriving the
/// address of its reserve authority from the seed `mock-reserve-authority`.
pub fn mock_swap2(program_id: &AccountKey, account_keys: &Vec<AccountKey>, instruction_data: &[u8]) -> (r: Option<
    Result<MockTransfer, MockSwapError>,
>)
    ensures
        exists|derived: Option<(AccountKey, u8)>|
            {
                &&& derived matches Some((address, bump)) ==> spec_try_find_program_address(
                    seq![spec_reserve_authority_seed()],
                    program_id@,
                ) == Some((address@, bump))
                &&& derived is None ==> spec_try_find_program_address(
                    seq![spec_reserve_authority_seed()],
                    program_id@,
                ) is None
                &&& spec_mock_swap2(account_keys@, instruction_data@, derived, r)
            },
{
    let seed = reserve_authority_seed();
    proof {
        assert(seed.deep_view() =~= seed@);
    }
    let mut seeds: Vec<Vec<u8>> = Vec::new();
    seeds.push(seed);
    proof {
        assert(seeds.deep_view()[0] == seed.deep_view());
        assert(seeds.deep_view() =~= seq![spec_reserve_authority_seed()]);
    }
    let derived = try_find_program_address(&seeds, program_id);
    plan_mock_swap2(account_keys, instruction_data, derived)
}

} // verus!
