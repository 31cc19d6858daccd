//! The Meteora DLMM `Swap2` instruction used to execute liquidations.
use vstd::prelude::*;

use crate::error::LendingError;
use crate::key::AccountKey;

verus! {

// ---------------------------------------------------------------------------
// Fixed addresses
// ---------------------------------------------------------------------------

/// Bytes of the Meteora DLMM program address
/// (`LBUZKhRxPF3XUpBCjp4YzTKgLccjZhTSDM9YuVaPwxo`).
pub open spec fn spec_meteora_dlmm_program_id() -> Seq<u8> {
    seq![
        4u8, 233, 225, 47, 188, 132, 232, 38, 201, 50, 204, 233, 226, 100, 12, 206,
        21, 89, 12, 28, 98, 115, 176, 146, 87, 8, 186, 59, 133, 32, 176, 188,
    ]
}

/// The Meteora DLMM program address.
pub fn meteora_dlmm_program_id() -> (r: AccountKey)
    ensures
        r@ == spec_meteora_dlmm_program_id(),
{
    let r = AccountKey {
        bytes: [
            4u8, 233, 225, 47, 188, 132, 232, 38, 201, 50, 204, 233, 226, 100, 12, 206,
            21, 89, 12, 28, 98, 115, 176, 146, 87, 8, 186, 59, 133, 32, 176, 188,
        ],
    };
    proof {
        assert(r@ =~= spec_meteora_dlmm_program_id());
    }
    r
}

/// Seed of Meteora's event-authority derived address (`__event_authority`).
pub open spec fn spec_meteora_event_authority_seed() -> Seq<u8> {
    seq![95u8, 95, 101, 118, 101, 110, 116, 95, 97, 117, 116, 104, 111, 114, 105, 116, 121]
}

/// Seed of Meteora's event-authority derived address (`__event_authority`).
pub fn meteora_event_authority_seed() -> (r: Vec<u8>)
    ensures
        r@ == spec_meteora_event_authority_seed(),
{
    let r = vec![95u8, 95, 101, 118, 101, 110, 116, 95, 97, 117, 116, 104, 111, 114, 105, 116, 121];
    proof {
        assert(r@ =~= spec_meteora_event_authority_seed());
    }
    r
}

/// The program-derived address that `Pubkey::try_find_program_address` finds for
/// `seeds` under `program_id`, with its bump (`None` where no bump gives an address
/// off the ed25519 curve).
pub uninterp spec fn spec_try_find_program_address(seeds: Seq<Seq<u8>>, program_id: Seq<u8>) -> Option<
    (Seq<u8>, u8),
>;

/// Calls `Pubkey::try_find_program_address` (re-exported by `anchor_lang`), which
/// hashes the seeds, a bump and the program id, trying bumps from 255 down until
/// the hash is off the ed25519 curve. The contract only ties the result to the
/// name `spec_try_find_program_address` applied to the seeds and the program id;
/// the hashing itself is not stated.
#[verifier::external_body]
pub(crate) fn try_find_program_address(seeds: &Vec<Vec<u8>>, program_id: &AccountKey) -> (r: Option<(AccountKey, u8)>)
    ensures
        r matches Some((address, bump)) ==> spec_try_find_program_address(seeds.deep_view(), program_id@)
            == Some((address@, bump)),
        r is None ==> spec_try_find_program_address(seeds.deep_view(), program_id@) is None,
{
    let seed_slices: Vec<&[u8]> = seeds.iter().map(|seed| seed.as_slice()).collect();
    let program = anchor_lang::prelude::Pubkey::new_from_array(program_id.bytes);
    match anchor_lang::prelude::Pubkey::try_find_program_address(&seed_slices, &program) {
        Some((address, bump)) => Some((AccountKey { bytes: address.to_bytes() }, bump)),
        None => None,
    }
}

/// Meteora's event-authority address: the program-derived address of the seed
/// `__event_authority` under the Meteora DLMM program (`None` in the statistically
/// improbable case that no bump seed gives one).
pub fn event_authority() -> (r: Option<AccountKey>)
    ensures
        ({
            let derived = spec_try_find_program_address(
                seq![spec_meteora_event_authority_seed()],
                spec_meteora_dlmm_program_id(),
            );
            &&& r matches Some(key) ==> derived matches Some((address, _)) && key@ == address
            &&& r is None ==> derived is None
        }),
{
    let seed = meteora_event_authority_seed();
    proof {
        assert(seed.deep_view() =~= seed@);
    }
    let mut seeds: Vec<Vec<u8>> = Vec::new();
    seeds.push(seed);
    let program = meteora_dlmm_program_id();
    proof {
        assert(seeds.deep_view()[0] == seed.deep_view());
        assert(seeds.deep_view() =~= seq![spec_meteora_event_authority_seed()]);
    }
    match try_find_program_address(&seeds, &program) {
        Some((address, _bump)) => Some(address),
        None => None,
    }
}

// ---------------------------------------------------------------------------
// Instructions as plain values
// ---------------------------------------------------------------------------

/// One account of an instruction: its address and whether it signs and is written.
#[derive(Debug, Clone, Copy)]
pub struct AccountMeta {
    pub pubkey: AccountKey,
    pub is_signer: bool,
    pub is_writable: bool,
}

impl View for AccountMeta {
    type V = (Seq<u8>, bool, bool);

    open spec fn view(&self) -> (Seq<u8>, bool, bool) {
        (self.pubkey@, self.is_signer, self.is_writable)
    }
}

impl AccountMeta {
    /// A writable account.
    pub fn new(pubkey: AccountKey, is_signer: bool) -> (r: AccountMeta)
        ensures
            r@ == (pubkey@, is_signer, true),
    {
        AccountMeta { pubkey, is_signer, is_writable: true }
    }

    /// A read-only account.
    pub fn new_readonly(pubkey: AccountKey, is_signer: bool) -> (r: AccountMeta)
        ensures
            r@ == (pubkey@, is_signer, false),
    {
        AccountMeta { pubkey, is_signer, is_writable: false }
    }
}

/// An instruction for another program: its program, its accounts in order, and its data.
#[derive(Debug, Clone)]
pub struct Instruction {
    pub program_id: AccountKey,
    pub accounts: Vec<AccountMeta>,
    pub data: Vec<u8>,
}

/// The views of a sequence of account metas.
pub open spec fn metas_view(metas: Seq<AccountMeta>) -> Seq<(Seq<u8>, bool, bool)> {
    metas.map_values(|m: AccountMeta| m@)
}

// ---------------------------------------------------------------------------
// Swap2 arguments and their encoding
// ---------------------------------------------------------------------------

/// Groups of remaining accounts used by Token-2022 transfer hooks.
#[derive(Debug, Clone, Copy, PartialEq, Eq, Structural)]
pub enum AccountsType {
    TransferHookX,
    TransferHookY,
    TransferHookReward,
    TransferHookMultiReward(u8),
    TransferHookReferral,
}

/// One group of remaining accounts and its length.
#[derive(Debug, Clone, Copy, PartialEq, Eq, Structural)]
pub struct RemainingAccountsSlice {
    pub accounts_type: AccountsType,
    pub length: u8,
}

/// The layout of the remaining accounts passed to `Swap2`.
#[derive(Debug, Clone)]
pub struct RemainingAccountsInfo {
    pub slices: Vec<RemainingAccountsSlice>,
}

impl Default for RemainingAccountsInfo {
    fn default() -> (r: Self)
        ensures
            r.slices@ == Seq::<RemainingAccountsSlice>::empty(),
    {
        RemainingAccountsInfo { slices: Vec::new() }
    }
}

/// The fixed accounts of `Swap2`. An absent optional account is replaced by the DLMM
/// program address, which Meteora's layout uses as the placeholder.
#[derive(Debug, Clone, Copy)]
pub struct Swap2Accounts {
    pub lb_pair: AccountKey,
    pub bin_array_bitmap_extension: Option<AccountKey>,
    pub reserve_x: AccountKey,
    pub reserve_y: AccountKey,
    pub user_token_in: AccountKey,
    pub user_token_out: AccountKey,
    pub token_x_mint: AccountKey,
    pub token_y_mint: AccountKey,
    pub oracle: AccountKey,
    pub host_fee_in: Option<AccountKey>,
    pub user: AccountKey,
    pub token_x_program: AccountKey,
    pub token_y_program: AccountKey,
    pub memo_program: AccountKey,
    pub event_authority: AccountKey,
    pub program: AccountKey,
}

/// The arguments of `Swap2`.
#[derive(Debug, Clone)]
pub struct Swap2Args {
    pub amount_in: u64,
    pub min_amount_out: u64,
    pub remaining_accounts_info: RemainingAccountsInfo,
}

/// The eight-byte discriminator of `Swap2` (the first bytes of `sha256("global:swap2")`).
pub open spec fn spec_swap2_discriminator() -> Seq<u8> {
    seq![65u8, 75, 63, 76, 235, 91, 91, 136]
}

/// Little-endian bytes of a `u64`.
pub open spec fn spec_u64_le_bytes(x: u64) -> Seq<u8> {
    seq![
        x as u8,
        (x >> 8u64) as u8,
        (x >> 16u64) as u8,
        (x >> 24u64) as u8,
        (x >> 32u64) as u8,
        (x >> 40u64) as u8,
        (x >> 48u64) as u8,
        (x >> 56u64) as u8,
    ]
}

/// Little-endian bytes of a `u32`.
pub open spec fn spec_u32_le_bytes(x: u32) -> Seq<u8> {
    seq![x as u8, (x >> 8u32) as u8, (x >> 16u32) as u8, (x >> 24u32) as u8]
}

/// The `u64` whose little-endian bytes are `b[0..8]`.
pub open spec fn spec_u64_from_le_bytes(b: Seq<u8>) -> u64 {
    (b[0] as u64) | ((b[1] as u64) << 8u64) | ((b[2] as u64) << 16u64) | ((b[3] as u64) << 24u64) | ((
    b[4] as u64) << 32u64) | ((b[5] as u64) << 40u64) | ((b[6] as u64) << 48u64) | ((b[7] as u64) << 56u64)
}

/// Encoding of an `AccountsType`: its variant index, then its field if it has one.
pub open spec fn spec_accounts_type_bytes(t: AccountsType) -> Seq<u8> {
    match t {
        AccountsType::TransferHookX => seq![0u8],
        AccountsType::TransferHookY => seq![1u8],
        AccountsType::TransferHookReward => seq![2u8],
        AccountsType::TransferHookMultiReward(n) => seq![3u8, n],
        AccountsType::TransferHookReferral => seq![4u8],
    }
}

/// Encoding of one slice: its type, then its length.
pub open spec fn spec_slice_bytes(slice: RemainingAccountsSlice) -> Seq<u8> {
    spec_accounts_type_bytes(slice.accounts_type).push(slice.length)
}

/// Encodings of the slices, one after another.
pub open spec fn spec_slices_bytes(slices: Seq<RemainingAccountsSlice>) -> Seq<u8>
    decreases slices.len(),
{
    if slices.len() == 0 {
        Seq::empty()
    } else {
        spec_slices_bytes(slices.drop_last()) + spec_slice_bytes(slices.last())
    }
}

/// Instruction data of `Swap2`: the discriminator, `amount_in` and `min_amount_out` as
/// little-endian `u64`s, then the slices as a vector (a little-endian `u32` count, then
/// each slice).
pub open spec fn spec_swap2_data(amount_in: u64, min_amount_out: u64, slices: Seq<RemainingAccountsSlice>) -> Seq<u8> {
    spec_swap2_discriminator() + spec_u64_le_bytes(amount_in) + spec_u64_le_bytes(min_amount_out)
        + spec_u32_le_bytes(slices.len() as u32) + spec_slices_bytes(slices)
}

/// Reading back the little-endian bytes of a `u64` gives the `u64`.
pub proof fn law_u64_le_bytes_roundtrip(x: u64)
    ensures
        spec_u64_from_le_bytes(spec_u64_le_bytes(x)) == x,
{
    let b = spec_u64_le_bytes(x);
    let b0 = x as u8;
    let b1 = (x >> 8u64) as u8;
    let b2 = (x >> 16u64) as u8;
    let b3 = (x >> 24u64) as u8;
    let b4 = (x >> 32u64) as u8;
    let b5 = (x >> 40u64) as u8;
    let b6 = (x >> 48u64) as u8;
    let b7 = (x >> 56u64) as u8;
    assert(b[0] == b0 && b[1] == b1 && b[2] == b2 && b[3] == b3 && b[4] == b4 && b[5] == b5 && b[6] == b6
        && b[7] == b7);
    assert((b0 as u64) | ((b1 as u64) << 8u64) | ((b2 as u64) << 16u64) | ((b3 as u64) << 24u64) | ((
    b4 as u64) << 32u64) | ((b5 as u64) << 40u64) | ((b6 as u64) << 48u64) | ((b7 as u64) << 56u64) == x)
        by (bit_vector)
        requires
            b0 == x as u8,
            b1 == (x >> 8u64) as u8,
            b2 == (x >> 16u64) as u8,
            b3 == (x >> 24u64) as u8,
            b4 == (x >> 32u64) as u8,
            b5 == (x >> 40u64) as u8,
            b6 == (x >> 48u64) as u8,
            b7 == (x >> 56u64) as u8,
    ;
}

/// The `u32` whose little-endian bytes are `b[0..4]`.
pub open spec fn spec_u32_from_le_bytes(b: Seq<u8>) -> u32 {
    (b[0] as u32) | ((b[1] as u32) << 8u32) | ((b[2] as u32) << 16u32) | ((b[3] as u32) << 24u32)
}

/// Reading back the little-endian bytes of a `u32` gives the `u32`.
pub proof fn law_u32_le_bytes_roundtrip(x: u32)
    ensures
        spec_u32_from_le_bytes(spec_u32_le_bytes(x)) == x,
{
    let b = spec_u32_le_bytes(x);
    let b0 = x as u8;
    let b1 = (x >> 8u32) as u8;
    let b2 = (x >> 16u32) as u8;
    let b3 = (x >> 24u32) as u8;
    assert(b[0] == b0 && b[1] == b1 && b[2] == b2 && b[3] == b3);
    assert((b0 as u32) | ((b1 as u32) << 8u32) | ((b2 as u32) << 16u32) | ((b3 as u32) << 24u32) == x)
        by (bit_vector)
        requires
            b0 == x as u8,
            b1 == (x >> 8u32) as u8,
            b2 == (x >> 16u32) as u8,
            b3 == (x >> 24u32) as u8,
    ;
}

/// Number of bytes that one slice takes: its type's tag, a reward index for
/// `TransferHookMultiReward`, and its length.
pub open spec fn spec_slice_len(slice: RemainingAccountsSlice) -> nat {
    match slice.accounts_type {
        AccountsType::TransferHookMultiReward(_) => 3,
        _ => 2,
    }
}

/// Number of bytes that the slices take, one after another.
pub open spec fn spec_slices_len(slices: Seq<RemainingAccountsSlice>) -> nat
    decreases slices.len(),
{
    if slices.len() == 0 {
        0
    } else {
        spec_slices_len(slices.drop_last()) + spec_slice_len(slices.last())
    }
}

/// Decodes the slice at the front of `bytes`, with the number of bytes it took.
pub open spec fn spec_decode_slice(bytes: Seq<u8>) -> Option<(RemainingAccountsSlice, nat)> {
    if bytes.len() < 2 {
        None
    } else if bytes[0] == 0 {
        Some((RemainingAccountsSlice { accounts_type: AccountsType::TransferHookX, length: bytes[1] }, 2))
    } else if bytes[0] == 1 {
        Some((RemainingAccountsSlice { accounts_type: AccountsType::TransferHookY, length: bytes[1] }, 2))
    } else if bytes[0] == 2 {
        Some((RemainingAccountsSlice { accounts_type: AccountsType::TransferHookReward, length: bytes[1] }, 2))
    } else if bytes[0] == 3 {
        if bytes.len() < 3 {
            None
        } else {
            Some(
                (
                    RemainingAccountsSlice {
                        accounts_type: AccountsType::TransferHookMultiReward(bytes[1]),
                        length: bytes[2],
                    },
                    3,
                ),
            )
        }
    } else if bytes[0] == 4 {
        Some((RemainingAccountsSlice { accounts_type: AccountsType::TransferHookReferral, length: bytes[1] }, 2))
    } else {
        None
    }
}

/// Decodes exactly `count` slices that fill `bytes`, with no byte left over.
pub open spec fn spec_decode_slices(bytes: Seq<u8>, count: nat) -> Option<Seq<RemainingAccountsSlice>>
    decreases count,
{
    if count == 0 {
        if bytes.len() == 0 {
            Some(Seq::empty())
        } else {
            None
        }
    } else {
        match spec_decode_slice(bytes) {
            None => None,
            Some((slice, used)) => match spec_decode_slices(bytes.skip(used as int), (count - 1) as nat) {
                None => None,
                Some(rest) => Some(seq![slice] + rest),
            },
        }
    }
}

/// Decodes `Swap2` instruction data: the discriminator, `amount_in`, `min_amount_out`,
/// the slice count and exactly that many slices, with no byte left over.
pub open spec fn spec_decode_swap2_data(data: Seq<u8>) -> Option<(u64, u64, Seq<RemainingAccountsSlice>)> {
    if data.len() < 28 || data.subrange(0, 8) != spec_swap2_discriminator() {
        None
    } else {
        match spec_decode_slices(data.skip(28), spec_u32_from_le_bytes(data.subrange(24, 28)) as nat) {
            None => None,
            Some(slices) => Some(
                (
                    spec_u64_from_le_bytes(data.subrange(8, 16)),
                    spec_u64_from_le_bytes(data.subrange(16, 24)),
                    slices,
                ),
            ),
        }
    }
}

/// The encoding of the slices starts with the encoding of the first one.
pub proof fn lemma_slices_bytes_first(slices: Seq<RemainingAccountsSlice>)
    requires
        slices.len() > 0,
    ensures
        spec_slices_bytes(slices) == spec_slice_bytes(slices[0]) + spec_slices_bytes(slices.drop_first()),
    decreases slices.len(),
{
    if slices.len() > 1 {
        lemma_slices_bytes_first(slices.drop_last());
        assert(slices.drop_last().drop_first() =~= slices.drop_first().drop_last());
        assert(slices.drop_last()[0] == slices[0]);
        assert(slices.drop_first().last() == slices.last());
        assert(spec_slices_bytes(slices) =~= spec_slice_bytes(slices[0]) + spec_slices_bytes(slices.drop_first()));
    } else {
        assert(slices.drop_last() =~= Seq::<RemainingAccountsSlice>::empty());
        assert(slices.drop_first() =~= Seq::<RemainingAccountsSlice>::empty());
        assert(spec_slices_bytes(slices) =~= spec_slice_bytes(slices[0]) + spec_slices_bytes(slices.drop_first()));
    }
}

/// The slices' encoding is as long as `spec_slices_len` counts.
pub proof fn lemma_slices_bytes_len(slices: Seq<RemainingAccountsSlice>)
    ensures
        spec_slices_bytes(slices).len() == spec_slices_len(slices),
    decreases slices.len(),
{
    if slices.len() > 0 {
        lemma_slices_bytes_len(slices.drop_last());
    }
}

/// Decoding the slices' encoding gives the slices back.
pub proof fn lemma_decode_slices_roundtrip(slices: Seq<RemainingAccountsSlice>)
    ensures
        spec_decode_slices(spec_slices_bytes(slices), slices.len()) == Some(slices),
    decreases slices.len(),
{
    if slices.len() == 0 {
        assert(spec_slices_bytes(slices).len() == 0);
    } else {
        lemma_slices_bytes_first(slices);
        lemma_decode_slices_roundtrip(slices.drop_first());
        let first = spec_slice_bytes(slices[0]);
        let rest = spec_slices_bytes(slices.drop_first());
        let bytes = first + rest;
        assert(bytes.skip(first.len() as int) =~= rest);
        assert(spec_decode_slice(bytes) == Some((slices[0], first.len())));
        assert(seq![slices[0]] + slices.drop_first() =~= slices);
    }
}

/// `Swap2` data decodes back to the arguments it encodes, with no byte left over, and
/// takes 28 bytes plus two per slice (three for `TransferHookMultiReward`).
pub proof fn law_swap2_data_roundtrip(amount_in: u64, min_amount_out: u64, slices: Seq<RemainingAccountsSlice>)
    requires
        slices.len() <= u32::MAX,
    ensures
        spec_decode_swap2_data(spec_swap2_data(amount_in, min_amount_out, slices)) == Some(
            (amount_in, min_amount_out, slices),
        ),
        spec_swap2_data(amount_in, min_amount_out, slices).len() == 28 + spec_slices_len(slices),
{
    let data = spec_swap2_data(amount_in, min_amount_out, slices);
    lemma_slices_bytes_len(slices);
    law_u64_le_bytes_roundtrip(amount_in);
    law_u64_le_bytes_roundtrip(min_amount_out);
    law_u32_le_bytes_roundtrip(slices.len() as u32);
    lemma_decode_slices_roundtrip(slices);
    assert(data.subrange(0, 8) =~= spec_swap2_discriminator());
    assert(data.subrange(8, 16) =~= spec_u64_le_bytes(amount_in));
    assert(data.subrange(16, 24) =~= spec_u64_le_bytes(min_amount_out));
    assert(data.subrange(24, 28) =~= spec_u32_le_bytes(slices.len() as u32));
    assert(data.skip(28) =~= spec_slices_bytes(slices));
}

fn push_u64_le(data: &mut Vec<u8>, x: u64)
    ensures
        final(data)@ == old(data)@ + spec_u64_le_bytes(x),
{
    data.push(x as u8);
    data.push((x >> 8u64) as u8);
    data.push((x >> 16u64) as u8);
    data.push((x >> 24u64) as u8);
    data.push((x >> 32u64) as u8);
    data.push((x >> 40u64) as u8);
    data.push((x >> 48u64) as u8);
    data.push((x >> 56u64) as u8);
    proof {
        assert(data@ =~= old(data)@ + spec_u64_le_bytes(x));
    }
}

fn push_u32_le(data: &mut Vec<u8>, x: u32)
    ensures
        final(data)@ == old(data)@ + spec_u32_le_bytes(x),
{
    data.push(x as u8);
    data.push((x >> 8u32) as u8);
    data.push((x >> 16u32) as u8);
    data.push((x >> 24u32) as u8);
    proof {
        assert(data@ =~= old(data)@ + spec_u32_le_bytes(x));
    }
}

fn push_slice(data: &mut Vec<u8>, slice: &RemainingAccountsSlice)
    ensures
        final(data)@ == old(data)@ + spec_slice_bytes(*slice),
{
    match slice.accounts_type {
        AccountsType::TransferHookX => data.push(0u8),
        AccountsType::TransferHookY => data.push(1u8),
        AccountsType::TransferHookReward => data.push(2u8),
        AccountsType::TransferHookMultiReward(n) => {
            data.push(3u8);
            data.push(n);
        },
        AccountsType::TransferHookReferral => data.push(4u8),
    }
    data.push(slice.length);
    proof {
        assert(data@ =~= old(data)@ + spec_slice_bytes(*slice));
    }
}

/// Serializes the `Swap2` instruction data: the `Swap2` discriminator followed by the
/// arguments in Borsh layout.
pub fn serialize_swap2_args(args: &Swap2Args) -> (r: Vec<u8>)
    requires
        args.remaining_accounts_info.slices.len() <= u32::MAX,
    ensures
        r@ == spec_swap2_data(args.amount_in, args.min_amount_out, args.remaining_accounts_info.slices@),
{
    let mut data: Vec<u8> = Vec::new();
    data.push(65u8);
    data.push(75u8);
    data.push(63u8);
    data.push(76u8);
    data.push(235u8);
    data.push(91u8);
    data.push(91u8);
    data.push(136u8);
    proof {
        assert(data@ =~= spec_swap2_discriminator());
    }
    push_u64_le(&mut data, args.amount_in);
    push_u64_le(&mut data, args.min_amount_out);
    let slices = &args.remaining_accounts_info.slices;
    let count = slices.len();
    push_u32_le(&mut data, count as u32);
    let ghost header = data@;
    let mut i: usize = 0;
    while i < count
        invariant
            count == slices@.len(),
            i <= count,
            data@ == header + spec_slices_bytes(slices@.take(i as int)),
        decreases count - i,
    {
        push_slice(&mut data, &slices[i]);
        proof {
            assert(slices@.take(i + 1).drop_last() =~= slices@.take(i as int));
            assert(data@ =~= header + spec_slices_bytes(slices@.take(i + 1)));
        }
        i = i + 1;
    }
    proof {
        assert(slices@.take(count as int) =~= slices@);
    }
    data
}

// ---------------------------------------------------------------------------
// The Swap2 instruction
// ---------------------------------------------------------------------------

/// An optional account, or the DLMM program address in its place.
pub open spec fn spec_or_dlmm_program(key: Option<AccountKey>) -> Seq<u8> {
    match key {
        Some(k) => k@,
        None => spec_meteora_dlmm_program_id(),
    }
}

/// The sixteen fixed accounts of `Swap2`, in Meteora's order.
pub open spec fn spec_swap2_fixed_metas(a: Swap2Accounts) -> Seq<(Seq<u8>, bool, bool)> {
    seq![
        (a.lb_pair@, false, true),
        (spec_or_dlmm_program(a.bin_array_bitmap_extension), false, true),
        (a.reserve_x@, false, true),
        (a.reserve_y@, false, true),
        (a.user_token_in@, false, true),
        (a.user_token_out@, false, true),
        (a.token_x_mint@, false, false),
        (a.token_y_mint@, false, false),
        (a.oracle@, false, true),
        (spec_or_dlmm_program(a.host_fee_in), false, true),
        (a.user@, true, false),
        (a.token_x_program@, false, false),
        (a.token_y_program@, false, false),
        (a.memo_program@, false, false),
        (a.event_authority@, false, false),
        (a.program@, false, false),
    ]
}

/// What `build_swap2_instruction` gives.
pub open spec fn spec_build_swap2_instruction(
    accounts: Swap2Accounts,
    amount_in: u64,
    min_amount_out: u64,
    remaining_accounts: Seq<AccountMeta>,
    slices: Seq<RemainingAccountsSlice>,
    r: Result<Instruction, LendingError>,
) -> bool {
    if accounts.program@ != spec_meteora_dlmm_program_id() {
        r == Err::<Instruction, LendingError>(LendingError::MarketMismatch)
    } else if amount_in == 0 || min_amount_out == 0 {
        r == Err::<Instruction, LendingError>(LendingError::InvalidAmount)
    } else {
        r matches Ok(ix) && ix.program_id@ == spec_meteora_dlmm_program_id() && metas_view(ix.accounts@)
            == spec_swap2_fixed_metas(accounts) + metas_view(remaining_accounts) && ix.data@ == spec_swap2_data(
            amount_in,
            min_amount_out,
            slices,
        )
    }
}

/// Constructs Meteora's `Swap2` instruction (without executing it): the sixteen fixed
/// accounts in Meteora's order, then `remaining_accounts` (bin arrays and, where
/// applicable, Token-2022 transfer-hook accounts), and the serialized arguments.
pub fn build_swap2_instruction(
    accounts: Swap2Accounts,
    amount_in: u64,
    min_amount_out: u64,
    remaining_accounts: Vec<AccountMeta>,
    remaining_accounts_info: RemainingAccountsInfo,
) -> (r: Result<Instruction, LendingError>)
    requires
        remaining_accounts_info.slices.len() <= u32::MAX,
    ensures
        spec_build_swap2_instruction(
            accounts,
            amount_in,
            min_amount_out,
            remaining_accounts@,
            remaining_accounts_info.slices@,
            r,
        ),
{
    let dlmm_program = meteora_dlmm_program_id();
    if !accounts.program.eq(&dlmm_program) {
        return Err(LendingError::MarketMismatch);
    }
    if amount_in == 0 {
        return Err(LendingError::InvalidAmount);
    }
    if min_amount_out == 0 {
        return Err(LendingError::InvalidAmount);
    }
    let mut account_metas: Vec<AccountMeta> = Vec::new();
    account_metas.push(AccountMeta::new(accounts.lb_pair, false));
    let bitmap_extension = match accounts.bin_array_bitmap_extension {
        Some(k) => k,
        None => dlmm_program,
    };
    account_metas.push(AccountMeta::new(bitmap_extension, false));
    account_metas.push(AccountMeta::new(accounts.reserve_x, false));
    account_metas.push(AccountMeta::new(accounts.reserve_y, false));
    account_metas.push(AccountMeta::new(accounts.user_token_in, false));
    account_metas.push(AccountMeta::new(accounts.user_token_out, false));
    account_metas.push(AccountMeta::new_readonly(accounts.token_x_mint, false));
    account_metas.push(AccountMeta::new_readonly(accounts.token_y_mint, false));
    account_metas.push(AccountMeta::new(accounts.oracle, false));
    let host_fee_in = match accounts.host_fee_in {
        Some(k) => k,
        None => dlmm_program,
    };
    account_metas.push(AccountMeta::new(host_fee_in, false));
    account_metas.push(AccountMeta::new_readonly(accounts.user, true));
    account_metas.push(AccountMeta::new_readonly(accounts.token_x_program, false));
    account_metas.push(AccountMeta::new_readonly(accounts.token_y_program, false));
    account_metas.push(AccountMeta::new_readonly(accounts.memo_program, false));
    account_metas.push(AccountMeta::new_readonly(accounts.event_authority, false));
    account_metas.push(AccountMeta::new_readonly(accounts.program, false));
    proof {
        assert(metas_view(account_metas@) =~= spec_swap2_fixed_metas(accounts));
    }
    let ghost fixed = account_metas@;
    let mut remaining = remaining_accounts;
    account_metas.append(&mut remaining);
    proof {
        assert(account_metas@ =~= fixed + remaining_accounts@);
        assert(metas_view(account_metas@) =~= metas_view(fixed) + metas_view(remaining_accounts@));
    }
    let args = Swap2Args { amount_in, min_amount_out, remaining_accounts_info };
    let data = serialize_swap2_args(&args);
    Ok(Instruction { program_id: dlmm_program, accounts: account_metas, data })
}

} // verus!
