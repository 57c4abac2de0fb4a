//! Wire-exact settlement instruction assembly.
//!
//! The receiving on-chain program reads the instruction by position: the data
//! bytes are a fixed eight-byte operation discriminator, the four-byte
//! little-endian random value, and the one-byte faction tag; the account list
//! is twelve entries whose order and writable/signer flags are a protocol
//! contract. Everything here is byte- and position-exact; only the
//! discriminator itself comes from an outside crate, behind a trusted
//! wrapper.

use vstd::prelude::*;
use vstd::bytes::{spec_u32_to_le_bytes, spec_u32_from_le_bytes, lemma_auto_spec_u32_to_from_le_bytes, u32_to_le_bytes, u32_from_le_bytes};
use vstd::slice::slice_subrange;

verus! {

/// A 32-byte on-chain account address, held as plain bytes.
#[derive(Clone, Copy, PartialEq, Eq, Debug)]
pub struct AccountId {
    pub bytes: [u8; 32],
}

/// One entry of an instruction's account list: an address and the flags that
/// tell the receiving program whether the account may be written and whether
/// its holder signed the call.
#[derive(Clone, Copy, PartialEq, Eq, Debug)]
pub struct AccountRef {
    pub id: AccountId,
    pub is_writable: bool,
    pub is_signer: bool,
}

impl AccountRef {
    /// A writable, non-signing account entry.
    pub fn writable(id: AccountId) -> (a: AccountRef)
        ensures
            a == (AccountRef { id, is_writable: true, is_signer: false }),
    {
        AccountRef { id, is_writable: true, is_signer: false }
    }

    /// A read-only account entry, signing or not.
    pub fn readonly(id: AccountId, is_signer: bool) -> (a: AccountRef)
        ensures
            a == (AccountRef { id, is_writable: false, is_signer }),
    {
        AccountRef { id, is_writable: false, is_signer }
    }
}

/// One instruction for the receiving chain: the program to call, the ordered
/// flag-annotated account list, and the raw data bytes.
#[derive(Clone, PartialEq, Eq, Debug)]
pub struct SettlementInstruction {
    pub program_id: AccountId,
    pub accounts: Vec<AccountRef>,
    pub data: Vec<u8>,
}

/// The decoded request: the target program, the accounts the settlement
/// touches, and the single-byte faction tag.
#[derive(Clone, Copy, PartialEq, Eq, Debug)]
pub struct RequestParameters {
    pub program_id: AccountId,
    pub user: AccountId,
    pub realm_pda: AccountId,
    pub user_account_pda: AccountId,
    pub spaceship_pda: AccountId,
    pub opponent_1_pda: AccountId,
    pub opponent_2_pda: AccountId,
    pub opponent_3_pda: AccountId,
    pub opponent_4_pda: AccountId,
    pub opponent_5_pda: AccountId,
    pub faction: u8,
}

/// The identities the host environment established for this invocation: the
/// enclave signer and the originating function and request records.
#[derive(Clone, Copy, PartialEq, Eq, Debug)]
pub struct SettlementContext {
    pub signer: AccountId,
    pub function: AccountId,
    pub function_request: AccountId,
}

/// The name of the on-chain settlement operation, from which its
/// discriminator is derived.
pub open spec fn settle_op_name() -> Seq<char> {
    "arena_matchmaking_settle"@
}

/// The eight-byte selector the protocol derives from an operation name.
pub uninterp spec fn ixn_discriminator_of(name: Seq<char>) -> Seq<u8>;

/// Relies on `switchboard_solana::get_ixn_discriminator`: the selector is the
/// first eight bytes of a hash of the operation name with a fixed prefix, so
/// it depends on the name alone.
#[verifier::external_body]
fn ixn_discriminator(name: &str) -> (r: [u8; 8])
    ensures
        r@ == ixn_discriminator_of(name@),
        r@.len() == 8,
{
    switchboard_solana::get_ixn_discriminator(name)
}

/// The settlement instruction's data bytes: discriminator, then the four
/// little-endian bytes of the random value, then the faction tag.
pub open spec fn settlement_data(value: u32, faction: u8) -> Seq<u8> {
    ixn_discriminator_of(settle_op_name()) + spec_u32_to_le_bytes(value) + seq![faction]
}

/// Builds the data bytes for one settlement: `discriminator ++ le(value) ++
/// [faction]`, thirteen bytes in all.
pub fn build_settlement_data(value: u32, faction: u8) -> (data: Vec<u8>)
    ensures
        data@ == settlement_data(value, faction),
        data@.len() == 13,
{
    let disc = ixn_discriminator("arena_matchmaking_settle");
    let mut data: Vec<u8> = Vec::new();
    data.extend_from_slice(disc.as_slice());
    let mut value_bytes = u32_to_le_bytes(value);
    proof {
        lemma_auto_spec_u32_to_from_le_bytes();
    }
    data.append(&mut value_bytes);
    data.push(faction);
    proof {
        assert(data@ =~= settlement_data(value, faction));
    }
    data
}

/// Reads back the tail of a settlement data buffer: the little-endian value
/// in the five-byte suffix's first four bytes and the tag in its last.
pub fn decode_settlement_tail(data: &[u8]) -> (r: (u32, u8))
    requires
        data@.len() >= 5,
    ensures
        r.0 == spec_u32_from_le_bytes(data@.subrange(data@.len() - 5, data@.len() - 1)),
        r.1 == data@[data@.len() - 1],
{
    let n = data.len();
    let value_bytes = slice_subrange(data, n - 5, n - 1);
    let value = u32_from_le_bytes(value_bytes);
    let tag = *slice_subrange(data, n - 1, n).first().unwrap();
    (value, tag)
}

/// Byte-layout round trip: for any eight-byte discriminator, the encoded
/// buffer is thirteen bytes and decoding its last five recovers the value
/// and the tag exactly.
pub proof fn lemma_data_round_trip(disc: Seq<u8>, value: u32, faction: u8)
    requires
        disc.len() == 8,
    ensures
        (disc + spec_u32_to_le_bytes(value) + seq![faction]).len() == 13,
        spec_u32_from_le_bytes(
            (disc + spec_u32_to_le_bytes(value) + seq![faction]).subrange(8, 12),
        ) == value,
        (disc + spec_u32_to_le_bytes(value) + seq![faction])[12] == faction,
{
    lemma_auto_spec_u32_to_from_le_bytes();
    let data = disc + spec_u32_to_le_bytes(value) + seq![faction];
    assert(data.subrange(8, 12) =~= spec_u32_to_le_bytes(value));
}

/// The protocol's account schema for one settlement, in order: the enclave
/// signer, the requesting user, the realm record (writable), the user account
/// record, the settled subject entity (writable), the originating function
/// and request identities, and the five opposing entities (writable).
pub open spec fn settlement_accounts(ctx: SettlementContext, p: RequestParameters) -> Seq<
    AccountRef,
> {
    seq![
        AccountRef { id: ctx.signer, is_writable: false, is_signer: true },
        AccountRef { id: p.user, is_writable: false, is_signer: false },
        AccountRef { id: p.realm_pda, is_writable: true, is_signer: false },
        AccountRef { id: p.user_account_pda, is_writable: false, is_signer: false },
        AccountRef { id: p.spaceship_pda, is_writable: true, is_signer: false },
        AccountRef { id: ctx.function, is_writable: false, is_signer: false },
        AccountRef { id: ctx.function_request, is_writable: false, is_signer: false },
        AccountRef { id: p.opponent_1_pda, is_writable: true, is_signer: false },
        AccountRef { id: p.opponent_2_pda, is_writable: true, is_signer: false },
        AccountRef { id: p.opponent_3_pda, is_writable: true, is_signer: false },
        AccountRef { id: p.opponent_4_pda, is_writable: true, is_signer: false },
        AccountRef { id: p.opponent_5_pda, is_writable: true, is_signer: false },
    ]
}

/// Builds the ordered account list of the settlement instruction, exactly as
/// the schema fixes it.
pub fn build_settlement_accounts(ctx: &SettlementContext, p: &RequestParameters) -> (accounts:
    Vec<AccountRef>)
    ensures
        accounts@ == settlement_accounts(*ctx, *p),
{
    let mut accounts: Vec<AccountRef> = Vec::new();
    accounts.push(AccountRef::readonly(ctx.signer, true));
    accounts.push(AccountRef::readonly(p.user, false));
    accounts.push(AccountRef::writable(p.realm_pda));
    accounts.push(AccountRef::readonly(p.user_account_pda, false));
    accounts.push(AccountRef::writable(p.spaceship_pda));
    accounts.push(AccountRef::readonly(ctx.function, false));
    accounts.push(AccountRef::readonly(ctx.function_request, false));
    accounts.push(AccountRef::writable(p.opponent_1_pda));
    accounts.push(AccountRef::writable(p.opponent_2_pda));
    accounts.push(AccountRef::writable(p.opponent_3_pda));
    accounts.push(AccountRef::writable(p.opponent_4_pda));
    accounts.push(AccountRef::writable(p.opponent_5_pda));
    proof {
        assert(accounts@ =~= settlement_accounts(*ctx, *p));
    }
    accounts
}

/// What it means for an instruction to be the settlement instruction for this
/// context, request and drawn value.
pub open spec fn is_settlement_instruction(
    ix: SettlementInstruction,
    ctx: SettlementContext,
    p: RequestParameters,
    value: u32,
) -> bool {
    &&& ix.program_id == p.program_id
    &&& ix.accounts@ == settlement_accounts(ctx, p)
    &&& ix.data@ == settlement_data(value, p.faction)
}

/// Assembles the settlement instruction: the request's target program, the
/// fixed account schema, and the exact data bytes for the drawn value.
pub fn build_settlement_instruction(
    ctx: &SettlementContext,
    p: &RequestParameters,
    value: u32,
) -> (ix: SettlementInstruction)
    ensures
        is_settlement_instruction(ix, *ctx, *p, value),
        ix.data@.len() == 13,
{
    SettlementInstruction {
        program_id: p.program_id,
        accounts: build_settlement_accounts(ctx, p),
        data: build_settlement_data(value, p.faction),
    }
}

/// Account schema law: the settlement instruction has exactly twelve
/// accounts; the writable ones are exactly positions 3, 5 and 8 through 12
/// (counting from 1), and the sole signer is position 1.
pub proof fn lemma_account_schema(ctx: SettlementContext, p: RequestParameters)
    ensures
        settlement_accounts(ctx, p).len() == 12,
        forall|i: int|
            0 <= i < 12 ==> ((#[trigger] settlement_accounts(ctx, p)[i]).is_writable <==> (i == 2
                || i == 4 || 7 <= i <= 11)),
        forall|i: int|
            0 <= i < 12 ==> ((#[trigger] settlement_accounts(ctx, p)[i]).is_signer <==> i == 0),
{
}

} // verus!
