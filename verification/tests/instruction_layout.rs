use arena_settle::instruction::{
    build_settlement_accounts, build_settlement_data, build_settlement_instruction,
    decode_settlement_tail, AccountId, RequestParameters, SettlementContext,
};
use arena_settle::rng::draw;

fn id(fill: u8) -> AccountId {
    AccountId { bytes: [fill; 32] }
}

fn params(faction: u8) -> RequestParameters {
    RequestParameters {
        program_id: id(1),
        user: id(2),
        realm_pda: id(3),
        user_account_pda: id(4),
        spaceship_pda: id(5),
        opponent_1_pda: id(6),
        opponent_2_pda: id(7),
        opponent_3_pda: id(8),
        opponent_4_pda: id(9),
        opponent_5_pda: id(10),
        faction,
    }
}

fn context() -> SettlementContext {
    SettlementContext {
        signer: id(11),
        function: id(12),
        function_request: id(13),
    }
}

#[test]
fn test_generate_randomness_and_encode() {
    let faction = 1u8;
    let min = 0;
    let max = 10000;

    let result = draw(min, max);
    let _ixn_data = build_settlement_data(result, faction);
}

// The data length is pinned here on purpose: 13 bytes only add up with an
// eight-byte discriminator before the four value bytes (positions 8..12)
// and the tag (position 12), so the chosen length is asserted explicitly
// against the receiving program's schema.
#[test]
fn data_is_thirteen_bytes() {
    let data = build_settlement_data(0xDEAD_BEEF, 9);
    assert_eq!(data.len(), 13);
}

// The discriminator the data starts with is the selector the oracle library
// derives from the operation name.
#[test]
fn data_starts_with_operation_discriminator() {
    let data = build_settlement_data(5, 0);
    let expected = switchboard_solana::get_ixn_discriminator("arena_matchmaking_settle");
    assert_eq!(&data[..8], &expected[..]);

    // Independent derivation: first eight bytes of the hash of the prefixed
    // operation name.
    let hashed = solana_program::hash::hash(b"global:arena_matchmaking_settle");
    assert_eq!(&data[..8], &hashed.to_bytes()[..8]);
}

// Scenario: value 42 with tag 1 ends the data in [42, 0, 0, 0, 1], and the
// tail decodes back to exactly that pair.
#[test]
fn tail_round_trip_is_exact() {
    let data = build_settlement_data(42, 1);
    assert_eq!(&data[8..], &[42, 0, 0, 0, 1]);

    let (value, tag) = decode_settlement_tail(&data);
    assert_eq!(value, 42);
    assert_eq!(tag, 1);

    let data = build_settlement_data(u32::MAX, 255);
    let (value, tag) = decode_settlement_tail(&data);
    assert_eq!(value, u32::MAX);
    assert_eq!(tag, 255);
}

// The account list follows the protocol schema: twelve entries in fixed
// order; positions 3, 5 and 8 through 12 (1-based) writable; position 1 the
// sole signer.
#[test]
fn account_schema_is_fixed() {
    let ctx = context();
    let p = params(0);
    let accounts = build_settlement_accounts(&ctx, &p);
    assert_eq!(accounts.len(), 12);

    let expected_ids = [
        ctx.signer,
        p.user,
        p.realm_pda,
        p.user_account_pda,
        p.spaceship_pda,
        ctx.function,
        ctx.function_request,
        p.opponent_1_pda,
        p.opponent_2_pda,
        p.opponent_3_pda,
        p.opponent_4_pda,
        p.opponent_5_pda,
    ];
    for (i, account) in accounts.iter().enumerate() {
        assert_eq!(account.id, expected_ids[i]);
        assert_eq!(account.is_writable, i == 2 || i == 4 || (7..=11).contains(&i));
        assert_eq!(account.is_signer, i == 0);
    }
}

// The assembled instruction targets the request's program and carries the
// exact schema and data.
#[test]
fn settlement_instruction_is_assembled() {
    let ctx = context();
    let p = params(3);
    let ix = build_settlement_instruction(&ctx, &p, 77);
    assert_eq!(ix.program_id, p.program_id);
    assert_eq!(ix.accounts, build_settlement_accounts(&ctx, &p));
    assert_eq!(ix.data, build_settlement_data(77, 3));
}
