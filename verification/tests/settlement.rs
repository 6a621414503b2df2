use anchor_lang::prelude::{AccountInfo, Pubkey};
use anchor_lang::solana_program::sysvar::instructions::{
    construct_instructions_data, load_current_index_checked, load_instruction_at_checked,
    store_current_index, BorrowedInstruction, ID as INSTRUCTIONS_ID,
};
use anchor_lang::AnchorDeserialize;
use fast_binary_options::encoding::{bytes_equal, push_u64_le, read_u16_le, region_equals};
use fast_binary_options::errors::MyErrorCode;
use fast_binary_options::fast_binary_option::{settle_bet, settle_round};
use fast_binary_options::instructions::bet::{
    build_message, compute_reward, is_ed25519_program, parse_offsets, verify_ed25519_signature,
    BetSettled, Ed25519SignatureOffsets, InstructionsAccount, PlaceBet, RoundSettled, SettleBet,
    SettleRound,
};
use fast_binary_options::states::{AdminAccount, RoundAccount, UserRoundAccount};

const ALICE: [u8; 32] = [1u8; 32];
const BOB: [u8; 32] = [2u8; 32];
const ROOT: [u8; 32] = [9u8; 32];
const ORACLE_KEY: [u8; 32] = [7u8; 32];
const SIG: [u8; 64] = [0xabu8; 64];

fn verifier_program() -> [u8; 32] {
    anchor_lang::solana_program::ed25519_program::ID.to_bytes()
}

/// Instruction data laid out as the Ed25519 program expects it: count,
/// padding, offsets, then key, signature and message.
fn attestation_data(signature: &[u8; 64], key: &[u8; 32], message: &[u8]) -> Vec<u8> {
    let key_at: u16 = 16;
    let sig_at: u16 = 48;
    let msg_at: u16 = 112;
    let mut data = vec![1u8, 0u8];
    for field in [sig_at, u16::MAX, key_at, u16::MAX, msg_at, message.len() as u16, u16::MAX] {
        data.push((field & 0xff) as u8);
        data.push((field >> 8) as u8);
    }
    data.extend_from_slice(key);
    data.extend_from_slice(signature);
    data.extend_from_slice(message);
    data
}

fn attestation(signature: &[u8; 64], key: &[u8; 32], message: &[u8]) -> InstructionsAccount {
    InstructionsAccount {
        current_index: 1,
        program_id: verifier_program(),
        data: attestation_data(signature, key, message),
    }
}

fn oracle_admin() -> AdminAccount {
    AdminAccount { authority: ROOT, oracle_authority: ORACLE_KEY, fee: 75 }
}

fn staked_round() -> RoundAccount {
    RoundAccount { round_id: 600, up: 950, down: 475, open_price: None, close_price: None }
}

fn settled_round(open_price: u64, close_price: u64) -> RoundAccount {
    RoundAccount {
        round_id: 600,
        up: 950,
        down: 475,
        open_price: Some(open_price),
        close_price: Some(close_price),
    }
}

fn round_settlement(message: &[u8], key: &[u8; 32]) -> SettleRound {
    SettleRound {
        user: ALICE,
        round_account: staked_round(),
        ix_account: attestation(&SIG, key, message),
        admin_account: oracle_admin(),
    }
}

fn wager(user: [u8; 32], up: u64, down: u64) -> UserRoundAccount {
    UserRoundAccount { user, round_id: 600, up, down, settled: false }
}

#[test]
fn verifier_program_address_matches_the_platform() {
    let id = verifier_program();
    assert_eq!(
        id,
        [
            3, 125, 70, 214, 124, 147, 251, 190, 18, 249, 66, 143, 131, 141, 64, 255, 5, 112,
            116, 73, 39, 244, 138, 100, 252, 202, 112, 68, 128, 0, 0, 0
        ]
    );
    assert!(is_ed25519_program(&id));
    assert!(!is_ed25519_program(&[0u8; 32]));
    let mut near = id;
    near[31] = 1;
    assert!(!is_ed25519_program(&near));
}

#[test]
fn message_is_three_little_endian_words() {
    let msg = build_message(600, 100, 110);
    let mut expected = vec![0x58u8, 0x02, 0, 0, 0, 0, 0, 0];
    expected.extend_from_slice(&[100u8, 0, 0, 0, 0, 0, 0, 0]);
    expected.extend_from_slice(&[110u8, 0, 0, 0, 0, 0, 0, 0]);
    assert_eq!(msg, expected);
    let big = build_message(0x0102030405060708, u64::MAX, 0);
    assert_eq!(&big[0..8], &[8u8, 7, 6, 5, 4, 3, 2, 1]);
    assert_eq!(&big[0..8], &0x0102030405060708u64.to_le_bytes());
    assert_eq!(&big[8..16], &[0xffu8; 8]);
    assert_eq!(&big[16..24], &[0u8; 8]);
    assert_eq!(big.len(), 24);
}

#[test]
fn encoding_helpers_agree_with_the_standard_library() {
    let mut out = vec![5u8];
    push_u64_le(&mut out, 0xdead_beef_0000_1234);
    assert_eq!(out[0], 5);
    assert_eq!(&out[1..], &0xdead_beef_0000_1234u64.to_le_bytes());
    assert_eq!(read_u16_le(&[0x34, 0x12, 0xff], 0), 0x1234);
    assert_eq!(read_u16_le(&[0x34, 0x12, 0xff], 1), 0xff12);
    assert!(bytes_equal(&[1, 2, 3], &[1, 2, 3]));
    assert!(!bytes_equal(&[1, 2, 3], &[1, 2]));
    assert!(!bytes_equal(&[1, 2, 3], &[1, 2, 4]));
    assert!(bytes_equal(&[], &[]));
    assert!(region_equals(&[9, 1, 2, 3, 9], 1, 3, &[1, 2, 3]));
    assert!(!region_equals(&[9, 1, 2, 3, 9], 1, 3, &[1, 2, 3, 9]));
    assert!(!region_equals(&[9, 1, 2, 3, 9], 1, 3, &[1, 2, 4]));
    assert!(region_equals(&[9, 1], 2, 0, &[]));
}

#[test]
fn offsets_are_read_in_field_order() {
    let data = attestation_data(&SIG, &ORACLE_KEY, &[1, 2, 3]);
    assert_eq!(
        parse_offsets(&data),
        Some(Ed25519SignatureOffsets {
            signature_offset: 48,
            signature_instruction_index: u16::MAX,
            public_key_offset: 16,
            public_key_instruction_index: u16::MAX,
            message_data_offset: 112,
            message_data_size: 3,
            message_instruction_index: u16::MAX,
        })
    );
    let raw: Vec<u8> = (0u8..16).collect();
    assert_eq!(
        parse_offsets(&raw),
        Some(Ed25519SignatureOffsets {
            signature_offset: 0x0302,
            signature_instruction_index: 0x0504,
            public_key_offset: 0x0706,
            public_key_instruction_index: 0x0908,
            message_data_offset: 0x0b0a,
            message_data_size: 0x0d0c,
            message_instruction_index: 0x0f0e,
        })
    );
    assert_eq!(parse_offsets(&raw[..15]), None);
    assert_eq!(parse_offsets(&[]), None);
}

#[test]
fn offsets_agree_with_borsh() {
    let data: Vec<u8> = (0u8..64).map(|i| i.wrapping_mul(37).wrapping_add(11)).collect();
    let offsets = parse_offsets(&data).unwrap();
    let field = |at: usize| u16::try_from_slice(&data[at..at + 2]).unwrap();
    assert_eq!(offsets.signature_offset, field(2));
    assert_eq!(offsets.signature_instruction_index, field(4));
    assert_eq!(offsets.public_key_offset, field(6));
    assert_eq!(offsets.public_key_instruction_index, field(8));
    assert_eq!(offsets.message_data_offset, field(10));
    assert_eq!(offsets.message_data_size, field(12));
    assert_eq!(offsets.message_instruction_index, field(14));
}

/// Loads the instruction record as the program does and hands it on as
/// plain values.
fn loaded_record(
    first_program: &Pubkey,
    first_data: &[u8],
    current_index: u16,
) -> InstructionsAccount {
    let settle_program = Pubkey::new_from_array([5u8; 32]);
    let instructions = [
        BorrowedInstruction { program_id: first_program, accounts: vec![], data: first_data },
        BorrowedInstruction { program_id: &settle_program, accounts: vec![], data: &[1, 2, 3] },
    ];
    let mut sysvar_data = construct_instructions_data(&instructions);
    store_current_index(&mut sysvar_data, current_index);
    let mut lamports: u64 = 0;
    let owner = Pubkey::new_from_array([0u8; 32]);
    let account = AccountInfo::new(
        &INSTRUCTIONS_ID,
        false,
        false,
        &mut lamports,
        &mut sysvar_data,
        &owner,
        false,
        0,
    );
    let index = load_current_index_checked(&account).unwrap();
    let first = load_instruction_at_checked(0, &account).unwrap();
    InstructionsAccount {
        current_index: index,
        program_id: first.program_id.to_bytes(),
        data: first.data,
    }
}

#[test]
fn record_loaded_from_the_platform_is_verified() {
    let msg = build_message(600, 100, 110);
    let data = attestation_data(&SIG, &ORACLE_KEY, &msg);
    let verifier = anchor_lang::solana_program::ed25519_program::ID;

    let ix = loaded_record(&verifier, &data, 1);
    assert_eq!(ix, attestation(&SIG, &ORACLE_KEY, &msg));
    assert_eq!(verify_ed25519_signature(&ix, &SIG, &msg, &ORACLE_KEY), Ok(()));
    assert_eq!(
        verify_ed25519_signature(&ix, &SIG, &msg, &BOB),
        Err(MyErrorCode::PubkeyVerificationFailed)
    );

    let ix = loaded_record(&verifier, &data, 0);
    assert_eq!(
        verify_ed25519_signature(&ix, &SIG, &msg, &ORACLE_KEY),
        Err(MyErrorCode::InvalidInstruction)
    );

    let system = anchor_lang::solana_program::system_program::ID;
    let ix = loaded_record(&system, &data, 1);
    assert_eq!(
        verify_ed25519_signature(&ix, &SIG, &msg, &ORACLE_KEY),
        Err(MyErrorCode::InvalidInstruction)
    );
}

#[test]
fn matching_attestation_is_accepted() {
    let msg = build_message(600, 100, 110);
    let ix = attestation(&SIG, &ORACLE_KEY, &msg);
    assert_eq!(verify_ed25519_signature(&ix, &SIG, &msg, &ORACLE_KEY), Ok(()));
}

#[test]
fn tampered_signature_is_named() {
    let msg = build_message(600, 100, 110);
    let ix = attestation(&SIG, &ORACLE_KEY, &msg);
    let mut forged = SIG;
    forged[63] ^= 1;
    assert_eq!(
        verify_ed25519_signature(&ix, &forged, &msg, &ORACLE_KEY),
        Err(MyErrorCode::SignatureVerificationFailed)
    );
    assert_eq!(
        verify_ed25519_signature(&ix, &SIG[..63], &msg, &ORACLE_KEY),
        Err(MyErrorCode::SignatureVerificationFailed)
    );
}

#[test]
fn tampered_message_is_named() {
    let msg = build_message(600, 100, 110);
    let ix = attestation(&SIG, &ORACLE_KEY, &msg);
    let other = build_message(600, 100, 111);
    assert_eq!(
        verify_ed25519_signature(&ix, &SIG, &other, &ORACLE_KEY),
        Err(MyErrorCode::MessageVerificationFailed)
    );
    assert_eq!(
        verify_ed25519_signature(&ix, &SIG, &msg[..23], &ORACLE_KEY),
        Err(MyErrorCode::MessageVerificationFailed)
    );
}

#[test]
fn tampered_key_is_named() {
    let msg = build_message(600, 100, 110);
    let ix = attestation(&SIG, &ORACLE_KEY, &msg);
    assert_eq!(
        verify_ed25519_signature(&ix, &SIG, &msg, &BOB),
        Err(MyErrorCode::PubkeyVerificationFailed)
    );
}

#[test]
fn signature_is_examined_before_message_and_key() {
    let msg = build_message(600, 100, 110);
    let ix = attestation(&SIG, &ORACLE_KEY, &msg);
    let forged = [0u8; 64];
    assert_eq!(
        verify_ed25519_signature(&ix, &forged, &[], &BOB),
        Err(MyErrorCode::SignatureVerificationFailed)
    );
    assert_eq!(
        verify_ed25519_signature(&ix, &SIG, &[], &BOB),
        Err(MyErrorCode::MessageVerificationFailed)
    );
}

#[test]
fn foreign_or_missing_instruction_is_invalid() {
    let msg = build_message(600, 100, 110);
    let mut ix = attestation(&SIG, &ORACLE_KEY, &msg);
    ix.current_index = 0;
    assert_eq!(
        verify_ed25519_signature(&ix, &SIG, &msg, &ORACLE_KEY),
        Err(MyErrorCode::InvalidInstruction)
    );
    let mut ix = attestation(&SIG, &ORACLE_KEY, &msg);
    ix.program_id = [0u8; 32];
    assert_eq!(
        verify_ed25519_signature(&ix, &SIG, &msg, &ORACLE_KEY),
        Err(MyErrorCode::InvalidInstruction)
    );
    ix.program_id = ORACLE_KEY;
    assert_eq!(
        verify_ed25519_signature(&ix, &SIG, &msg, &ORACLE_KEY),
        Err(MyErrorCode::InvalidInstruction)
    );
}

#[test]
fn malformed_data_is_an_invalid_instruction() {
    let msg = build_message(600, 100, 110);
    let good = attestation(&SIG, &ORACLE_KEY, &msg);

    let mut ix = good.clone();
    ix.data = vec![];
    assert_eq!(
        verify_ed25519_signature(&ix, &SIG, &msg, &ORACLE_KEY),
        Err(MyErrorCode::InvalidInstruction)
    );
    ix.data = vec![1];
    assert_eq!(
        verify_ed25519_signature(&ix, &SIG, &msg, &ORACLE_KEY),
        Err(MyErrorCode::InvalidInstruction)
    );
    ix.data = good.data[..15].to_vec();
    assert_eq!(
        verify_ed25519_signature(&ix, &SIG, &msg, &ORACLE_KEY),
        Err(MyErrorCode::InvalidInstruction)
    );

    for count in [0u8, 2u8, 255u8] {
        let mut ix = good.clone();
        ix.data[0] = count;
        assert_eq!(
            verify_ed25519_signature(&ix, &SIG, &msg, &ORACLE_KEY),
            Err(MyErrorCode::InvalidInstruction)
        );
    }

    // Signature region cut short.
    let mut ix = good.clone();
    ix.data.truncate(111);
    assert_eq!(
        verify_ed25519_signature(&ix, &SIG, &msg, &ORACLE_KEY),
        Err(MyErrorCode::InvalidInstruction)
    );
    // Message region cut short.
    let mut ix = good.clone();
    ix.data.truncate(135);
    assert_eq!(
        verify_ed25519_signature(&ix, &SIG, &msg, &ORACLE_KEY),
        Err(MyErrorCode::InvalidInstruction)
    );
    // Key offset pointing past the end.
    let mut ix = good.clone();
    ix.data[6] = 0xff;
    ix.data[7] = 0xff;
    assert_eq!(
        verify_ed25519_signature(&ix, &SIG, &msg, &ORACLE_KEY),
        Err(MyErrorCode::InvalidInstruction)
    );
}

#[test]
fn count_other_than_one_is_refused_even_when_the_first_entry_matches() {
    let msg = build_message(600, 100, 110);
    for count in [0u8, 2u8, 3u8] {
        let mut ix = attestation(&SIG, &ORACLE_KEY, &msg);
        ix.data[0] = count;
        assert_eq!(
            verify_ed25519_signature(&ix, &SIG, &msg, &ORACLE_KEY),
            Err(MyErrorCode::InvalidInstruction)
        );
        let mut ctx = round_settlement(&msg, &ORACLE_KEY);
        ctx.ix_account = ix;
        let before = ctx.clone();
        assert_eq!(ctx.process(600, 100, 110, SIG), Err(MyErrorCode::InvalidInstruction));
        assert_eq!(ctx, before);
    }
}

#[test]
fn offsets_into_another_instruction_are_refused() {
    let msg = build_message(600, 100, 110);
    // The index fields lie at bytes 4, 8 and 14 of the data.
    for at in [4usize, 8, 14] {
        for index in [1u16, 2, 0x00ff, 0xff00, 0xfffe] {
            let mut ix = attestation(&SIG, &ORACLE_KEY, &msg);
            ix.data[at] = (index & 0xff) as u8;
            ix.data[at + 1] = (index >> 8) as u8;
            assert_eq!(
                verify_ed25519_signature(&ix, &SIG, &msg, &ORACLE_KEY),
                Err(MyErrorCode::InvalidInstruction)
            );
            // Refused before any part is compared.
            assert_eq!(
                verify_ed25519_signature(&ix, &[0u8; 64], &[], &BOB),
                Err(MyErrorCode::InvalidInstruction)
            );
        }
    }
    let mut ctx = round_settlement(&msg, &ORACLE_KEY);
    ctx.ix_account.data[14] = 1;
    ctx.ix_account.data[15] = 0;
    let before = ctx.clone();
    assert_eq!(ctx.process(600, 100, 110, SIG), Err(MyErrorCode::InvalidInstruction));
    assert_eq!(ctx, before);
    assert_eq!(ctx.round_account.open_price, None);
}

#[test]
fn offsets_that_name_the_first_instruction_by_position_are_accepted() {
    let msg = build_message(600, 100, 110);
    let mut ix = attestation(&SIG, &ORACLE_KEY, &msg);
    for at in [4usize, 8, 14] {
        ix.data[at] = 0;
        ix.data[at + 1] = 0;
        assert_eq!(verify_ed25519_signature(&ix, &SIG, &msg, &ORACLE_KEY), Ok(()));
    }
    assert_eq!(
        verify_ed25519_signature(&ix, &SIG, &msg, &BOB),
        Err(MyErrorCode::PubkeyVerificationFailed)
    );
    let offsets = parse_offsets(&ix.data).unwrap();
    assert!(offsets.stays_within_first_instruction());
    let own = parse_offsets(&attestation_data(&SIG, &ORACLE_KEY, &msg)).unwrap();
    assert!(own.stays_within_first_instruction());
    let mut other = own;
    other.public_key_instruction_index = 3;
    assert!(!other.stays_within_first_instruction());
}

#[test]
fn settled_round_is_told_apart() {
    assert_eq!(staked_round().ensure_unsettled(), Ok(()));
    assert_eq!(settled_round(1, 2).ensure_unsettled(), Err(MyErrorCode::AlreadySettled));
}

#[test]
fn rewards_of_all_winners_stay_within_the_pool() {
    // Three winners share a pool that does not divide evenly.
    let stakes: [u64; 3] = [1, 1, 1];
    let winning: u64 = 3;
    let total: u128 = 10;
    let mut paid: u128 = 0;
    for stake in stakes {
        paid += compute_reward(stake, winning, total).unwrap() as u128;
    }
    assert_eq!(paid, 9);
    assert!(paid <= total);
    assert!(total - paid < stakes.len() as u128);

    let stakes: [u64; 4] = [950, 475, 7, 0];
    let winning: u64 = 950 + 475 + 7;
    let total: u128 = winning as u128 + 1001;
    let mut paid: u128 = 0;
    for stake in stakes {
        paid += compute_reward(stake, winning, total).unwrap() as u128;
    }
    assert!(paid <= total);
    assert!(total - paid < 3);
}

#[test]
fn oracle_settles_round_once() {
    let msg = build_message(600, 100, 110);
    let mut ctx = round_settlement(&msg, &ORACLE_KEY);
    let event = ctx.process(600, 100, 110, SIG).unwrap();
    assert_eq!(event, RoundSettled { round_id: 600, open_price: 100, close_price: 110 });
    assert_eq!(ctx.round_account, settled_round(100, 110));
    assert_eq!(ctx.admin_account, oracle_admin());

    let settled = ctx.clone();
    assert_eq!(ctx.process(600, 100, 110, SIG), Err(MyErrorCode::AlreadySettled));
    assert_eq!(ctx, settled);

    let other = build_message(600, 1, 2);
    ctx.ix_account = attestation(&SIG, &ORACLE_KEY, &other);
    let settled = ctx.clone();
    assert_eq!(settle_round(&mut ctx, 600, 1, 2, SIG), Err(MyErrorCode::AlreadySettled));
    assert_eq!(ctx, settled);
    assert_eq!(ctx.round_account.open_price, Some(100));
    assert_eq!(ctx.round_account.close_price, Some(110));
}

#[test]
fn attestation_by_another_key_leaves_prices_absent() {
    let msg = build_message(600, 100, 110);
    let mut ctx = round_settlement(&msg, &BOB);
    let before = ctx.clone();
    assert_eq!(ctx.process(600, 100, 110, SIG), Err(MyErrorCode::PubkeyVerificationFailed));
    assert_eq!(ctx, before);
    assert_eq!(ctx.round_account.open_price, None);
    assert_eq!(ctx.round_account.close_price, None);
}

#[test]
fn attestation_of_other_prices_is_refused() {
    let msg = build_message(600, 100, 110);
    let mut ctx = round_settlement(&msg, &ORACLE_KEY);
    let before = ctx.clone();
    assert_eq!(ctx.process(600, 100, 120, SIG), Err(MyErrorCode::MessageVerificationFailed));
    assert_eq!(ctx.process(900, 100, 110, SIG), Err(MyErrorCode::MessageVerificationFailed));
    assert_eq!(ctx.process(600, 100, 110, [0u8; 64]), Err(MyErrorCode::SignatureVerificationFailed));
    assert_eq!(ctx, before);
    ctx.ix_account.current_index = 0;
    assert_eq!(ctx.process(600, 100, 110, SIG), Err(MyErrorCode::InvalidInstruction));
}

#[test]
fn winner_takes_pool_and_loser_nothing() {
    let mut place1 = PlaceBet {
        user: ALICE,
        user_round_account: UserRoundAccount::new(),
        round_account: RoundAccount::new(),
        admin_account: AdminAccount { authority: ROOT, oracle_authority: ORACLE_KEY, fee: 0 },
    };
    place1.process(600, 1000, true, 0).unwrap();
    let mut place2 = PlaceBet {
        user: BOB,
        user_round_account: UserRoundAccount::new(),
        round_account: place1.round_account,
        admin_account: place1.admin_account,
    };
    place2.process(600, 500, false, 0).unwrap();

    let msg = build_message(600, 100, 110);
    let mut round = SettleRound {
        user: ROOT,
        round_account: place2.round_account,
        ix_account: attestation(&SIG, &ORACLE_KEY, &msg),
        admin_account: place2.admin_account,
    };
    round.process(600, 100, 110, SIG).unwrap();

    let mut first = SettleBet {
        user: ALICE,
        user_round_account: place1.user_round_account,
        round_account: round.round_account,
        admin_account: round.admin_account,
    };
    let event = first.process(600).unwrap();
    assert_eq!(
        event,
        BetSettled { user: ALICE, round_id: 600, amount: 950, is_up: true, reward: 1425 }
    );
    assert!(first.user_round_account.settled);
    assert_eq!(first.round_account, round.round_account);
    assert_eq!(first.admin_account, round.admin_account);

    let mut second = SettleBet {
        user: BOB,
        user_round_account: place2.user_round_account,
        round_account: round.round_account,
        admin_account: round.admin_account,
    };
    let event = settle_bet(&mut second, 600).unwrap();
    assert_eq!(
        event,
        BetSettled { user: BOB, round_id: 600, amount: 0, is_up: true, reward: 0 }
    );
    assert!(second.user_round_account.settled);
}

#[test]
fn wager_settles_only_once() {
    let mut ctx = SettleBet {
        user: ALICE,
        user_round_account: wager(ALICE, 950, 0),
        round_account: settled_round(100, 110),
        admin_account: oracle_admin(),
    };
    assert_eq!(ctx.process(600).unwrap().reward, 1425);
    let closed = ctx;
    assert!(closed.user_round_account.settled);
    assert_eq!(ctx.process(600), Err(MyErrorCode::AlreadySettled));
    assert_eq!(ctx, closed);
    assert!(ctx.user_round_account.settled);
}

#[test]
fn unsettled_round_pays_nothing_yet() {
    let mut ctx = SettleBet {
        user: ALICE,
        user_round_account: wager(ALICE, 950, 0),
        round_account: staked_round(),
        admin_account: oracle_admin(),
    };
    let before = ctx;
    assert_eq!(ctx.process(600), Err(MyErrorCode::RoundNotSettled));
    assert_eq!(ctx, before);
    assert!(!ctx.user_round_account.settled);
    ctx.user_round_account.settled = true;
    assert_eq!(ctx.process(600), Err(MyErrorCode::AlreadySettled));
}

#[test]
fn tie_goes_to_down() {
    let mut ctx = SettleBet {
        user: BOB,
        user_round_account: wager(BOB, 0, 475),
        round_account: settled_round(100, 100),
        admin_account: oracle_admin(),
    };
    let event = ctx.process(600).unwrap();
    assert_eq!(
        event,
        BetSettled { user: BOB, round_id: 600, amount: 475, is_up: false, reward: 1425 }
    );
    let mut ctx = SettleBet {
        user: ALICE,
        user_round_account: wager(ALICE, 950, 0),
        round_account: settled_round(110, 100),
        admin_account: oracle_admin(),
    };
    let event = ctx.process(600).unwrap();
    assert_eq!(
        event,
        BetSettled { user: ALICE, round_id: 600, amount: 0, is_up: false, reward: 0 }
    );
    assert!(ctx.user_round_account.settled);
}

#[test]
fn caller_without_stake_still_closes_wager() {
    let mut ctx = SettleBet {
        user: ALICE,
        user_round_account: wager(ALICE, 0, 0),
        round_account: settled_round(100, 110),
        admin_account: oracle_admin(),
    };
    assert_eq!(ctx.process(600).unwrap().reward, 0);
    assert!(ctx.user_round_account.settled);
}

#[test]
fn reward_is_proportional_and_rounds_down() {
    assert_eq!(compute_reward(950, 950, 1425), Ok(1425));
    assert_eq!(compute_reward(3, 7, 10), Ok(4));
    assert_eq!(compute_reward(1, 3, 4), Ok(1));
    assert_eq!(compute_reward(2, 3, 4), Ok(2));
    assert_eq!(compute_reward(3, 3, 4), Ok(4));
    assert_eq!(compute_reward(0, 950, 1425), Ok(0));
    assert_eq!(compute_reward(950, 0, 1425), Ok(0));
    assert_eq!(compute_reward(0, 0, 0), Ok(0));
    assert_eq!(compute_reward(5, 5, 0), Ok(0));
    assert_eq!(compute_reward(u64::MAX, u64::MAX, u64::MAX as u128), Ok(u64::MAX));
    for (stake, winning, total) in [(1u64, 10u64, 25u128), (10, 10, 25), (7, 9, 9), (4, 9, 1000)] {
        let reward = compute_reward(stake, winning, total).unwrap();
        assert!(reward as u128 <= total);
        assert_eq!(reward as u128, stake as u128 * total / winning as u128);
    }
}

#[test]
fn reward_beyond_a_balance_is_an_overflow() {
    assert_eq!(compute_reward(2, 1, u64::MAX as u128), Err(MyErrorCode::Overflow));
    assert_eq!(compute_reward(u64::MAX, 1, u128::MAX), Err(MyErrorCode::Overflow));
    assert_eq!(
        compute_reward(u64::MAX, u64::MAX, 2 * (u64::MAX as u128)),
        Err(MyErrorCode::Overflow)
    );
    let mut ctx = SettleBet {
        user: ALICE,
        user_round_account: wager(ALICE, u64::MAX, 0),
        round_account: RoundAccount {
            round_id: 600,
            up: u64::MAX,
            down: 1,
            open_price: Some(1),
            close_price: Some(2),
        },
        admin_account: oracle_admin(),
    };
    let before = ctx;
    assert_eq!(ctx.process(600), Err(MyErrorCode::Overflow));
    assert_eq!(ctx, before);
    assert!(!ctx.user_round_account.settled);
}
