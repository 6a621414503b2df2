use fast_binary_options::errors::MyErrorCode;
use fast_binary_options::fast_binary_option::{
    delete_admin, initialize_admin, set_admin_authority, set_oracle_authority, withdraw_fee,
};
use fast_binary_options::instructions::admin::{
    is_authority, DeleteAdmin, InitializeAdmin, SetAdminAuthority, SetOracleAuthority, WithdrawFee,
};
use fast_binary_options::states::AdminAccount;

const OWNER: [u8; 32] = [9u8; 32];
const STRANGER: [u8; 32] = [4u8; 32];
const SIGNER: [u8; 32] = [7u8; 32];
const NEXT: [u8; 32] = [8u8; 32];

fn registry(fee: u64) -> AdminAccount {
    AdminAccount { authority: OWNER, oracle_authority: SIGNER, fee }
}

#[test]
fn initialize_makes_caller_the_authority() {
    let mut ctx = InitializeAdmin {
        user: OWNER,
        admin_account: AdminAccount { authority: [0u8; 32], oracle_authority: [0u8; 32], fee: 33 },
    };
    assert_eq!(initialize_admin(&mut ctx, SIGNER), Ok(()));
    assert_eq!(ctx.admin_account, registry(0));
    assert_eq!(ctx.user, OWNER);
}

#[test]
fn authority_is_recognised() {
    assert!(is_authority(&OWNER, &registry(0)));
    assert!(!is_authority(&STRANGER, &registry(0)));
    assert!(!is_authority(&SIGNER, &registry(0)));
}

#[test]
fn only_authority_sets_oracle_key() {
    let mut ctx = SetOracleAuthority { authority: STRANGER, admin_account: registry(5) };
    assert_eq!(set_oracle_authority(&mut ctx, NEXT), Err(MyErrorCode::Unauthorized));
    assert_eq!(ctx.admin_account, registry(5));
    ctx.authority = OWNER;
    assert_eq!(ctx.process(NEXT), Ok(()));
    assert_eq!(
        ctx.admin_account,
        AdminAccount { authority: OWNER, oracle_authority: NEXT, fee: 5 }
    );
}

#[test]
fn only_authority_hands_over() {
    let mut ctx = SetAdminAuthority { authority: STRANGER, admin_account: registry(5) };
    assert_eq!(set_admin_authority(&mut ctx, STRANGER), Err(MyErrorCode::Unauthorized));
    assert_eq!(ctx.admin_account, registry(5));
    ctx.authority = OWNER;
    assert_eq!(ctx.process(NEXT), Ok(()));
    assert_eq!(
        ctx.admin_account,
        AdminAccount { authority: NEXT, oracle_authority: SIGNER, fee: 5 }
    );
    assert_eq!(ctx.process(OWNER), Err(MyErrorCode::Unauthorized));
}

#[test]
fn withdrawal_empties_fee_balance() {
    let mut ctx = WithdrawFee { authority: OWNER, admin_account: registry(75) };
    assert_eq!(withdraw_fee(&mut ctx), Ok(75));
    assert_eq!(ctx.admin_account, registry(0));
    assert_eq!(ctx.process(), Err(MyErrorCode::NoFeeToWithdraw));
    assert_eq!(ctx.admin_account, registry(0));
}

#[test]
fn withdrawal_is_for_the_authority_only() {
    let mut ctx = WithdrawFee { authority: STRANGER, admin_account: registry(75) };
    assert_eq!(ctx.process(), Err(MyErrorCode::Unauthorized));
    assert_eq!(ctx.admin_account, registry(75));
    ctx.admin_account.fee = 0;
    assert_eq!(ctx.process(), Err(MyErrorCode::Unauthorized));
}

#[test]
fn only_authority_deletes() {
    let mut ctx = DeleteAdmin { authority: STRANGER, admin_account: registry(1) };
    assert_eq!(delete_admin(&mut ctx), Err(MyErrorCode::Unauthorized));
    ctx.authority = OWNER;
    assert_eq!(ctx.process(), Ok(()));
    assert_eq!(ctx.admin_account, registry(1));
}

#[test]
fn every_error_has_its_text() {
    assert_eq!(MyErrorCode::Unauthorized.message(), "Unauthorized");
    assert_eq!(MyErrorCode::UserAccountHasBets.message(), "User account has bets");
    assert_eq!(MyErrorCode::TransferFailed.message(), "Transfer failed");
    assert_eq!(MyErrorCode::ZeroAmount.message(), "Zero amount");
    assert_eq!(MyErrorCode::InvalidSignature.message(), "Invalid signature");
    assert_eq!(MyErrorCode::AlreadySettled.message(), "Already settled");
    assert_eq!(MyErrorCode::RoundNotSettled.message(), "Round not settled");
    assert_eq!(MyErrorCode::InvalidRoundId.message(), "Invalid Round Id");
    assert_eq!(MyErrorCode::InvalidInstruction.message(), "Invalid instruction");
    assert_eq!(
        MyErrorCode::SignatureVerificationFailed.message(),
        "signature verification failed"
    );
    assert_eq!(MyErrorCode::MessageVerificationFailed.message(), "message verification failed");
    assert_eq!(MyErrorCode::PubkeyVerificationFailed.message(), "Pubkey verification failed");
    assert_eq!(MyErrorCode::NoFeeToWithdraw.message(), "No fee to withdraw");
    assert_eq!(MyErrorCode::Overflow.message(), "Calculation overflow");
}
