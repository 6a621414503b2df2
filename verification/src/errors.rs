//! The reasons for which an operation is refused.

use vstd::prelude::*;

verus! {

/// Why an operation was refused. A refused operation leaves every record
/// it was handed exactly as it found it.
#[derive(Clone, Copy, Debug, PartialEq, Eq, Structural)]
pub enum MyErrorCode {
    Unauthorized,
    UserAccountHasBets,
    TransferFailed,
    ZeroAmount,
    InvalidSignature,
    AlreadySettled,
    RoundNotSettled,
    InvalidRoundId,
    InvalidInstruction,
    SignatureVerificationFailed,
    MessageVerificationFailed,
    PubkeyVerificationFailed,
    NoFeeToWithdraw,
    Overflow,
}

impl MyErrorCode {
    /// The text that describes the error to a reader.
    pub open spec fn message_text(&self) -> Seq<char> {
        match self {
            MyErrorCode::Unauthorized => "Unauthorized"@,
            MyErrorCode::UserAccountHasBets => "User account has bets"@,
            MyErrorCode::TransferFailed => "Transfer failed"@,
            MyErrorCode::ZeroAmount => "Zero amount"@,
            MyErrorCode::InvalidSignature => "Invalid signature"@,
            MyErrorCode::AlreadySettled => "Already settled"@,
            MyErrorCode::RoundNotSettled => "Round not settled"@,
            MyErrorCode::InvalidRoundId => "Invalid Round Id"@,
            MyErrorCode::InvalidInstruction => "Invalid instruction"@,
            MyErrorCode::SignatureVerificationFailed => "signature verification failed"@,
            MyErrorCode::MessageVerificationFailed => "message verification failed"@,
            MyErrorCode::PubkeyVerificationFailed => "Pubkey verification failed"@,
            MyErrorCode::NoFeeToWithdraw => "No fee to withdraw"@,
            MyErrorCode::Overflow => "Calculation overflow"@,
        }
    }

    /// The text that describes the error to a reader.
    pub fn message(&self) -> (msg: &'static str)
        ensures
            msg@ == self.message_text(),
    {
        match self {
            MyErrorCode::Unauthorized => "Unauthorized",
            MyErrorCode::UserAccountHasBets => "User account has bets",
            MyErrorCode::TransferFailed => "Transfer failed",
            MyErrorCode::ZeroAmount => "Zero amount",
            MyErrorCode::InvalidSignature => "Invalid signature",
            MyErrorCode::AlreadySettled => "Already settled",
            MyErrorCode::RoundNotSettled => "Round not settled",
            MyErrorCode::InvalidRoundId => "Invalid Round Id",
            MyErrorCode::InvalidInstruction => "Invalid instruction",
            MyErrorCode::SignatureVerificationFailed => "signature verification failed",
            MyErrorCode::MessageVerificationFailed => "message verification failed",
            MyErrorCode::PubkeyVerificationFailed => "Pubkey verification failed",
            MyErrorCode::NoFeeToWithdraw => "No fee to withdraw",
            MyErrorCode::Overflow => "Calculation overflow",
        }
    }
}

} // verus!
