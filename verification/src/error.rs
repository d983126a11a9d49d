//! The ways in which a ledger operation is refused.

use vstd::prelude::*;

verus! {

/// Why an operation on a stake account did not go through.
///
/// An operation that returns one of these has changed nothing.
#[derive(Clone, Copy, Debug, PartialEq, Eq, Structural)]
pub enum ErrorCode {
    /// More principal was asked back than the account holds.
    InsufficientFundsStaked,
    /// Principal was asked back before the lock period had passed.
    StakeIsLocked,
    /// The caller is not the authority of the account.
    Unauthorized,
    /// The custody transfer that belongs to the operation did not succeed.
    TransferFailed,
    /// A reward or a balance would no longer fit in 64 bits.
    ArithmeticOverflow,
    /// The clock reads earlier than the start of the accrual window.
    InvalidTimestamp,
    /// A stake of nothing was asked for.
    InvalidAmount,
}

impl ErrorCode {
    /// The text shown to a caller for each error.
    pub open spec fn message_text(self) -> Seq<char> {
        match self {
            ErrorCode::InsufficientFundsStaked => "Error: Insufficient funds staked"@,
            ErrorCode::StakeIsLocked => "Error: Stake is still locked"@,
            ErrorCode::Unauthorized => "Error: Caller is not the account authority"@,
            ErrorCode::TransferFailed => "Error: Token transfer failed"@,
            ErrorCode::ArithmeticOverflow => "Error: Arithmetic overflow"@,
            ErrorCode::InvalidTimestamp => "Error: Clock is behind the stake start time"@,
            ErrorCode::InvalidAmount => "Error: Amount must be greater than zero"@,
        }
    }

    /// A short description of the error, fit for showing to a user.
    pub fn message(&self) -> (text: &'static str)
        ensures
            text@ == self.message_text(),
    {
        match self {
            ErrorCode::InsufficientFundsStaked => "Error: Insufficient funds staked",
            ErrorCode::StakeIsLocked => "Error: Stake is still locked",
            ErrorCode::Unauthorized => "Error: Caller is not the account authority",
            ErrorCode::TransferFailed => "Error: Token transfer failed",
            ErrorCode::ArithmeticOverflow => "Error: Arithmetic overflow",
            ErrorCode::InvalidTimestamp => "Error: Clock is behind the stake start time",
            ErrorCode::InvalidAmount => "Error: Amount must be greater than zero",
        }
    }
}

} // verus!
