//! The failure conditions of the escrow operations.

use vstd::prelude::*;

verus! {

/// Why an operation was rejected. A rejected operation changes no record
/// and moves no value.
#[derive(Clone, Copy, Debug, PartialEq, Eq)]
pub enum Errors {
    InvalidWithdrawAmount,
    AmountNotgreaterThanZero,
    ExceededTotalPayoutAmount,
    AmountNotEqualToTotalPayoutAmount,
    InvalidDepositAmount,
    InvalidPrediction,
    InvalidWinningAmount,
    CannotCreateBetting,
    ExceededDescriptionMaxLength,
    PredictionCannotBeSame,
    PredictionDisAllowed,
    WithdrawalDisAllowed,
    InvalidWinner,
    InvalidParticipantsLimit,
    AccountNotInitialized,
    AccountAlreadyInitialized,
    Unauthorized,
    ReInitialize,
    UnInitialize,
    InvalidArgument,
    Overflow,
    PythError,
    PythOffline,
    LoanValueTooHigh,
    TryToSerializePriceAccount,
}

} // verus!
