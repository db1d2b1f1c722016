//! A two-party binary-option escrow: one party opens a wager on a strike
//! price, a second party takes the opposite side, a price sample decides the
//! winner, and the winner withdraws the pooled stake less a protocol fee.
//!
//! Every operation is a pure decision over plain values: it either rejects
//! the request with an [`error::Errors`] value and leaves all state as it was,
//! or it updates the records and hands back the value movement that the
//! ledger has to carry out.

pub mod error;
pub mod identity;
pub mod laws;
pub mod oracle;
pub mod transfer;
pub mod treasury;

pub use error::Errors;
pub use identity::Identity;
pub use oracle::{Price, PriceSample};
pub use transfer::Transfer;
pub use treasury::{initialize, withdraw, DepositBaseAdmin, Initialize, Withdraw};
pub mod escrow;
pub mod position;

pub use escrow::{
    accept_binary_options, create_binary_options, process_prediction, withdraw_participant_funds,
    AcceptBinaryOptions, BettingState, BinaryOption, CreateBinaryOptions, ProcessPrediction,
    WithdrawParticipantFunds,
};
pub use position::{ParticipantPosition, Participants};
