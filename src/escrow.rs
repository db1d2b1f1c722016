//! The escrow record of one wager and its lifecycle: creation, matching,
//! settlement and the winner's withdrawal.

use vstd::prelude::*;
use vstd::utf8::encode_utf8;
use crate::error::Errors;
use crate::identity::Identity;
use crate::oracle::{hits_strike, price_hits_strike, is_fresh, PriceSample, STALENESS_THRESHOLD};
use crate::position::{opposed, positions_opposed, ParticipantPosition, Participants};
use crate::transfer::Transfer;
use crate::treasury::DepositBaseAdmin;

verus! {

/// The largest length, in bytes, of a wager's description.
pub const DESCRIPTION_LENGTH: usize = 40;

/// Where a wager stands: opened by its creator, or taken by a second party.
#[derive(Clone, Copy, Debug, PartialEq, Eq, Structural)]
pub enum BettingState {
    Created,
    Matched,
}

/// The escrow record of one wager.
#[derive(Clone, Debug, PartialEq, Eq)]
pub struct BinaryOption {
    /// The creator.
    pub deposit_auth: Identity,
    /// The taker; the creator stands here until the wager is matched.
    pub taker_auth: Identity,
    /// The winner, once the wager is settled.
    pub winner_auth: Option<Identity>,
    /// The vault that holds the stakes.
    pub sol_vault: Identity,
    pub bet_description: String,
    /// The creator's stake.
    pub bet_amount: u64,
    /// The stake that a taker has to deposit.
    pub taker_amount: u64,
    pub strike_price: u64,
    /// Set once a taker has joined.
    pub made_prediction: bool,
    /// What the winner may withdraw: zero until settlement.
    pub total_payout: u64,
    pub first_participant: ParticipantPosition,
    pub second_participant: ParticipantPosition,
    pub betting_state: BettingState,
}

/// The length in bytes of a description's UTF-8 encoding.
pub open spec fn description_len(d: Seq<char>) -> nat {
    encode_utf8(d).len()
}

impl BinaryOption {
    /// The record's invariant, which creation establishes and every other
    /// operation keeps.
    pub open spec fn wf(&self) -> bool {
        &&& 0 < description_len(self.bet_description@) <= DESCRIPTION_LENGTH
        &&& self.bet_amount > 0
        &&& self.taker_amount > 0
        &&& self.strike_price > 0
        &&& self.betting_state == BettingState::Created ==> {
            &&& !self.made_prediction
            &&& self.second_participant == ParticipantPosition::Unknown
            &&& self.taker_auth == self.deposit_auth
            &&& self.winner_auth is None
        }
        &&& self.betting_state == BettingState::Matched ==> {
            &&& self.made_prediction
            &&& opposed(self.first_participant, self.second_participant)
            &&& self.taker_auth != self.deposit_auth
        }
        &&& match self.winner_auth {
            Some(w) => {
                &&& self.betting_state == BettingState::Matched
                &&& (w == self.deposit_auth || w == self.taker_auth)
                &&& self.total_payout < self.bet_amount + self.taker_amount
            },
            None => self.total_payout == 0,
        }
    }

    /// The identity of one participant.
    pub open spec fn participant(&self, p: Participants) -> Identity {
        if p == Participants::First {
            self.deposit_auth
        } else {
            self.taker_auth
        }
    }

    /// The record after `taker` has matched it on `position`.
    pub open spec fn accepted(self, taker: Identity, position: ParticipantPosition) -> BinaryOption {
        BinaryOption {
            made_prediction: true,
            second_participant: position,
            taker_auth: taker,
            betting_state: BettingState::Matched,
            ..self
        }
    }

    /// The record after settlement in favour of `winner` with the fee `fee`.
    pub open spec fn settled(self, winner: Participants, fee: u64) -> BinaryOption {
        BinaryOption {
            winner_auth: Some(self.participant(winner)),
            total_payout: (self.bet_amount + self.taker_amount - fee) as u64,
            ..self
        }
    }
}

/// What the creation reads: the treasury record, the creator and the vault
/// that the new wager gets.
#[derive(Clone, Copy, Debug, PartialEq, Eq)]
pub struct CreateBinaryOptions {
    pub admin_deposit_account: DepositBaseAdmin,
    pub deposit_auth: Identity,
    pub sol_vault: Identity,
}

/// The first reason, if any, for which a creation is refused.
pub open spec fn create_error(
    ctx: CreateBinaryOptions,
    bet_description: Seq<char>,
    bet_amount: u64,
    strike_price: u64,
    taker_amount: u64,
) -> Option<Errors> {
    if !ctx.admin_deposit_account.is_initialized {
        Some(Errors::AccountNotInitialized)
    } else if description_len(bet_description) == 0 {
        Some(Errors::CannotCreateBetting)
    } else if description_len(bet_description) > DESCRIPTION_LENGTH {
        Some(Errors::ExceededDescriptionMaxLength)
    } else if bet_amount == 0 || strike_price == 0 || taker_amount == 0 {
        Some(Errors::AmountNotgreaterThanZero)
    } else {
        None
    }
}

/// The record that a creation makes.
pub open spec fn created_record(
    ctx: CreateBinaryOptions,
    bet_description: String,
    bet_amount: u64,
    strike_price: u64,
    taker_amount: u64,
    position: ParticipantPosition,
) -> BinaryOption {
    BinaryOption {
        deposit_auth: ctx.deposit_auth,
        taker_auth: ctx.deposit_auth,
        winner_auth: None,
        sol_vault: ctx.sol_vault,
        bet_description,
        bet_amount,
        taker_amount,
        strike_price,
        made_prediction: false,
        total_payout: 0,
        first_participant: position,
        second_participant: ParticipantPosition::Unknown,
        betting_state: BettingState::Created,
    }
}

/// Opens a wager: the creator stakes `bet_amount` on `position` against a
/// taker's `taker_amount`, with `strike_price` as the price to meet. On
/// success, returns the new record and the movement of the creator's stake
/// into the wager's vault.
pub fn create_binary_options(
    ctx: &CreateBinaryOptions,
    bet_description: String,
    bet_amount: u64,
    strike_price: u64,
    taker_amount: u64,
    participant_position: ParticipantPosition,
) -> (r: Result<(BinaryOption, Transfer), Errors>)
    ensures
        match create_error(*ctx, bet_description@, bet_amount, strike_price, taker_amount) {
            Some(e) => r == Err::<(BinaryOption, Transfer), Errors>(e),
            None => r == Ok::<(BinaryOption, Transfer), Errors>(
                (
                    created_record(
                        *ctx,
                        bet_description,
                        bet_amount,
                        strike_price,
                        taker_amount,
                        participant_position,
                    ),
                    Transfer { from: ctx.deposit_auth, to: ctx.sol_vault, amount: bet_amount },
                ),
            ),
        },
        r matches Ok((rec, _)) ==> rec.wf(),
{
    if !ctx.admin_deposit_account.is_initialized {
        return Err(Errors::AccountNotInitialized);
    }
    let len: usize = bet_description.as_str().as_bytes().len();
    if len == 0 {
        return Err(Errors::CannotCreateBetting);
    }
    if len > DESCRIPTION_LENGTH {
        return Err(Errors::ExceededDescriptionMaxLength);
    }
    if bet_amount == 0 || strike_price == 0 || taker_amount == 0 {
        return Err(Errors::AmountNotgreaterThanZero);
    }
    let record = BinaryOption {
        deposit_auth: ctx.deposit_auth,
        taker_auth: ctx.deposit_auth,
        winner_auth: None,
        sol_vault: ctx.sol_vault,
        bet_description,
        bet_amount,
        taker_amount,
        strike_price,
        made_prediction: false,
        total_payout: 0,
        first_participant: participant_position,
        second_participant: ParticipantPosition::Unknown,
        betting_state: BettingState::Created,
    };
    let transfer = Transfer { from: ctx.deposit_auth, to: ctx.sol_vault, amount: bet_amount };
    Ok((record, transfer))
}

/// What the matching reads and writes: the treasury record, the wager and
/// the taker.
#[derive(Clone, Debug, PartialEq, Eq)]
pub struct AcceptBinaryOptions {
    pub admin_deposit_account: DepositBaseAdmin,
    pub deposit_account: BinaryOption,
    pub deposit_auth: Identity,
}

/// The first reason, if any, for which a taker's match is refused.
pub open spec fn accept_error(
    ctx: AcceptBinaryOptions,
    amount: u64,
    position: ParticipantPosition,
) -> Option<Errors> {
    let rec = ctx.deposit_account;
    if !ctx.admin_deposit_account.is_initialized {
        Some(Errors::AccountNotInitialized)
    } else if rec.betting_state != BettingState::Created {
        Some(Errors::InvalidParticipantsLimit)
    } else if amount == 0 {
        Some(Errors::AmountNotgreaterThanZero)
    } else if amount != rec.taker_amount {
        Some(Errors::InvalidDepositAmount)
    } else if ctx.deposit_auth == rec.deposit_auth {
        Some(Errors::PredictionDisAllowed)
    } else if !opposed(rec.first_participant, position) {
        Some(Errors::PredictionCannotBeSame)
    } else {
        None
    }
}

/// A second party takes the other side of an open wager on `position`,
/// depositing `amount`, which must be exactly the stake asked of a taker.
/// On success the wager is matched and the deposit moves into its vault.
pub fn accept_binary_options(
    ctx: &mut AcceptBinaryOptions,
    amount: u64,
    participant_position: ParticipantPosition,
) -> (r: Result<Transfer, Errors>)
    ensures
        match accept_error(*old(ctx), amount, participant_position) {
            Some(e) => r == Err::<Transfer, Errors>(e) && *final(ctx) == *old(ctx),
            None => {
                &&& r == Ok::<Transfer, Errors>(
                    Transfer {
                        from: old(ctx).deposit_auth,
                        to: old(ctx).deposit_account.sol_vault,
                        amount,
                    },
                )
                &&& *final(ctx) == (AcceptBinaryOptions {
                    deposit_account: old(ctx).deposit_account.accepted(
                        old(ctx).deposit_auth,
                        participant_position,
                    ),
                    ..*old(ctx)
                })
            },
        },
        old(ctx).deposit_account.wf() ==> final(ctx).deposit_account.wf(),
{
    if !ctx.admin_deposit_account.is_initialized {
        return Err(Errors::AccountNotInitialized);
    }
    match ctx.deposit_account.betting_state {
        BettingState::Created => {},
        BettingState::Matched => {
            return Err(Errors::InvalidParticipantsLimit);
        },
    }
    if amount == 0 {
        return Err(Errors::AmountNotgreaterThanZero);
    }
    if amount != ctx.deposit_account.taker_amount {
        return Err(Errors::InvalidDepositAmount);
    }
    if ctx.deposit_account.deposit_auth.same(&ctx.deposit_auth) {
        return Err(Errors::PredictionDisAllowed);
    }
    if !positions_opposed(ctx.deposit_account.first_participant, participant_position) {
        return Err(Errors::PredictionCannotBeSame);
    }
    ctx.deposit_account.made_prediction = true;
    ctx.deposit_account.second_participant = participant_position;
    ctx.deposit_account.taker_auth = ctx.deposit_auth;
    ctx.deposit_account.betting_state = BettingState::Matched;
    Ok(Transfer { from: ctx.deposit_auth, to: ctx.deposit_account.sol_vault, amount })
}

/// What the settlement reads and writes: the wager, the treasury record, the
/// oracle's latest sample and the current time.
#[derive(Clone, Debug, PartialEq, Eq)]
pub struct ProcessPrediction {
    pub deposit_account: BinaryOption,
    pub admin_deposit_account: DepositBaseAdmin,
    pub pyth_price_feed_account: PriceSample,
    pub unix_timestamp: i64,
}

/// The first reason, if any, for which a settlement with fee `bet_fees` is
/// refused.
pub open spec fn settle_error(ctx: ProcessPrediction, bet_fees: u64) -> Option<Errors> {
    let rec = ctx.deposit_account;
    if !ctx.admin_deposit_account.is_initialized {
        Some(Errors::AccountNotInitialized)
    } else if bet_fees == 0 {
        Some(Errors::AmountNotgreaterThanZero)
    } else if !is_fresh(
        ctx.pyth_price_feed_account.publish_time,
        ctx.unix_timestamp,
        STALENESS_THRESHOLD,
    ) {
        Some(Errors::PythOffline)
    } else if !opposed(rec.first_participant, rec.second_participant) {
        Some(Errors::PredictionCannotBeSame)
    } else if rec.bet_amount + rec.taker_amount > u64::MAX {
        Some(Errors::Overflow)
    } else if rec.bet_amount + rec.taker_amount <= bet_fees {
        Some(Errors::InvalidWinningAmount)
    } else {
        None
    }
}

/// Who wins a wager given the oracle's sample: the creator when the price
/// meets the strike exactly, the taker in every other case.
pub open spec fn settlement_winner(rec: BinaryOption, sample: PriceSample) -> Participants {
    if price_hits_strike(rec.strike_price, sample.price, sample.expo) {
        Participants::First
    } else {
        Participants::Second
    }
}

/// Settles a matched wager against the oracle: records the winner and the
/// payout, the pooled stakes less `bet_fees`, and moves the fee from the
/// wager's vault to the treasury's fee vault.
pub fn process_prediction(
    ctx: &mut ProcessPrediction,
    bet_fees: u64,
) -> (r: Result<Transfer, Errors>)
    ensures
        match settle_error(*old(ctx), bet_fees) {
            Some(e) => r == Err::<Transfer, Errors>(e) && *final(ctx) == *old(ctx),
            None => {
                &&& r == Ok::<Transfer, Errors>(
                    Transfer {
                        from: old(ctx).deposit_account.sol_vault,
                        to: old(ctx).admin_deposit_account.admin_sol_vault,
                        amount: bet_fees,
                    },
                )
                &&& *final(ctx) == (ProcessPrediction {
                    deposit_account: old(ctx).deposit_account.settled(
                        settlement_winner(
                            old(ctx).deposit_account,
                            old(ctx).pyth_price_feed_account,
                        ),
                        bet_fees,
                    ),
                    ..*old(ctx)
                })
            },
        },
        old(ctx).deposit_account.wf() ==> final(ctx).deposit_account.wf(),
{
    if !ctx.admin_deposit_account.is_initialized {
        return Err(Errors::AccountNotInitialized);
    }
    if bet_fees == 0 {
        return Err(Errors::AmountNotgreaterThanZero);
    }
    let price = match ctx.pyth_price_feed_account.get_price_no_older_than(
        ctx.unix_timestamp,
        STALENESS_THRESHOLD,
    ) {
        Some(p) => p,
        None => {
            return Err(Errors::PythOffline);
        },
    };
    let rec = &ctx.deposit_account;
    if !positions_opposed(rec.first_participant, rec.second_participant) {
        return Err(Errors::PredictionCannotBeSame);
    }
    let pool: u64 = match rec.bet_amount.checked_add(rec.taker_amount) {
        Some(p) => p,
        None => {
            return Err(Errors::Overflow);
        },
    };
    if pool <= bet_fees {
        return Err(Errors::InvalidWinningAmount);
    }
    let total_payout: u64 = pool - bet_fees;
    let winner = if hits_strike(rec.strike_price, price.price, price.expo) {
        rec.deposit_auth
    } else {
        rec.taker_auth
    };
    ctx.deposit_account.winner_auth = Some(winner);
    ctx.deposit_account.total_payout = total_payout;
    Ok(Transfer {
        from: ctx.deposit_account.sol_vault,
        to: ctx.admin_deposit_account.admin_sol_vault,
        amount: bet_fees,
    })
}

/// What the participant's withdrawal reads: the wager and the caller.
#[derive(Clone, Debug, PartialEq, Eq)]
pub struct WithdrawParticipantFunds {
    pub deposit_account: BinaryOption,
    pub deposit_auth: Identity,
}

/// The first reason, if any, for which a participant's withdrawal of
/// `amount` is refused.
pub open spec fn payout_error(ctx: WithdrawParticipantFunds, amount: u64) -> Option<Errors> {
    let rec = ctx.deposit_account;
    if amount == 0 {
        Some(Errors::AmountNotgreaterThanZero)
    } else if ctx.deposit_auth != rec.deposit_auth && ctx.deposit_auth != rec.taker_auth {
        Some(Errors::WithdrawalDisAllowed)
    } else if !rec.made_prediction {
        Some(Errors::InvalidPrediction)
    } else if rec.winner_auth != Some(ctx.deposit_auth) {
        Some(Errors::InvalidWinner)
    } else if amount != rec.total_payout {
        Some(Errors::AmountNotEqualToTotalPayoutAmount)
    } else {
        None
    }
}

/// The winner of a settled wager takes out the payout: `amount` must be
/// exactly the recorded payout. Nothing records that the payout was made.
pub fn withdraw_participant_funds(
    ctx: &WithdrawParticipantFunds,
    amount: u64,
) -> (r: Result<Transfer, Errors>)
    ensures
        match payout_error(*ctx, amount) {
            Some(e) => r == Err::<Transfer, Errors>(e),
            None => r == Ok::<Transfer, Errors>(
                Transfer { from: ctx.deposit_account.sol_vault, to: ctx.deposit_auth, amount },
            ),
        },
{
    if amount == 0 {
        return Err(Errors::AmountNotgreaterThanZero);
    }
    let rec = &ctx.deposit_account;
    if !rec.deposit_auth.same(&ctx.deposit_auth) && !rec.taker_auth.same(&ctx.deposit_auth) {
        return Err(Errors::WithdrawalDisAllowed);
    }
    if !rec.made_prediction {
        return Err(Errors::InvalidPrediction);
    }
    let is_winner = match rec.winner_auth {
        Some(w) => w.same(&ctx.deposit_auth),
        None => false,
    };
    if !is_winner {
        return Err(Errors::InvalidWinner);
    }
    if amount != rec.total_payout {
        return Err(Errors::AmountNotEqualToTotalPayoutAmount);
    }
    Ok(Transfer { from: rec.sol_vault, to: ctx.deposit_auth, amount })
}

} // verus!
