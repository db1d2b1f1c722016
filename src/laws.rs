//! Laws of the escrow operations, stated over the conditions that their
//! contracts name. An operation whose condition is `Some` returns that error,
//! leaves every record as it was and asks for no value movement.

use vstd::prelude::*;
use crate::escrow::{
    accept_error, create_error, description_len, payout_error, settle_error, AcceptBinaryOptions,
    CreateBinaryOptions, ProcessPrediction, WithdrawParticipantFunds, DESCRIPTION_LENGTH,
};
use crate::oracle::{sample_age, STALENESS_THRESHOLD};
use crate::position::ParticipantPosition;
use crate::treasury::{withdraw_error, Withdraw};

verus! {

/// A wager with a zero stake, a zero strike price, a zero counter-stake or a
/// description over the length limit is never created.
pub proof fn lemma_create_rejects_invalid(
    ctx: CreateBinaryOptions,
    bet_description: Seq<char>,
    bet_amount: u64,
    strike_price: u64,
    taker_amount: u64,
)
    requires
        bet_amount == 0 || strike_price == 0 || taker_amount == 0 || description_len(
            bet_description,
        ) > DESCRIPTION_LENGTH,
    ensures
        create_error(ctx, bet_description, bet_amount, strike_price, taker_amount) is Some,
{
}

/// A match is refused when the deposit differs from the stake asked of the
/// taker, when the taker is the creator, or when the taker picks the
/// creator's own position.
pub proof fn lemma_accept_rejects_invalid(
    ctx: AcceptBinaryOptions,
    amount: u64,
    position: ParticipantPosition,
)
    requires
        amount != ctx.deposit_account.taker_amount || ctx.deposit_auth
            == ctx.deposit_account.deposit_auth || position == ctx.deposit_account.first_participant,
    ensures
        accept_error(ctx, amount, position) is Some,
{
}

/// A settlement against a sample more than the staleness threshold away from
/// the current time is refused.
pub proof fn lemma_settle_rejects_stale(ctx: ProcessPrediction, bet_fees: u64)
    requires
        sample_age(ctx.pyth_price_feed_account.publish_time, ctx.unix_timestamp)
            > STALENESS_THRESHOLD,
    ensures
        settle_error(ctx, bet_fees) is Some,
{
}

/// A settlement whose fee would take the whole pool of both stakes, or more,
/// is refused.
pub proof fn lemma_settle_rejects_fee_over_pool(ctx: ProcessPrediction, bet_fees: u64)
    requires
        bet_fees >= ctx.deposit_account.bet_amount + ctx.deposit_account.taker_amount,
    ensures
        settle_error(ctx, bet_fees) is Some,
{
}

/// A participant's withdrawal goes through only for the recorded winner and
/// for exactly the recorded payout.
pub proof fn lemma_payout_only_exact_to_winner(ctx: WithdrawParticipantFunds, amount: u64)
    requires
        amount != ctx.deposit_account.total_payout || ctx.deposit_account.winner_auth != Some(
            ctx.deposit_auth,
        ),
    ensures
        payout_error(ctx, amount) is Some,
{
}

/// Nobody but the treasury authority withdraws from the fee vault, whatever
/// the amount.
pub proof fn lemma_treasury_withdraw_only_authority(ctx: Withdraw)
    requires
        ctx.admin_auth != ctx.admin_deposit_account.admin_auth,
    ensures
        withdraw_error(ctx) is Some,
{
}

} // verus!
