use binary_options::escrow::DESCRIPTION_LENGTH;
use binary_options::oracle::{hits_strike, STALENESS_THRESHOLD};
use binary_options::{
    accept_binary_options, create_binary_options, initialize, process_prediction, withdraw,
    withdraw_participant_funds, AcceptBinaryOptions, BettingState, BinaryOption,
    CreateBinaryOptions, DepositBaseAdmin, Errors, Identity, Initialize, ParticipantPosition,
    PriceSample, ProcessPrediction, Transfer, Withdraw, WithdrawParticipantFunds,
};

fn id(b: u8) -> Identity {
    Identity::new([b; 32])
}

const NOW: i64 = 1_700_000_000;

fn treasury() -> DepositBaseAdmin {
    let mut ctx = Initialize {
        admin_deposit_account: DepositBaseAdmin::uninitialized(),
        admin_auth: id(9),
        admin_sol_vault: id(8),
    };
    initialize(&mut ctx).unwrap();
    ctx.admin_deposit_account
}

fn create(bet: u64, strike: u64, taker: u64, pos: ParticipantPosition) -> Result<(BinaryOption, Transfer), Errors> {
    let ctx = CreateBinaryOptions { admin_deposit_account: treasury(), deposit_auth: id(1), sol_vault: id(5) };
    create_binary_options(&ctx, "btc at strike".to_string(), bet, strike, taker, pos)
}

fn matched(bet: u64, strike: u64, taker: u64) -> BinaryOption {
    let (rec, _) = create(bet, strike, taker, ParticipantPosition::Long).unwrap();
    let mut ctx = AcceptBinaryOptions { admin_deposit_account: treasury(), deposit_account: rec, deposit_auth: id(2) };
    accept_binary_options(&mut ctx, taker, ParticipantPosition::Short).unwrap();
    ctx.deposit_account
}

fn settle_ctx(rec: BinaryOption, price: i64, expo: i32, publish_time: i64) -> ProcessPrediction {
    ProcessPrediction {
        deposit_account: rec,
        admin_deposit_account: treasury(),
        pyth_price_feed_account: PriceSample { price, expo, publish_time },
        unix_timestamp: NOW,
    }
}

#[test]
fn creation_records_wager_and_moves_stake() {
    let (rec, t) = create(1000, 50000, 1000, ParticipantPosition::Long).unwrap();
    assert_eq!(t, Transfer { from: id(1), to: id(5), amount: 1000 });
    assert_eq!(rec.deposit_auth, id(1));
    assert_eq!(rec.taker_auth, id(1));
    assert_eq!(rec.winner_auth, None);
    assert_eq!(rec.betting_state, BettingState::Created);
    assert!(!rec.made_prediction);
    assert_eq!(rec.total_payout, 0);
    assert_eq!(rec.second_participant, ParticipantPosition::Unknown);
}

#[test]
fn creation_rejects_zero_amounts() {
    assert_eq!(create(0, 50000, 1000, ParticipantPosition::Long), Err(Errors::AmountNotgreaterThanZero));
    assert_eq!(create(1000, 0, 1000, ParticipantPosition::Long), Err(Errors::AmountNotgreaterThanZero));
    assert_eq!(create(1000, 50000, 0, ParticipantPosition::Long), Err(Errors::AmountNotgreaterThanZero));
}

#[test]
fn creation_checks_description_length_in_bytes() {
    let ctx = CreateBinaryOptions { admin_deposit_account: treasury(), deposit_auth: id(1), sol_vault: id(5) };
    let at_limit = "a".repeat(DESCRIPTION_LENGTH);
    assert!(create_binary_options(&ctx, at_limit, 1, 1, 1, ParticipantPosition::Short).is_ok());
    let over = "a".repeat(DESCRIPTION_LENGTH + 1);
    assert_eq!(
        create_binary_options(&ctx, over, 1, 1, 1, ParticipantPosition::Short),
        Err(Errors::ExceededDescriptionMaxLength)
    );
    // 21 two-byte characters: 21 characters, 42 bytes.
    let wide = "é".repeat(21);
    assert_eq!(
        create_binary_options(&ctx, wide, 1, 1, 1, ParticipantPosition::Short),
        Err(Errors::ExceededDescriptionMaxLength)
    );
    assert_eq!(
        create_binary_options(&ctx, String::new(), 1, 1, 1, ParticipantPosition::Short),
        Err(Errors::CannotCreateBetting)
    );
}

#[test]
fn creation_needs_initialized_treasury() {
    let ctx = CreateBinaryOptions {
        admin_deposit_account: DepositBaseAdmin::uninitialized(),
        deposit_auth: id(1),
        sol_vault: id(5),
    };
    assert_eq!(
        create_binary_options(&ctx, "x".to_string(), 1, 1, 1, ParticipantPosition::Long),
        Err(Errors::AccountNotInitialized)
    );
}

#[test]
fn treasury_initializes_once() {
    let mut ctx = Initialize {
        admin_deposit_account: DepositBaseAdmin::uninitialized(),
        admin_auth: id(9),
        admin_sol_vault: id(8),
    };
    assert_eq!(initialize(&mut ctx), Ok(()));
    assert!(ctx.admin_deposit_account.is_initialized);
    assert_eq!(ctx.admin_deposit_account.admin_auth, id(9));
    assert_eq!(ctx.admin_deposit_account.admin_sol_vault, id(8));
    let before = ctx;
    ctx.admin_auth = id(7);
    assert_eq!(initialize(&mut ctx), Err(Errors::AccountAlreadyInitialized));
    assert_eq!(ctx.admin_deposit_account, before.admin_deposit_account);
}

#[test]
fn matching_rejects_bad_requests() {
    let (rec, _) = create(1000, 50000, 1000, ParticipantPosition::Long).unwrap();
    let base = AcceptBinaryOptions { admin_deposit_account: treasury(), deposit_account: rec, deposit_auth: id(2) };

    let mut ctx = base.clone();
    assert_eq!(accept_binary_options(&mut ctx, 999, ParticipantPosition::Short), Err(Errors::InvalidDepositAmount));
    assert_eq!(accept_binary_options(&mut ctx, 1001, ParticipantPosition::Short), Err(Errors::InvalidDepositAmount));
    assert_eq!(accept_binary_options(&mut ctx, 0, ParticipantPosition::Short), Err(Errors::AmountNotgreaterThanZero));
    assert_eq!(accept_binary_options(&mut ctx, 1000, ParticipantPosition::Long), Err(Errors::PredictionCannotBeSame));
    assert_eq!(accept_binary_options(&mut ctx, 1000, ParticipantPosition::Unknown), Err(Errors::PredictionCannotBeSame));
    assert_eq!(ctx, base);

    let mut own = base.clone();
    own.deposit_auth = id(1);
    assert_eq!(accept_binary_options(&mut own, 1000, ParticipantPosition::Short), Err(Errors::PredictionDisAllowed));

    let mut uninit = base.clone();
    uninit.admin_deposit_account = DepositBaseAdmin::uninitialized();
    assert_eq!(accept_binary_options(&mut uninit, 1000, ParticipantPosition::Short), Err(Errors::AccountNotInitialized));
}

#[test]
fn matching_records_taker_once() {
    let (rec, _) = create(1000, 50000, 700, ParticipantPosition::Short).unwrap();
    let mut ctx = AcceptBinaryOptions { admin_deposit_account: treasury(), deposit_account: rec, deposit_auth: id(2) };
    let t = accept_binary_options(&mut ctx, 700, ParticipantPosition::Long).unwrap();
    assert_eq!(t, Transfer { from: id(2), to: id(5), amount: 700 });
    assert_eq!(ctx.deposit_account.taker_auth, id(2));
    assert_eq!(ctx.deposit_account.second_participant, ParticipantPosition::Long);
    assert_eq!(ctx.deposit_account.betting_state, BettingState::Matched);
    assert!(ctx.deposit_account.made_prediction);
    ctx.deposit_auth = id(3);
    assert_eq!(accept_binary_options(&mut ctx, 700, ParticipantPosition::Long), Err(Errors::InvalidParticipantsLimit));
}

#[test]
fn settlement_rejects_stale_sample_and_keeps_state() {
    let rec = matched(1000, 100, 1000);
    let limit = STALENESS_THRESHOLD as i64;
    let mut ctx = settle_ctx(rec.clone(), 100, 0, NOW - limit - 1);
    let before = ctx.clone();
    assert_eq!(process_prediction(&mut ctx, 20), Err(Errors::PythOffline));
    assert_eq!(ctx, before);
    let mut future = settle_ctx(rec.clone(), 100, 0, NOW + limit + 1);
    assert_eq!(process_prediction(&mut future, 20), Err(Errors::PythOffline));
    let mut edge = settle_ctx(rec, 100, 0, NOW - limit);
    assert!(process_prediction(&mut edge, 20).is_ok());
}

#[test]
fn settlement_rejects_fee_at_or_over_pool() {
    let rec = matched(1000, 100, 1000);
    let mut ctx = settle_ctx(rec.clone(), 100, 0, NOW);
    assert_eq!(process_prediction(&mut ctx, 2000), Err(Errors::InvalidWinningAmount));
    assert_eq!(process_prediction(&mut ctx, 2001), Err(Errors::InvalidWinningAmount));
    assert_eq!(process_prediction(&mut ctx, 0), Err(Errors::AmountNotgreaterThanZero));
    assert_eq!(ctx.deposit_account, rec);
    assert_eq!(process_prediction(&mut ctx, 1999), Ok(Transfer { from: id(5), to: id(8), amount: 1999 }));
    assert_eq!(ctx.deposit_account.total_payout, 1);
}

#[test]
fn settlement_reports_pool_overflow() {
    let rec = matched(u64::MAX, 100, 1);
    let mut ctx = settle_ctx(rec, 100, 0, NOW);
    assert_eq!(process_prediction(&mut ctx, 1), Err(Errors::Overflow));
}

#[test]
fn settlement_of_unmatched_wager_is_refused() {
    let (rec, _) = create(1000, 100, 1000, ParticipantPosition::Long).unwrap();
    let mut ctx = settle_ctx(rec, 100, 0, NOW);
    assert_eq!(process_prediction(&mut ctx, 20), Err(Errors::PredictionCannotBeSame));
}

fn winner_at(price: i64, expo: i32) -> Identity {
    let mut ctx = settle_ctx(matched(1000, 100, 1000), price, expo, NOW);
    process_prediction(&mut ctx, 10).unwrap();
    ctx.deposit_account.winner_auth.unwrap()
}

#[test]
fn settlement_exact_strike_creator_wins() {
    assert_eq!(winner_at(100, 0), id(1));
    assert_eq!(winner_at(10000, -2), id(1));
    assert_eq!(winner_at(10, 1), id(1));
    assert_eq!(winner_at(99, 0), id(2));
    assert_eq!(winner_at(101, 0), id(2));
    assert_eq!(winner_at(0, 0), id(2));
    assert_eq!(winner_at(-100, 0), id(2));
}

#[test]
fn strike_test_truncates_toward_zero() {
    assert!(hits_strike(100, 10099, -2));
    assert!(!hits_strike(100, 9999, -2));
    assert!(hits_strike(50000, 5_000_012_345_678, -8));
    assert!(!hits_strike(1, 5, -1));
    assert!(!hits_strike(u64::MAX, i64::MAX, i32::MAX));
    assert!(!hits_strike(1, 1, i32::MIN));
    assert!(hits_strike(10_000_000_000_000_000_000, 1, 19));
}

#[test]
fn withdrawal_requires_winner_and_exact_payout() {
    let mut s = settle_ctx(matched(500, 100, 300), 100, 0, NOW);
    process_prediction(&mut s, 50).unwrap();
    let rec = s.deposit_account;
    assert_eq!(rec.total_payout, 750);
    let winner = WithdrawParticipantFunds { deposit_account: rec.clone(), deposit_auth: id(1) };
    assert_eq!(withdraw_participant_funds(&winner, 749), Err(Errors::AmountNotEqualToTotalPayoutAmount));
    assert_eq!(withdraw_participant_funds(&winner, 751), Err(Errors::AmountNotEqualToTotalPayoutAmount));
    assert_eq!(withdraw_participant_funds(&winner, 0), Err(Errors::AmountNotgreaterThanZero));
    assert_eq!(withdraw_participant_funds(&winner, 750), Ok(Transfer { from: id(5), to: id(1), amount: 750 }));
    let loser = WithdrawParticipantFunds { deposit_account: rec.clone(), deposit_auth: id(2) };
    assert_eq!(withdraw_participant_funds(&loser, 750), Err(Errors::InvalidWinner));
    let stranger = WithdrawParticipantFunds { deposit_account: rec, deposit_auth: id(3) };
    assert_eq!(withdraw_participant_funds(&stranger, 750), Err(Errors::WithdrawalDisAllowed));
}

#[test]
fn withdrawal_before_match_or_settlement_fails() {
    let (rec, _) = create(1000, 100, 1000, ParticipantPosition::Long).unwrap();
    let early = WithdrawParticipantFunds { deposit_account: rec, deposit_auth: id(1) };
    assert_eq!(withdraw_participant_funds(&early, 1), Err(Errors::InvalidPrediction));
    let unsettled = WithdrawParticipantFunds { deposit_account: matched(1000, 100, 1000), deposit_auth: id(2) };
    assert_eq!(withdraw_participant_funds(&unsettled, 1), Err(Errors::InvalidWinner));
}

#[test]
fn end_to_end_creator_wins_at_strike() {
    let (rec, t) = create(1000, 50000, 1000, ParticipantPosition::Long).unwrap();
    assert_eq!(t.amount, 1000);
    let mut acc = AcceptBinaryOptions { admin_deposit_account: treasury(), deposit_account: rec, deposit_auth: id(2) };
    let t = accept_binary_options(&mut acc, 1000, ParticipantPosition::Short).unwrap();
    assert_eq!(t, Transfer { from: id(2), to: id(5), amount: 1000 });
    let mut s = settle_ctx(acc.deposit_account, 5_000_000_000_000, -8, NOW - 60);
    let fee = process_prediction(&mut s, 20).unwrap();
    assert_eq!(fee, Transfer { from: id(5), to: id(8), amount: 20 });
    let rec = s.deposit_account;
    assert_eq!(rec.winner_auth, Some(id(1)));
    assert_eq!(rec.total_payout, 1980);
    assert_eq!(rec.betting_state, BettingState::Matched);

    let creator = WithdrawParticipantFunds { deposit_account: rec.clone(), deposit_auth: id(1) };
    assert_eq!(withdraw_participant_funds(&creator, 1980), Ok(Transfer { from: id(5), to: id(1), amount: 1980 }));
    let taker = WithdrawParticipantFunds { deposit_account: rec.clone(), deposit_auth: id(2) };
    assert_eq!(withdraw_participant_funds(&taker, 1980), Err(Errors::InvalidWinner));
    // Nothing records the first payout, so a second identical request passes
    // validation again; only the vault's balance stands in its way.
    assert_eq!(withdraw_participant_funds(&creator, 1980), Ok(Transfer { from: id(5), to: id(1), amount: 1980 }));
}

#[test]
fn treasury_withdrawal_only_by_authority() {
    let admin = treasury();
    for amount in [0u64, 1, 20, u64::MAX] {
        let other = Withdraw { admin_deposit_account: admin, admin_auth: id(1) };
        assert_eq!(withdraw(&other, amount), Err(Errors::Unauthorized));
    }
    let owner = Withdraw { admin_deposit_account: admin, admin_auth: id(9) };
    assert_eq!(withdraw(&owner, 20), Ok(Transfer { from: id(8), to: id(9), amount: 20 }));
    let uninit = Withdraw { admin_deposit_account: DepositBaseAdmin::uninitialized(), admin_auth: id(9) };
    assert_eq!(withdraw(&uninit, 20), Err(Errors::AccountNotInitialized));
}

#[test]
fn identities_compare_by_every_byte() {
    let mut b = [3u8; 32];
    assert!(Identity::new(b).same(&Identity::new(b)));
    b[31] = 4;
    assert!(!Identity::new([3u8; 32]).same(&Identity::new(b)));
    assert!(Identity::zeroed().same(&Identity::new([0u8; 32])));
}

#[test]
fn price_freshness_window() {
    let s = PriceSample { price: 7, expo: -1, publish_time: 1000 };
    assert!(s.get_price_no_older_than(2800, 1800).is_some());
    assert!(s.get_price_no_older_than(2801, 1800).is_none());
    assert!(s.get_price_no_older_than(i64::MIN, 1800).is_none());
    let p = s.get_price_no_older_than(1000, 0).unwrap();
    assert_eq!((p.price, p.expo), (7, -1));
}
