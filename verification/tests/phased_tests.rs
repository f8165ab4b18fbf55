use streamswap::error::{ContractError, PaymentError, ThresholdError};
use streamswap::lifecycle::{
    sync_stream_status, Params, PoolConfig, PostStreamActions, Status, StreamInfo, StreamState,
    VestingConfig, VestingSchedule,
};
use streamswap::math::{Decimal, WideDecimal};
use streamswap::phased::{
    compute_shares_amount, execute_cancel_stream, execute_cancel_stream_with_threshold,
    execute_exit_cancelled, execute_exit_stream, execute_finalize_stream,
    execute_stream_admin_cancel, execute_subscribe, execute_sync_position, execute_sync_stream,
    execute_withdraw, instantiate, Position,
};
use streamswap::state::{BankSend, Coin};

fn secs(s: u64) -> u64 {
    s * 1_000_000_000
}

fn coin(amount: u128, denom: &str) -> Coin {
    Coin { denom: denom.to_string(), amount }
}

fn send(to: &str, denom: &str, amount: u128) -> BankSend {
    BankSend { to_address: to.to_string(), denom: denom.to_string(), amount }
}

fn not_allowed(status: &str) -> ContractError {
    ContractError::OperationNotAllowed { current_status: status.to_string() }
}

fn params() -> Params {
    Params {
        protocol_admin: "admin".to_string(),
        fee_collector: "collector".to_string(),
        stream_creation_fee: coin(100, "fee"),
        exit_fee_percent: Decimal::percent(1),
        stream_contract_code_id: 1,
        vesting_code_id: 2,
        accepted_in_denoms: vec!["in".to_string()],
        min_stream_duration: 100,
        min_bootstrapping_duration: 50,
        min_waiting_duration: 50,
    }
}

/// A stream selling 1000 "out": bootstrapping from 100 s, active from 200 s to 1200 s.
fn new_stream(
    threshold: Option<u128>,
    pool_config: Option<PoolConfig>,
    vesting: Option<VestingConfig>,
) -> (StreamState, StreamInfo, PostStreamActions) {
    instantiate(
        secs(0),
        &params(),
        "treasury".to_string(),
        "stream_admin".to_string(),
        "phased stream".to_string(),
        Some("https://sample.url".to_string()),
        coin(1000, "out"),
        "in".to_string(),
        secs(100),
        secs(200),
        secs(1200),
        threshold,
        pool_config,
        vesting,
        None,
    )
    .unwrap()
}

/// Alice subscribes 1000 while bootstrapping, Bob 1000 half way through the active period.
fn with_two_subscribers(threshold: Option<u128>) -> (StreamState, StreamInfo, PostStreamActions, Position, Position) {
    let (stream, info, post) = new_stream(threshold, None, None);
    let (stream, alice, _) = execute_subscribe(
        stream,
        None,
        secs(150),
        &"alice".to_string(),
        &vec![coin(1000, "in")],
    )
    .unwrap();
    let (stream, bob, _) =
        execute_subscribe(stream, None, secs(700), &"bob".to_string(), &vec![coin(1000, "in")])
            .unwrap();
    (stream, info, post, alice, bob)
}

#[test]
fn instantiate_checks_times_denoms_and_threshold() {
    let p = params();
    let attempt = |boot: u64, start: u64, end: u64, out: &str, threshold: Option<u128>| {
        instantiate(
            secs(0), &p, "treasury".to_string(), "admin".to_string(), "name".to_string(), None,
            coin(1000, out), "in".to_string(), secs(boot), secs(start), secs(end), threshold,
            None, None, None,
        )
    };
    assert_eq!(attempt(100, 90, 1200, "out", None).err(), Some(ContractError::StreamInvalidBootstrappingStartTime));
    assert_eq!(attempt(100, 200, 150, "out", None).err(), Some(ContractError::StreamInvalidEndTime));
    assert_eq!(attempt(100, 200, 250, "out", None).err(), Some(ContractError::StreamDurationTooShort));
    assert_eq!(attempt(100, 120, 1200, "out", None).err(), Some(ContractError::StreamBootstrappingDurationTooShort));
    assert_eq!(attempt(10, 200, 1200, "out", None).err(), Some(ContractError::StreamWaitingDurationTooShort));
    assert_eq!(attempt(100, 200, 1200, "in", None).err(), Some(ContractError::SameDenomOnEachSide));
    assert_eq!(
        attempt(100, 200, 1200, "out", Some(0)).err(),
        Some(ContractError::ThresholdError(ThresholdError::ThresholdZero))
    );
    let (stream, info, post) = attempt(100, 200, 1200, "out", Some(5)).unwrap();
    assert_eq!(stream.status_info.status, Status::Waiting);
    assert_eq!(stream.out_remaining, 1000);
    assert_eq!(stream.threshold, Some(5));
    assert_eq!(info.treasury, "treasury");
    assert_eq!(post.pool_config, None);
}

#[test]
fn phases_follow_the_clock() {
    let (mut stream, _, _) = new_stream(None, None, None);
    sync_stream_status(&mut stream, secs(50));
    assert!(stream.is_waiting());
    sync_stream_status(&mut stream, secs(150));
    assert!(stream.is_bootstrapping());
    sync_stream_status(&mut stream, secs(200));
    assert!(stream.is_active());
    sync_stream_status(&mut stream, secs(1200));
    assert!(stream.is_ended());
    assert_eq!(stream.status_info.status.to_display_string(), "Ended");
}

#[test]
fn subscriptions_only_while_bootstrapping_or_active() {
    let (stream, _, _) = new_stream(None, None, None);
    let res = execute_subscribe(stream.clone(), None, secs(50), &"alice".to_string(), &vec![coin(10, "in")]);
    assert_eq!(res.err(), Some(not_allowed("Waiting")));
    let res = execute_subscribe(stream.clone(), None, secs(1300), &"alice".to_string(), &vec![coin(10, "in")]);
    assert_eq!(res.err(), Some(not_allowed("Ended")));
    let res = execute_subscribe(stream.clone(), None, secs(150), &"alice".to_string(), &vec![]);
    assert_eq!(res.err(), Some(ContractError::Payment(PaymentError::NoFunds)));
    let res = execute_subscribe(stream.clone(), None, secs(150), &"alice".to_string(), &vec![coin(10, "out")]);
    assert_eq!(res.err(), Some(ContractError::Payment(PaymentError::MissingDenom("in".to_string()))));
}

#[test]
fn bootstrapping_spends_nothing_and_activity_spends_linearly() {
    let (stream, _, _, alice, bob) = with_two_subscribers(None);
    // While bootstrapping alice's deposit is not spent; half the active period spends half of it.
    assert_eq!(alice.in_balance, 1000);
    assert_eq!(alice.shares, 1000);
    assert_eq!(alice.last_updated, secs(150));
    assert_eq!(stream.spent_in, 500);
    assert_eq!(stream.out_remaining, 500);
    assert_eq!(stream.dist_index, WideDecimal::raw(500_000_000_000_000_000));
    assert_eq!(stream.current_streamed_price, WideDecimal::raw(1_000_000_000_000_000_000));
    // Bob's 1000 buy shares at 2 per unspent in token.
    assert_eq!(bob.shares, 2000);
    assert_eq!(bob.index, WideDecimal::raw(500_000_000_000_000_000));
    assert_eq!(stream.in_supply, 1500);
    assert_eq!(stream.shares, 3000);
    assert_eq!(stream.spent_in + stream.in_supply, 2000);
}

#[test]
fn sync_position_counts_purchases_and_spending() {
    let (stream, _, _, alice, _) = with_two_subscribers(None);
    let (stream, alice, purchased, spent) = execute_sync_position(stream, alice, secs(700)).unwrap();
    assert_eq!(purchased, 500);
    assert_eq!(spent, 500);
    assert_eq!(alice.purchased, 500);
    assert_eq!(alice.in_balance, 500);
    assert_eq!(alice.last_updated, secs(700));
    assert_eq!(stream.spent_in, 500);
}

#[test]
fn withdraw_returns_unspent_tokens() {
    let (stream, _, _, _, bob) = with_two_subscribers(None);
    let res = execute_withdraw(stream.clone(), bob.clone(), secs(700), &"bob".to_string(), Some(0));
    assert_eq!(res.err(), Some(ContractError::InvalidWithdrawAmount));
    let res = execute_withdraw(stream.clone(), bob.clone(), secs(700), &"bob".to_string(), Some(1001));
    assert_eq!(res.err(), Some(ContractError::WithdrawAmountExceedsBalance(1001)));
    let out = execute_withdraw(stream.clone(), bob.clone(), secs(700), &"bob".to_string(), Some(400)).unwrap();
    assert_eq!(out.amount, 400);
    assert_eq!(out.message, send("bob", "in", 400));
    // 400 of 1500 unspent are worth 800 of 3000 shares.
    assert_eq!(out.position.shares, 1200);
    assert_eq!(out.position.in_balance, 600);
    assert_eq!(out.stream.in_supply, 1100);
    assert_eq!(out.stream.shares, 2200);
    let res = execute_withdraw(stream, bob, secs(1300), &"bob".to_string(), None);
    assert_eq!(res.err(), Some(not_allowed("Ended")));
}

#[test]
fn exit_pays_purchases_once() {
    let (stream, _, post, alice, bob) = with_two_subscribers(None);
    let p = params();
    let res = execute_exit_stream(stream.clone(), alice.clone(), &post, &p, secs(1000), &"alice".to_string(), false);
    assert_eq!(res.err(), Some(not_allowed("Active")));

    let out = execute_exit_stream(stream, alice, &post, &p, secs(1300), &"alice".to_string(), false).unwrap();
    assert_eq!(out.messages, vec![send("alice", "out", 666)]);
    assert_eq!(out.swap_fee, 10);
    assert_eq!(out.position.spent, 1000);
    assert_eq!(out.position.exit_date, secs(1300));
    assert_eq!(out.stream.shares, 2000);
    assert_eq!(out.stream.dist_index, WideDecimal::raw(666_666_666_666_666_666));

    let again = execute_exit_stream(out.stream.clone(), out.position.clone(), &post, &p, secs(1400), &"alice".to_string(), false);
    assert_eq!(again.err(), Some(ContractError::SubscriberAlreadyExited));

    let out = execute_exit_stream(out.stream, bob, &post, &p, secs(1400), &"bob".to_string(), false).unwrap();
    assert_eq!(out.messages, vec![send("bob", "out", 333)]);
    assert_eq!(out.stream.shares, 0);
}

#[test]
fn exit_with_vesting_needs_a_salt() {
    let vesting = VestingConfig {
        schedule: VestingSchedule::SaturatingLinear,
        vesting_duration_seconds: 100,
        unbonding_duration_seconds: 0,
    };
    let (stream, _, post) = new_stream(None, None, Some(vesting));
    let (stream, alice, _) =
        execute_subscribe(stream, None, secs(150), &"alice".to_string(), &vec![coin(1000, "in")]).unwrap();
    let p = params();
    let res = execute_exit_stream(stream.clone(), alice.clone(), &post, &p, secs(1300), &"alice".to_string(), false);
    assert_eq!(res.err(), Some(ContractError::InvalidSalt));
    let out = execute_exit_stream(stream, alice, &post, &p, secs(1300), &"alice".to_string(), true).unwrap();
    // The purchased out tokens go to the vesting; nothing is left unspent.
    assert!(out.messages.is_empty());
    assert_eq!(out.position.purchased, 1000);
}

#[test]
fn finalize_splits_the_revenue() {
    let (stream, info, post, _, _) = with_two_subscribers(None);
    let p = params();
    let res = execute_finalize_stream(stream.clone(), &info, &post, &p, secs(1300), &"random".to_string(), None, false);
    assert_eq!(res.err(), Some(ContractError::Unauthorized));
    let res = execute_finalize_stream(stream.clone(), &info, &post, &p, secs(1000), &"stream_admin".to_string(), None, false);
    assert_eq!(res.err(), Some(not_allowed("Active")));
    let res = execute_finalize_stream(stream.clone(), &info, &post, &p, secs(1300), &"stream_admin".to_string(), None, true);
    assert_eq!(res.err(), Some(ContractError::InvalidPoolConfig));

    let out = execute_finalize_stream(stream, &info, &post, &p, secs(1300), &"stream_admin".to_string(), None, false).unwrap();
    assert_eq!(out.stream.status_info.status, Status::Finalized);
    assert_eq!(out.swap_fee, 20);
    assert_eq!(out.creator_revenue, 1980);
    assert_eq!(out.total_sold, 1000);
    assert_eq!(out.refund, None);
    assert_eq!(out.pool, None);
    assert_eq!(out.revenue_message, send("treasury", "in", 1980));
    assert_eq!(out.fee_message, send("collector", "in", 20));

    let again = execute_finalize_stream(out.stream, &info, &post, &p, secs(1400), &"stream_admin".to_string(), None, false);
    assert_eq!(again.err(), Some(not_allowed("Finalized")));
}

#[test]
fn finalize_feeds_the_pool() {
    let (stream, info, post) = new_stream(None, Some(PoolConfig::ConcentratedLiquidity { out_amount_clp: 100 }), None);
    let (stream, _, _) =
        execute_subscribe(stream, None, secs(150), &"alice".to_string(), &vec![coin(2000, "in")]).unwrap();
    let p = params();
    let res = execute_finalize_stream(stream.clone(), &info, &post, &p, secs(1300), &"stream_admin".to_string(), None, false);
    assert_eq!(res.err(), Some(ContractError::InvalidPoolConfig));
    let out = execute_finalize_stream(stream, &info, &post, &p, secs(1300), &"stream_admin".to_string(), Some("new_treasury".to_string()), true).unwrap();
    // The pool gets a tenth of the revenue, as its 100 out tokens are a tenth of the 1000 sold.
    assert_eq!(out.pool, Some((198, 100)));
    assert_eq!(out.creator_revenue, 1782);
    assert_eq!(out.treasury, "new_treasury");
    assert_eq!(out.revenue_message, send("new_treasury", "in", 1782));
}

#[test]
fn unsold_tokens_go_back_to_the_treasury() {
    // A subscriber who withdraws everything half way leaves half of the out tokens unsold.
    let (stream, info, post) = new_stream(None, None, None);
    let (stream, alice, _) =
        execute_subscribe(stream, None, secs(150), &"alice".to_string(), &vec![coin(1000, "in")]).unwrap();
    let out = execute_withdraw(stream, alice, secs(700), &"alice".to_string(), None).unwrap();
    let p = params();
    let res = execute_finalize_stream(out.stream, &info, &post, &p, secs(1300), &"stream_admin".to_string(), None, false).unwrap();
    assert_eq!(res.refund, Some(send("treasury", "out", 500)));
    assert_eq!(res.stream.out_asset.amount, 500);
    assert_eq!(res.total_sold, 0);
    assert_eq!(res.creator_revenue, 495);
}

#[test]
fn threshold_not_reached_refunds_everyone() {
    let (stream, info, post, alice, bob) = with_two_subscribers(Some(5000));
    let p = params();
    let res = execute_finalize_stream(stream.clone(), &info, &post, &p, secs(1300), &"stream_admin".to_string(), None, false);
    assert_eq!(res.err(), Some(ContractError::ThresholdError(ThresholdError::ThresholdNotReached)));
    let res = execute_exit_stream(stream.clone(), alice.clone(), &post, &p, secs(1300), &"alice".to_string(), false);
    assert_eq!(res.err(), Some(ContractError::ThresholdError(ThresholdError::ThresholdNotReached)));

    // A subscriber can leave with everything deposited, before and after the cancellation.
    let out = execute_exit_cancelled(stream.clone(), alice, secs(1300), &"alice".to_string()).unwrap();
    assert_eq!(out.total_balance, 1000);
    assert_eq!(out.message, send("alice", "in", 1000));
    let again = execute_exit_cancelled(stream.clone(), out.position, secs(1300), &"alice".to_string());
    assert_eq!(again.err(), Some(ContractError::SubscriberAlreadyExited));

    let res = execute_cancel_stream_with_threshold(&info, stream.clone(), secs(1000), &"treasury".to_string());
    assert_eq!(res.err(), Some(ContractError::StreamNotEnded));
    let res = execute_cancel_stream_with_threshold(&info, stream.clone(), secs(1300), &"random".to_string());
    assert_eq!(res.err(), Some(ContractError::Unauthorized));
    let out = execute_cancel_stream_with_threshold(&info, stream, secs(1300), &"treasury".to_string()).unwrap();
    assert_eq!(out.stream.status_info.status, Status::Cancelled);
    assert_eq!(out.messages, vec![send("treasury", "out", 1000)]);

    let res = execute_cancel_stream_with_threshold(&info, out.stream.clone(), secs(1400), &"treasury".to_string());
    assert_eq!(res.err(), Some(ContractError::StreamKillswitchActive));
    let refund = execute_exit_cancelled(out.stream, bob, secs(1400), &"bob".to_string()).unwrap();
    assert_eq!(refund.total_balance, 1000);
}

#[test]
fn threshold_reached_keeps_the_sale() {
    let (stream, info, _, alice, _) = with_two_subscribers(Some(2000));
    let res = execute_exit_cancelled(stream.clone(), alice, secs(1300), &"alice".to_string());
    assert_eq!(res.err(), Some(ContractError::ThresholdError(ThresholdError::ThresholdReached)));
    let res = execute_cancel_stream_with_threshold(&info, stream, secs(1300), &"treasury".to_string());
    assert_eq!(res.err(), Some(ContractError::ThresholdError(ThresholdError::ThresholdReached)));
}

#[test]
fn cancellations() {
    let (stream, info, _) = new_stream(None, None, None);
    let p = params();
    // The stream admin may cancel only while waiting.
    let res = execute_stream_admin_cancel(&info, stream.clone(), secs(50), &"random".to_string());
    assert_eq!(res.err(), Some(ContractError::Unauthorized));
    let res = execute_stream_admin_cancel(&info, stream.clone(), secs(150), &"stream_admin".to_string());
    assert_eq!(res.err(), Some(not_allowed("Bootstrapping")));
    let out = execute_stream_admin_cancel(&info, stream.clone(), secs(50), &"stream_admin".to_string()).unwrap();
    assert_eq!(out.stream.status_info.status, Status::Cancelled);
    assert_eq!(out.messages, vec![send("treasury", "out", 1000)]);

    // The protocol admin may cancel until the stream is finalized or cancelled.
    let res = execute_cancel_stream(&p, &info, stream.clone(), secs(700), &"random".to_string());
    assert_eq!(res.err(), Some(ContractError::Unauthorized));
    let out = execute_cancel_stream(&p, &info, stream, secs(700), &"admin".to_string()).unwrap();
    assert_eq!(out.messages, vec![send("treasury", "out", 1000)]);
    let res = execute_cancel_stream(&p, &info, out.stream.clone(), secs(800), &"admin".to_string());
    assert_eq!(res.err(), Some(not_allowed("Cancelled")));
    let res = execute_sync_stream(out.stream, secs(800));
    assert_eq!(res.err(), Some(not_allowed("Cancelled")));
}

#[test]
fn exit_cancelled_needs_a_cancelled_stream() {
    let (stream, _, _, alice, _) = with_two_subscribers(None);
    // No threshold and not cancelled.
    let res = execute_exit_cancelled(stream.clone(), alice.clone(), secs(1300), &"alice".to_string());
    assert_eq!(res.err(), Some(ContractError::StreamNotCancelled));
    let res = execute_exit_cancelled(stream, alice, secs(1300), &"bob".to_string());
    assert_eq!(res.err(), Some(ContractError::Unauthorized));
}

#[test]
fn shares_are_rounded_as_asked() {
    let (stream, _, _, _, _) = with_two_subscribers(None);
    // 3000 shares over 1500 unspent tokens.
    assert_eq!(compute_shares_amount(&stream, 1, false), Ok(2));
    assert_eq!(compute_shares_amount(&stream, 0, true), Ok(0));
    let mut odd = stream.clone();
    odd.in_supply = 7;
    odd.shares = 10;
    assert_eq!(compute_shares_amount(&odd, 1, false), Ok(1));
    assert_eq!(compute_shares_amount(&odd, 1, true), Ok(2));
    odd.in_supply = 0;
    assert_eq!(compute_shares_amount(&odd, 1, true), Err(ContractError::DivideByZeroError));
}

#[test]
fn syncing_keeps_deposits_and_flows_only_while_active() {
    let (stream, _, _, _, _) = with_two_subscribers(None);
    let mut previous = stream.clone();
    for t in [700u64, 800, 950, 1199, 1200, 1500, 2000] {
        let next = execute_sync_stream(previous.clone(), secs(t)).unwrap();
        assert_eq!(next.spent_in + next.in_supply, 2000);
        assert!(next.spent_in >= previous.spent_in);
        assert!(next.out_remaining <= previous.out_remaining);
        assert!((next.dist_index.units, next.dist_index.frac) >= (previous.dist_index.units, previous.dist_index.frac));
        previous = next;
    }
    // Everything is spent and sold by the end, and nothing moves after it.
    assert_eq!(previous.in_supply, 0);
    assert_eq!(previous.out_remaining, 0);
    assert_eq!(previous.spent_in, 2000);
    let later = execute_sync_stream(previous.clone(), secs(5000)).unwrap();
    assert_eq!(later.spent_in, previous.spent_in);
    assert_eq!(later.out_remaining, previous.out_remaining);
    // Before the active period nothing is spent.
    let (stream, _, _) = new_stream(None, None, None);
    let (stream, _, _) =
        execute_subscribe(stream, None, secs(120), &"carol".to_string(), &vec![coin(300, "in")])
            .unwrap();
    let synced = execute_sync_stream(stream, secs(199)).unwrap();
    assert_eq!(synced.spent_in, 0);
    assert_eq!(synced.in_supply, 300);
    assert_eq!(synced.out_remaining, 1000);
    assert!(synced.is_bootstrapping());
}

#[test]
fn finalized_and_cancelled_streams_keep_their_phase() {
    let (stream, info, _) = new_stream(None, None, None);
    let cancelled = execute_stream_admin_cancel(&info, stream, secs(50), &"stream_admin".to_string())
        .unwrap()
        .stream;
    assert!(cancelled.is_cancelled());
    let mut later = cancelled.clone();
    sync_stream_status(&mut later, secs(700));
    assert!(later.is_cancelled());
    sync_stream_status(&mut later, secs(5000));
    assert!(later.is_cancelled());
}

#[test]
fn withdrawals_only_while_bootstrapping_or_active() {
    let (stream, _, _) = new_stream(None, None, None);
    let position = Position::new("alice".to_string(), 10, 10, None, secs(0));
    let res = execute_withdraw(stream.clone(), position.clone(), secs(50), &"alice".to_string(), None);
    assert_eq!(res.err(), Some(not_allowed("Waiting")));
    let res = execute_withdraw(stream, position, secs(1300), &"alice".to_string(), Some(5));
    assert_eq!(res.err(), Some(not_allowed("Ended")));
}
