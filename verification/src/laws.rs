use crate::contract::{
    subscribe_verdict, finalize_verdict, has_access, settle_overflows, settled_stream, spec_fee, withdrawal_verdict,
};
use crate::killswitch::{cancel_verdict, pause_verdict, resume_verdict, resumed};
use crate::lifecycle::{active_diff, phase_at, state_flows, sync_overflows, synced_state, Status as Phase, StatusInfo, StreamState};
use crate::math::{lemma_ratio_le, lemma_wide_val, ratio, scale, wide_limit, Decimal, WideDecimal};
use crate::lifecycle::{PoolConfig, StreamInfo, VestingConfig};
use crate::phased::{exit_verdict, withdraw_verdict, Position as PhasedPosition, Refusal};
use crate::state::{shares_for, Position, Status, Stream};
use crate::stream_math::{
    position_flows, purchase_atomics, spec_diff, stream_flows, update_position_fails,
    update_stream_overflows, updated_position, updated_stream,
};
use crate::payment::paid_amount;
use crate::state::{BankSend, Coin};
use crate::threshold::{threshold_not_reached, threshold_reached};
use vstd::prelude::*;

verus! {

/// Bringing a stream up to date moves in tokens from the in supply to the spent amount and
/// nothing else: `spent_in + in_supply`, the total of in tokens deposited and not withdrawn, is
/// unchanged; neither side decreases below zero.
pub proof fn law_update_stream_conserves_in_tokens(s: Stream, now: u64)
    requires
        !update_stream_overflows(s, now),
    ensures
        updated_stream(s, now).spent_in + updated_stream(s, now).in_supply == s.spent_in
            + s.in_supply,
        updated_stream(s, now).spent_in >= s.spent_in,
        updated_stream(s, now).in_supply <= s.in_supply,
{
    lemma_flows_bounded(s, now);
}

/// Bringing a stream up to date releases out tokens from what remains and nothing else: the
/// released amount plus what remains afterwards is what remained before, and the supply is
/// unchanged.
pub proof fn law_update_stream_conserves_out_tokens(s: Stream, now: u64)
    requires
        !update_stream_overflows(s, now),
    ensures
        updated_stream(s, now).out_remaining + stream_flows(s, now).0 == s.out_remaining,
        updated_stream(s, now).out_supply == s.out_supply,
        s.out_remaining <= s.out_supply ==> updated_stream(s, now).out_remaining
            <= updated_stream(s, now).out_supply,
{
    lemma_flows_bounded(s, now);
}

/// The distribution index never decreases.
pub proof fn law_dist_index_never_decreases(s: Stream, now: u64)
    requires
        !update_stream_overflows(s, now),
    ensures
        updated_stream(s, now).dist_index.val() >= s.dist_index.val(),
{
    let (released, spent) = stream_flows(s, now);
    if released != 0 {
        assert(released >= 0) by {
            lemma_flows_bounded(s, now);
        }
        vstd::arithmetic::div_mod::lemma_div_pos_is_pos(released * scale(), s.shares as int);
        assert(released * scale() >= 0) by (nonlinear_arith)
            requires
                released >= 0,
        ;
        lemma_wide_val(s.dist_index.val() + crate::stream_math::index_increase(released, s.shares as int));
    }
}

proof fn lemma_flows_bounded(s: Stream, now: u64)
    ensures
        0 <= stream_flows(s, now).0 <= s.out_remaining,
        0 <= stream_flows(s, now).1 <= s.in_supply,
        0 <= spec_diff(s.end_time, s.last_updated, now) <= scale(),
{
    lemma_diff_bounded(s.end_time, s.last_updated, now);
    let d = spec_diff(s.end_time, s.last_updated, now);
    lemma_ratio_le(s.out_remaining as int, d, scale());
    lemma_ratio_le(s.in_supply as int, d, scale());
}

proof fn lemma_diff_bounded(end_time: u64, last_updated: u64, now: u64)
    ensures
        0 <= spec_diff(end_time, last_updated, now) <= scale(),
{
    let n = if now > end_time {
        end_time
    } else {
        now
    };
    let numerator: int = if n >= last_updated {
        n - last_updated
    } else {
        0
    };
    let denominator: int = if end_time >= last_updated {
        end_time - last_updated
    } else {
        0
    };
    if denominator != 0 && numerator != 0 {
        crate::math::lemma_scaled_ratio_le_scale(numerator, denominator);
    }
}

/// Bringing a stream up to date twice at the same time is the same as doing it once: the second
/// update finds no elapsed time and releases nothing.
pub proof fn law_update_stream_idempotent(s: Stream, now: u64)
    requires
        !update_stream_overflows(s, now),
    ensures
        !update_stream_overflows(updated_stream(s, now), now),
        stream_flows(updated_stream(s, now), now) == (0int, 0int),
        updated_stream(updated_stream(s, now), now) == updated_stream(s, now),
{
    let u = updated_stream(s, now);
    assert(spec_diff(u.end_time, u.last_updated, now) == 0);
}

/// Before its start time (more precisely, no later than its last update) a stream releases
/// nothing and spends nothing.
pub proof fn law_nothing_flows_before_last_update(s: Stream, now: u64)
    requires
        now <= s.last_updated,
    ensures
        stream_flows(s, now) == (0int, 0int),
        !update_stream_overflows(s, now) ==> updated_stream(s, now).in_supply == s.in_supply
            && updated_stream(s, now).out_remaining == s.out_remaining,
{
}

/// Once a stream's end time has passed, bringing it up to date (from a last update before the
/// end) releases every remaining out token and spends the whole in supply.
pub proof fn law_everything_flows_by_the_end(s: Stream, now: u64)
    requires
        s.shares != 0,
        s.last_updated < s.end_time,
        now >= s.end_time,
        !update_stream_overflows(s, now),
    ensures
        updated_stream(s, now).out_remaining == 0,
        updated_stream(s, now).in_supply == 0,
        updated_stream(s, now).spent_in == s.spent_in + s.in_supply,
{
    let d = spec_diff(s.end_time, s.last_updated, now);
    let den: int = s.end_time - s.last_updated;
    assert(d == ratio(den, scale(), den));
    vstd::arithmetic::div_mod::lemma_div_by_multiple(scale(), den);
    assert(den * scale() == scale() * den) by (nonlinear_arith);
    assert(d == scale());
    vstd::arithmetic::div_mod::lemma_div_by_multiple(s.out_remaining as int, scale());
    vstd::arithmetic::div_mod::lemma_div_by_multiple(s.in_supply as int, scale());
}

/// Bringing a position up to date loses nothing to rounding: the whole out tokens bought plus
/// the pending fraction account exactly for the position's shares times the growth of the index
/// (plus what was pending); and the in tokens spent are exactly what left its balance.
pub proof fn law_update_position_exact(
    dist_index: WideDecimal,
    stream_shares: u128,
    stream_last_updated: u64,
    stream_in_supply: u128,
    p: Position,
)
    requires
        stream_shares != 0,
        !update_position_fails(dist_index, stream_shares, stream_in_supply, p),
    ensures
        ({
            let q = updated_position(dist_index, stream_shares, stream_last_updated, stream_in_supply, p);
            let flows = position_flows(dist_index, stream_shares, stream_in_supply, p);
            &&& q.purchased * scale() + q.pending_purchase.val() == p.purchased * scale()
                + p.shares * (dist_index.val() - p.index.val()) + p.pending_purchase.val()
            &&& q.pending_purchase.val() < scale()
            &&& q.in_balance + flows.1 == p.in_balance
            &&& q.spent == p.spent + flows.1
            &&& q.purchased == p.purchased + flows.0
            &&& q.index == dist_index
        }),
{
    let b = purchase_atomics(p, dist_index);
    vstd::arithmetic::div_mod::lemma_fundamental_div_mod(b, scale());
    vstd::arithmetic::div_mod::lemma_mod_bound(b, scale());
    lemma_wide_val(b % scale());
    assert(scale() * (b / scale()) == (b / scale()) * scale()) by (nonlinear_arith);
    assert((p.purchased + b / scale()) * scale() == p.purchased * scale() + (b / scale())
        * scale()) by (nonlinear_arith);
}

/// The fractional part of a decimal is below one, and what it leaves is a whole number.
pub proof fn law_get_decimals_is_fractional_part(value: Decimal)
    ensures
        (value.atomics as int) % scale() < scale(),
        ((value.atomics as int) - (value.atomics as int) % scale()) % scale() == 0,
{
    vstd::arithmetic::div_mod::lemma_fundamental_div_mod(value.atomics as int, scale());
    let q = (value.atomics as int) / scale();
    assert((value.atomics as int) - (value.atomics as int) % scale() == q * scale())
        by (nonlinear_arith)
        requires
            (value.atomics as int) == scale() * q + (value.atomics as int) % scale(),
    ;
    vstd::arithmetic::div_mod::lemma_mod_multiples_basic(q, scale());
}

/// Shares burnt on a withdrawal are rounded up and shares minted on a subscription rounded down,
/// by at most one: a withdrawal never burns fewer shares than the amount is worth.
pub proof fn law_share_rounding(stream_shares: u128, in_supply: u128, amount: u128)
    requires
        stream_shares != 0,
        in_supply != 0,
        amount != 0,
    ensures
        shares_for(stream_shares as int, in_supply as int, amount as int, false) <= shares_for(
            stream_shares as int,
            in_supply as int,
            amount as int,
            true,
        ) <= shares_for(stream_shares as int, in_supply as int, amount as int, false) + 1,
{
    let x = stream_shares * amount;
    let y = in_supply as int;
    vstd::arithmetic::div_mod::lemma_fundamental_div_mod(x, y);
    vstd::arithmetic::div_mod::lemma_fundamental_div_mod(x + y - 1, y);
    let q = x / y;
    let r = x % y;
    assert(x + y - 1 == y * q + (r + y - 1));
    if r == 0 {
        vstd::arithmetic::div_mod::lemma_div_multiples_vanish_fancy(q, y - 1, y);
    } else {
        vstd::arithmetic::div_mod::lemma_div_multiples_vanish_fancy(q + 1, r - 1, y);
        assert(y * q + (r + y - 1) == y * (q + 1) + (r - 1)) by (nonlinear_arith);
    }
}

/// A withdrawal takes exactly the withdrawn amount out of both the stream's in supply and the
/// position's balance, and burns the same shares from both.
pub proof fn law_withdrawal_balances(stream: Stream, position: Position, cap: Option<u128>)
    requires
        withdrawal_verdict(stream, position, cap) is Ok,
    ensures
        ({
            let (s, p, amount) = withdrawal_verdict(stream, position, cap)->Ok_0;
            &&& s.in_supply + amount == stream.in_supply
            &&& p.in_balance + amount == position.in_balance
            &&& stream.shares - s.shares == position.shares - p.shares
            &&& amount > 0
        }),
{
}

/// The revenue paid to the creator and the swap fee kept by the protocol add up to exactly the
/// in tokens spent on the sale.
pub proof fn law_finalize_splits_spent_in(
    stream: Stream,
    thresholds: Map<u64, u128>,
    stream_id: u64,
    now: u64,
    sender: Seq<char>,
    new_treasury: Option<String>,
)
    requires
        finalize_verdict(stream, thresholds, stream_id, now, sender, new_treasury) is Ok,
    ensures
        ({
            let (s, t, revenue, fee, sold) = finalize_verdict(
                stream,
                thresholds,
                stream_id,
                now,
                sender,
                new_treasury,
            )->Ok_0;
            revenue + fee == s.spent_in && sold + s.out_remaining == s.out_supply
        }),
{
}

/// A stream that was active when it was finalized cannot be finalized twice: once finalized, a
/// second request is refused. A stream that is still waiting at its end (nobody subscribed once
/// it had started) stays waiting when it is finalized, and can be finalized again.
pub proof fn law_finalize_once(
    stream: Stream,
    thresholds: Map<u64, u128>,
    stream_id: u64,
    now: u64,
    later: u64,
    sender: Seq<char>,
    new_treasury: Option<String>,
    again: Option<String>,
)
    requires
        stream.status == Status::Active,
        finalize_verdict(stream, thresholds, stream_id, now, sender, new_treasury) is Ok,
    ensures
        ({
            let s = finalize_verdict(stream, thresholds, stream_id, now, sender, new_treasury)->Ok_0.0;
            &&& s.status == Status::Finalized
            &&& finalize_verdict(s, thresholds, stream_id, later, sender, again) == Err::<
                (Stream, String, u128, u128, u128),
                crate::error::ContractError,
            >(crate::error::ContractError::StreamAlreadyFinalized)
        }),
{
    let s1 = settled_stream(stream, now);
    assert(s1.status == Status::Active);
}

/// A pause followed by a resume leaves the stream as much time to run as it had when it was
/// paused: its end and its last update move forward by the length of the pause.
pub proof fn law_pause_resume_keeps_remaining_time(stream: Stream, paused_at: u64, now: u64)
    requires
        pause_verdict(stream, paused_at) is Ok,
        now >= paused_at,
        resume_verdict(pause_verdict(stream, paused_at)->Ok_0, now) is Ok,
        pause_verdict(stream, paused_at)->Ok_0.end_time + (now - paused_at) <= u64::MAX,
        pause_verdict(stream, paused_at)->Ok_0.last_updated + (now - paused_at) <= u64::MAX,
    ensures
        ({
            let p = pause_verdict(stream, paused_at)->Ok_0;
            let r = resume_verdict(p, now)->Ok_0;
            &&& p.status == Status::Paused
            &&& r.status == Status::Active
            &&& r.end_time - r.last_updated == p.end_time - p.last_updated
            &&& r.end_time == p.end_time + (now - paused_at)
            &&& r.in_supply == p.in_supply && r.out_remaining == p.out_remaining
        }),
{
}

/// A cancelled stream is final: it can be neither resumed, nor paused, nor cancelled again.
pub proof fn law_cancelled_is_final(stream: Stream, now: u64)
    requires
        cancel_verdict(stream) is Ok,
    ensures
        ({
            let c = cancel_verdict(stream)->Ok_0;
            &&& c.status == Status::Cancelled
            &&& resume_verdict(c, now) == Err::<Stream, crate::error::ContractError>(
                crate::error::ContractError::StreamIsCancelled,
            )
            &&& pause_verdict(c, now) is Err
            &&& cancel_verdict(c) == Err::<Stream, crate::error::ContractError>(
                crate::error::ContractError::StreamIsCancelled,
            )
        }),
{
}

/// For a stream with a threshold, exactly one of "reached" and "not reached" holds; without a
/// threshold, neither does.
pub proof fn law_threshold_dichotomy(thresholds: Map<u64, u128>, stream_id: u64, spent_in: u128)
    ensures
        thresholds.contains_key(stream_id) ==> (threshold_reached(thresholds, stream_id, spent_in)
            != threshold_not_reached(thresholds, stream_id, spent_in)),
        !thresholds.contains_key(stream_id) ==> !threshold_reached(thresholds, stream_id, spent_in)
            && !threshold_not_reached(thresholds, stream_id, spent_in),
{
}

/// The owner of a position always has access to it, whoever its operator is.
pub proof fn law_owner_has_access(owner: Seq<char>, operator: Option<String>)
    ensures
        has_access(owner, owner, operator),
{
}

/// The exit fee is a share of the amount: at most the amount when the rate is at most one.
pub proof fn law_fee_within_amount(amount: u128, fee: Decimal)
    requires
        fee.atomics <= scale(),
        spec_fee(amount, fee) is Ok,
    ensures
        spec_fee(amount, fee)->Ok_0 <= amount,
{
    lemma_ratio_le(amount as int, fee.atomics as int, scale());
}

/// The order of the phases a stream goes through.
pub open spec fn phase_rank(p: Phase) -> int {
    match p {
        Phase::Waiting => 0,
        Phase::Bootstrapping => 1,
        Phase::Active => 2,
        Phase::Ended => 3,
        _ => 4,
    }
}

proof fn lemma_state_flows_bounded(s: StreamState, now: u64)
    ensures
        0 <= state_flows(s, now).0 <= s.out_remaining,
        0 <= state_flows(s, now).1 <= s.in_supply,
{
    let i = s.status_info;
    let d = active_diff(i.start_time, i.end_time, i.last_updated, now);
    if !(now < i.start_time || i.last_updated >= i.end_time) {
        let last: int = if i.last_updated < i.start_time {
            i.start_time as int
        } else {
            i.last_updated as int
        };
        let n: int = if now > i.end_time {
            i.end_time as int
        } else {
            now as int
        };
        let numerator: int = if n >= last {
            n - last
        } else {
            0
        };
        let denominator: int = if i.end_time >= last {
            i.end_time - last
        } else {
            0
        };
        if denominator != 0 && numerator != 0 {
            crate::math::lemma_scaled_ratio_le_scale(numerator, denominator);
        }
    }
    assert(0 <= d <= scale());
    lemma_ratio_le(s.out_remaining as int, d, scale());
    lemma_ratio_le(s.in_supply as int, d, scale());
}

/// At any time `spent_in + in_supply` of a stream with phases is the total of in tokens
/// deposited and not withdrawn: bringing it up to date moves in tokens from one to the other,
/// and releases out tokens only from what remains.
pub proof fn law_sync_conserves_tokens(s: StreamState, now: u64)
    requires
        !sync_overflows(s, now),
    ensures
        synced_state(s, now).spent_in + synced_state(s, now).in_supply == s.spent_in + s.in_supply,
        synced_state(s, now).out_remaining + state_flows(s, now).0 == s.out_remaining,
        synced_state(s, now).spent_in >= s.spent_in,
{
    lemma_state_flows_bounded(s, now);
}

/// Before the active period starts (waiting or bootstrapping) nothing is spent and nothing is
/// released; after its end nothing more is once the stream was brought up to its end.
pub proof fn law_no_flow_outside_active_period(s: StreamState, now: u64)
    requires
        now < s.status_info.start_time || s.status_info.last_updated >= s.status_info.end_time,
    ensures
        state_flows(s, now) == (0int, 0int),
        !sync_overflows(s, now),
        synced_state(s, now).spent_in == s.spent_in,
        synced_state(s, now).in_supply == s.in_supply,
        synced_state(s, now).out_remaining == s.out_remaining,
{
}

/// A finalized or cancelled stream stays so whatever the time; otherwise, with its periods in
/// order, its phase only moves forward as time goes on: waiting, bootstrapping, active, ended.
pub proof fn law_phases_move_forward(info: StatusInfo, t1: u64, t2: u64)
    requires
        info.bootstrapping_start_time <= info.start_time <= info.end_time,
        t1 <= t2,
    ensures
        (info.status == Phase::Finalized || info.status == Phase::Cancelled) ==> phase_at(info, t1)
            == info.status && phase_at(info, t2) == info.status,
        !(info.status == Phase::Finalized || info.status == Phase::Cancelled) ==> phase_rank(
            phase_at(info, t1),
        ) <= phase_rank(phase_at(info, t2)),
{
}

/// Only a bootstrapping or active stream gives deposits back: in any other phase (waiting,
/// ended, finalized, cancelled, threshold not reached) a withdrawal is refused as not allowed in
/// that phase, whatever the position and the amount asked for.
pub proof fn law_withdrawals_only_while_open(
    stream: StreamState,
    position: PhasedPosition,
    now: u64,
    cap: Option<u128>,
)
    requires
        phase_at(stream.status_info, now) != Phase::Active,
        phase_at(stream.status_info, now) != Phase::Bootstrapping,
    ensures
        withdraw_verdict(stream, position, now, cap) == Err::<(StreamState, PhasedPosition, u128), Refusal>(
            Refusal::NotAllowed(phase_at(stream.status_info, now)),
        ),
{
}

/// A subscriber leaves a stream once: the position that an exit gives back carries the time of
/// the exit, and any later exit with it is refused, whatever the stream, the time and the salt.
#[allow(clippy::too_many_arguments)]
pub proof fn law_exit_is_once(
    stream: StreamState,
    position: PhasedPosition,
    vesting: Option<VestingConfig>,
    exit_fee_percent: Decimal,
    now: u64,
    salt_given: bool,
    later_stream: StreamState,
    later: u64,
    later_salt_given: bool,
)
    requires
        exit_verdict(stream, position, vesting, exit_fee_percent, now, salt_given) is Ok,
        now != 0,
    ensures
        exit_verdict(stream, position, vesting, exit_fee_percent, now, salt_given)->Ok_0.1.exit_date
            == now,
        !(exit_verdict(
            later_stream,
            exit_verdict(stream, position, vesting, exit_fee_percent, now, salt_given)->Ok_0.1,
            vesting,
            exit_fee_percent,
            later,
            later_salt_given,
        ) is Ok),
{
}

/// A stream is finalized once: the stream that a finalization gives back is finalized, and a
/// later request of its admin to finalize it is refused as not allowed in that phase.
#[allow(clippy::too_many_arguments)]
pub proof fn law_phased_finalize_once(
    stream: StreamState,
    info: StreamInfo,
    pool_config: Option<PoolConfig>,
    exit_fee_percent: Decimal,
    now: u64,
    new_treasury: Option<String>,
    create_pool: bool,
    later: u64,
    later_treasury: Option<String>,
    later_create_pool: bool,
)
    requires
        crate::phased::finalize_verdict(
            stream,
            info,
            pool_config,
            exit_fee_percent,
            now,
            info.stream_admin@,
            new_treasury,
            create_pool,
        ) is Ok,
    ensures
        ({
            let s = crate::phased::finalize_verdict(
                stream,
                info,
                pool_config,
                exit_fee_percent,
                now,
                info.stream_admin@,
                new_treasury,
                create_pool,
            )->Ok_0.0;
            &&& s.status_info.status == Phase::Finalized
            &&& crate::phased::finalize_verdict(
                s,
                info,
                pool_config,
                exit_fee_percent,
                later,
                info.stream_admin@,
                later_treasury,
                later_create_pool,
            ) == Err::<(StreamState, String, Option<u128>, Option<(u128, u128)>, u128, u128, u128), Refusal>(
                Refusal::NotAllowed(Phase::Finalized),
            )
        }),
{
}

/// A subscription adds exactly the paid amount: to the stream's in tokens deposited and not
/// withdrawn (`in_supply + spent_in`) and to the position's (`in_balance + spent`, from zero for
/// a new position); it mints the same number of shares for the stream and for the position; and
/// the first subscription to a waiting stream makes it active.
#[allow(clippy::too_many_arguments)]
pub proof fn law_subscribe_conserves_tokens(
    stream: Stream,
    position: Option<Position>,
    now: u64,
    sender: String,
    funds: Seq<Coin>,
    operator: Option<String>,
    operator_target: Seq<char>,
)
    requires
        paid_amount(funds, stream.in_denom@) is Some,
        subscribe_verdict(stream, position, now, sender, funds, operator, operator_target) is Ok,
    ensures
        ({
            let (s2, p2) = subscribe_verdict(
                stream,
                position,
                now,
                sender,
                funds,
                operator,
                operator_target,
            )->Ok_0;
            let a = paid_amount(funds, stream.in_denom@)->Some_0;
            let (balance, spent, shares) = match position {
                Some(p) => (p.in_balance as int, p.spent as int, p.shares as int),
                None => (0int, 0int, 0int),
            };
            &&& s2.in_supply + s2.spent_in == stream.in_supply + stream.spent_in + a
            &&& p2.in_balance + p2.spent == balance + spent + a
            &&& s2.shares - stream.shares == p2.shares - shares
            &&& s2.shares >= stream.shares
            &&& stream.status == Status::Waiting ==> s2.status == Status::Active
        }),
{
    let s0 = if stream.status == Status::Waiting {
        Stream { status: Status::Active, ..stream }
    } else {
        stream
    };
    law_update_stream_conserves_in_tokens(s0, now);
}

/// Bringing a position up to date moves in tokens from its balance to what it spent and nothing
/// else: `in_balance + spent`, what it deposited and did not withdraw, is unchanged.
pub proof fn law_update_position_keeps_deposits(
    dist_index: WideDecimal,
    stream_shares: u128,
    stream_last_updated: u64,
    stream_in_supply: u128,
    p: Position,
)
    requires
        !update_position_fails(dist_index, stream_shares, stream_in_supply, p),
    ensures
        ({
            let q = updated_position(dist_index, stream_shares, stream_last_updated, stream_in_supply, p);
            &&& q.in_balance + q.spent == p.in_balance + p.spent
            &&& q.index == dist_index
            &&& q.shares == p.shares
        }),
{
}

/// Leaving a cancelled stream (of the contract with many streams) refunds everything the
/// position deposited and did not withdraw: its balance and what it spent, whatever updates it
/// went through before.
pub proof fn law_exit_cancelled_refunds_deposits(
    stream: Stream,
    position: Position,
    thresholds: Map<u64, u128>,
    stream_id: u64,
    now: u64,
    sender: Seq<char>,
)
    requires
        crate::killswitch::exit_cancelled_verdict(stream, position, thresholds, stream_id, now, sender)
            is Ok,
    ensures
        crate::killswitch::exit_cancelled_verdict(stream, position, thresholds, stream_id, now, sender)->Ok_0.1
            == position.in_balance + position.spent,
{
}

/// Cancelling a phased stream, in any of the three ways, refunds the whole out asset that the
/// creator deposited to the treasury, however much of it was released before: one transfer of
/// `out_asset.amount` of its denom, none when that amount is zero.
pub proof fn law_cancel_refunds_whole_out_asset(
    stream: StreamState,
    now: u64,
    allowed: bool,
    treasury: String,
    sender: Seq<char>,
)
    ensures
        crate::phased::cancel_verdict(stream, now, allowed) is Ok ==> {
            let s = crate::phased::cancel_verdict(stream, now, allowed)->Ok_0;
            &&& s.out_asset == stream.out_asset
            &&& stream.out_asset.amount > 0 ==> crate::phased::refund_messages(s, treasury) == seq![
                BankSend {
                    to_address: treasury,
                    denom: stream.out_asset.denom,
                    amount: stream.out_asset.amount,
                },
            ]
            &&& stream.out_asset.amount == 0 ==> crate::phased::refund_messages(s, treasury).len()
                == 0
        },
        crate::phased::cancel_with_threshold_verdict(stream, treasury@, now, sender) is Ok ==> {
            let s = crate::phased::cancel_with_threshold_verdict(stream, treasury@, now, sender)->Ok_0;
            &&& s.out_asset == stream.out_asset
            &&& stream.out_asset.amount > 0 ==> crate::phased::refund_messages(s, treasury) == seq![
                BankSend {
                    to_address: treasury,
                    denom: stream.out_asset.denom,
                    amount: stream.out_asset.amount,
                },
            ]
            &&& stream.out_asset.amount == 0 ==> crate::phased::refund_messages(s, treasury).len()
                == 0
        },
{
}

/// Bringing a position in a phased stream up to date keeps `in_balance + spent`, what it
/// deposited and did not withdraw.
pub proof fn law_sync_position_keeps_deposits(
    dist_index: WideDecimal,
    stream_shares: u128,
    stream_last_updated: u64,
    stream_in_supply: u128,
    p: PhasedPosition,
)
    requires
        !crate::phased::sync_position_fails(dist_index, stream_shares, stream_in_supply, p),
    ensures
        ({
            let q = crate::phased::synced_position(
                dist_index,
                stream_shares,
                stream_last_updated,
                stream_in_supply,
                p,
            );
            &&& q.in_balance + q.spent == p.in_balance + p.spent
            &&& q.index == dist_index
            &&& q.shares == p.shares
            &&& q.exit_date == p.exit_date
        }),
{
}

/// Leaving a cancelled phased stream, or one that missed its threshold, refunds everything the
/// position deposited and did not withdraw (its balance and what it spent), and marks it exited.
pub proof fn law_phased_exit_cancelled_refunds_deposits(
    stream: StreamState,
    position: PhasedPosition,
    now: u64,
    sender: Seq<char>,
)
    requires
        crate::phased::exit_cancelled_verdict(stream, position, now, sender) is Ok,
    ensures
        ({
            let (p, total) = crate::phased::exit_cancelled_verdict(stream, position, now, sender)->Ok_0;
            &&& total == position.in_balance + position.spent
            &&& p.in_balance == position.in_balance
            &&& p.spent == position.spent
            &&& p.exit_date == now
        }),
{
}

/// A withdrawal from a phased stream takes exactly the withdrawn amount out of what the position
/// deposited and did not withdraw, and out of the stream's; withdrawing everything (no cap)
/// leaves the position with no balance and no shares; a cap is withdrawn exactly.
pub proof fn law_phased_withdraw_takes_exactly_the_amount(
    stream: StreamState,
    position: PhasedPosition,
    now: u64,
    cap: Option<u128>,
)
    requires
        withdraw_verdict(stream, position, now, cap) is Ok,
    ensures
        ({
            let (s, p, a) = withdraw_verdict(stream, position, now, cap)->Ok_0;
            &&& p.in_balance + p.spent + a == position.in_balance + position.spent
            &&& s.in_supply + s.spent_in + a == stream.in_supply + stream.spent_in
            &&& stream.shares - s.shares == position.shares - p.shares
            &&& p.index == s.dist_index
            &&& cap is None ==> p.in_balance == 0 && p.shares == 0
            &&& cap matches Some(c) ==> a == c
        }),
{
    let ph = crate::phased::phased(stream, now);
    law_sync_conserves_tokens(ph, now);
}

/// A subscription to a phased stream brings the position up to date before the deposit, so that
/// the deposit takes no part in what was distributed before: the position's index is the
/// stream's, what it bought until now is counted (whole tokens and the pending fraction account
/// for its shares times the growth of the index), and exactly the paid amount is added to what
/// it and the stream deposited, with the same shares minted for both.
pub proof fn law_phased_subscribe_syncs_first(
    stream: StreamState,
    position: Option<PhasedPosition>,
    now: u64,
    sender: String,
    amount: u128,
)
    requires
        crate::phased::subscribe_verdict(stream, position, now, sender, amount) is Ok,
    ensures
        ({
            let (s, p, a) = crate::phased::subscribe_verdict(stream, position, now, sender, amount)->Ok_0;
            &&& a == amount
            &&& p.index == s.dist_index
            &&& p.last_updated == now
            &&& s.in_supply + s.spent_in == stream.in_supply + stream.spent_in + amount
            &&& match position {
                Some(old) => {
                    &&& p.in_balance + p.spent == old.in_balance + old.spent + amount
                    &&& s.shares - stream.shares == p.shares - old.shares
                    &&& stream.shares != 0 ==> p.purchased * scale() + p.pending_purchase.val()
                        == old.purchased * scale() + old.shares * (s.dist_index.val()
                        - old.index.val()) + old.pending_purchase.val()
                },
                None => {
                    &&& p.in_balance == amount
                    &&& p.spent == 0
                    &&& p.purchased == 0
                    &&& s.shares - stream.shares == p.shares
                },
            }
        }),
{
    let ph = crate::phased::phased(stream, now);
    law_sync_conserves_tokens(ph, now);
    let s1 = synced_state(ph, now);
    if let Some(old) = position {
        if s1.shares != 0 && !crate::phased::sync_position_fails(s1.dist_index, s1.shares, s1.in_supply, old) {
            let b = purchase_atomics(crate::phased::share_account(old), s1.dist_index);
            vstd::arithmetic::div_mod::lemma_fundamental_div_mod(b, scale());
            vstd::arithmetic::div_mod::lemma_mod_bound(b, scale());
            lemma_wide_val(b % scale());
            assert(scale() * (b / scale()) == (b / scale()) * scale()) by (nonlinear_arith);
            assert((old.purchased + b / scale()) * scale() == old.purchased * scale() + (b / scale())
                * scale()) by (nonlinear_arith);
        }
    }
}

} // verus!
