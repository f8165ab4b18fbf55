use crate::error::ContractError;
use crate::math::{
    lemma_ratio_le, lemma_scaled_ratio_le_scale, lemma_wide_val, multiply_ratio, ratio, scale, wide,
    wide_limit, Decimal, WideDecimal,
};
use crate::state::Coin;
use vstd::prelude::*;

verus! {

/// Phases of a stream that goes through a bootstrapping period before it starts.
#[derive(Clone, Copy, Debug, PartialEq, Eq, Structural)]
pub enum Status {
    /// Created; nobody can interact with it yet.
    Waiting,
    /// Subscriptions and withdrawals are allowed; nothing is spent yet.
    Bootstrapping,
    /// In tokens are spent and out tokens released.
    Active,
    /// Subscribers may exit, the creator may finalize.
    Ended,
    Finalized,
    /// Subscribers get all their in tokens back, the creator its out tokens.
    Cancelled,
    ThresholdNotReached,
}

/// The name under which a status is shown.
pub open spec fn status_name(s: Status) -> Seq<char> {
    match s {
        Status::Waiting => "Waiting"@,
        Status::Bootstrapping => "Bootstrapping"@,
        Status::Active => "Active"@,
        Status::Ended => "Ended"@,
        Status::Finalized => "Finalized"@,
        Status::Cancelled => "Cancelled"@,
        Status::ThresholdNotReached => "ThresholdNotReached"@,
    }
}

impl Status {
    /// The name under which the status is shown.
    pub fn to_display_string(&self) -> (r: String)
        ensures
            r@ == status_name(*self),
    {
        let name: &str = match self {
            Status::Waiting => "Waiting",
            Status::Bootstrapping => "Bootstrapping",
            Status::Active => "Active",
            Status::Ended => "Ended",
            Status::Finalized => "Finalized",
            Status::Cancelled => "Cancelled",
            Status::ThresholdNotReached => "ThresholdNotReached",
        };
        name.to_owned()
    }
}

/// The times that decide the phase of a stream (nanoseconds) and its current phase.
#[derive(Clone, Debug, PartialEq, Eq)]
pub struct StatusInfo {
    pub status: Status,
    pub bootstrapping_start_time: u64,
    pub start_time: u64,
    pub end_time: u64,
    pub last_updated: u64,
}

impl StatusInfo {
    pub fn new(now: u64, bootstrapping_start_time: u64, start_time: u64, end_time: u64) -> (s:
        StatusInfo)
        ensures
            s == (StatusInfo {
                status: Status::Waiting,
                bootstrapping_start_time,
                start_time,
                end_time,
                last_updated: now,
            }),
    {
        StatusInfo { status: Status::Waiting, bootstrapping_start_time, start_time, end_time, last_updated: now }
    }
}

/// The running state of a stream with a bootstrapping period.
#[derive(Clone, Debug, PartialEq, Eq)]
pub struct StreamState {
    pub dist_index: WideDecimal,
    pub out_remaining: u128,
    pub in_denom: String,
    pub in_supply: u128,
    /// At any time `spent_in + in_supply` is the total of in tokens deposited and not withdrawn.
    pub spent_in: u128,
    pub shares: u128,
    pub current_streamed_price: WideDecimal,
    pub out_asset: Coin,
    pub status_info: StatusInfo,
    pub threshold: Option<u128>,
}

impl StreamState {
    pub fn new(
        now: u64,
        out_asset: Coin,
        in_denom: String,
        bootstrapping_start_time: u64,
        start_time: u64,
        end_time: u64,
        threshold: Option<u128>,
    ) -> (s: StreamState)
        ensures
            s == (StreamState {
                dist_index: wide(0),
                out_remaining: out_asset.amount,
                in_denom,
                in_supply: 0,
                spent_in: 0,
                shares: 0,
                current_streamed_price: wide(0),
                out_asset,
                status_info: StatusInfo {
                    status: Status::Waiting,
                    bootstrapping_start_time,
                    start_time,
                    end_time,
                    last_updated: now,
                },
                threshold,
            }),
    {
        let out_remaining = out_asset.amount;
        StreamState {
            dist_index: WideDecimal::zero(),
            out_remaining,
            in_denom,
            in_supply: 0,
            spent_in: 0,
            shares: 0,
            current_streamed_price: WideDecimal::zero(),
            out_asset,
            status_info: StatusInfo::new(now, bootstrapping_start_time, start_time, end_time),
            threshold,
        }
    }

    pub fn is_active(&self) -> (b: bool)
        ensures
            b == (self.status_info.status == Status::Active),
    {
        self.status_info.status == Status::Active
    }

    pub fn is_finalized(&self) -> (b: bool)
        ensures
            b == (self.status_info.status == Status::Finalized),
    {
        self.status_info.status == Status::Finalized
    }

    pub fn is_waiting(&self) -> (b: bool)
        ensures
            b == (self.status_info.status == Status::Waiting),
    {
        self.status_info.status == Status::Waiting
    }

    pub fn is_cancelled(&self) -> (b: bool)
        ensures
            b == (self.status_info.status == Status::Cancelled),
    {
        self.status_info.status == Status::Cancelled
    }

    pub fn is_bootstrapping(&self) -> (b: bool)
        ensures
            b == (self.status_info.status == Status::Bootstrapping),
    {
        self.status_info.status == Status::Bootstrapping
    }

    pub fn is_ended(&self) -> (b: bool)
        ensures
            b == (self.status_info.status == Status::Ended),
    {
        self.status_info.status == Status::Ended
    }
}

/// The phase of a stream at `now`: a finalized or cancelled stream stays so; otherwise the phase
/// is the one whose period contains `now`.
pub open spec fn phase_at(info: StatusInfo, now: u64) -> Status {
    if info.status == Status::Finalized || info.status == Status::Cancelled {
        info.status
    } else if now < info.bootstrapping_start_time {
        Status::Waiting
    } else if now < info.start_time {
        Status::Bootstrapping
    } else if now < info.end_time {
        Status::Active
    } else {
        Status::Ended
    }
}

/// Sets the phase of a stream to the one of `now`.
pub fn sync_stream_status(stream: &mut StreamState, now: u64)
    ensures
        *final(stream) == (StreamState {
            status_info: StatusInfo {
                status: phase_at(old(stream).status_info, now),
                ..old(stream).status_info
            },
            ..*old(stream)
        }),
{
    if stream.status_info.status == Status::Finalized || stream.status_info.status
        == Status::Cancelled {
        return ;
    }
    let status = if now < stream.status_info.bootstrapping_start_time {
        Status::Waiting
    } else if now < stream.status_info.start_time {
        Status::Bootstrapping
    } else if now < stream.status_info.end_time {
        Status::Active
    } else {
        Status::Ended
    };
    stream.status_info.status = status;
}

/// Share of the active period left that has elapsed between the last update and `now`, as
/// atomics of a decimal; nothing before the start or once the last update reached the end.
pub open spec fn active_diff(start_time: u64, end_time: u64, last_updated: u64, now: u64) -> int {
    if now < start_time || last_updated >= end_time {
        0
    } else {
        let last: int = if last_updated < start_time {
            start_time as int
        } else {
            last_updated as int
        };
        let n: int = if now > end_time {
            end_time as int
        } else {
            now as int
        };
        let numerator: int = if n >= last {
            n - last
        } else {
            0
        };
        let denominator: int = if end_time >= last {
            end_time - last
        } else {
            0
        };
        if denominator == 0 || numerator == 0 {
            0
        } else {
            ratio(numerator, scale(), denominator)
        }
    }
}

fn calculate_active_diff(start_time: u64, end_time: u64, last_updated: u64, now: u64) -> (d: Decimal)
    ensures
        d.atomics == active_diff(start_time, end_time, last_updated, now),
        d.atomics <= scale(),
{
    if now < start_time || last_updated >= end_time {
        return Decimal::zero();
    }
    let last = if last_updated < start_time {
        start_time
    } else {
        last_updated
    };
    let n = if now > end_time {
        end_time
    } else {
        now
    };
    let numerator = n.saturating_sub(last);
    let denominator = end_time.saturating_sub(last);
    if denominator == 0 || numerator == 0 {
        Decimal::zero()
    } else {
        proof {
            lemma_scaled_ratio_le_scale(numerator as int, denominator as int);
        }
        match Decimal::from_ratio(numerator as u128, denominator as u128) {
            Ok(d) => d,
            Err(_) => Decimal::zero(),
        }
    }
}

/// Out tokens released and in tokens spent by bringing a stream state up to `now`.
pub open spec fn state_flows(s: StreamState, now: u64) -> (int, int) {
    let d = active_diff(
        s.status_info.start_time,
        s.status_info.end_time,
        s.status_info.last_updated,
        now,
    );
    if s.shares != 0 && d != 0 {
        (ratio(s.out_remaining as int, d, scale()), ratio(s.in_supply as int, d, scale()))
    } else {
        (0, 0)
    }
}

/// Whether bringing a stream state up to `now` overflows: the spent amount beyond 128 bits, or
/// the distribution index beyond its 128-bit whole part.
pub open spec fn sync_overflows(s: StreamState, now: u64) -> bool {
    let (released, spent) = state_flows(s, now);
    ||| s.spent_in + spent > u128::MAX
    ||| released != 0 && s.dist_index.val() + ratio(released, scale(), s.shares as int)
        >= wide_limit()
}

/// The stream state brought up to `now`.
pub open spec fn synced_state(s: StreamState, now: u64) -> StreamState {
    let (released, spent) = state_flows(s, now);
    StreamState {
        spent_in: (s.spent_in + spent) as u128,
        in_supply: (s.in_supply - spent) as u128,
        out_remaining: (s.out_remaining - released) as u128,
        dist_index: if released != 0 {
            wide(s.dist_index.val() + ratio(released, scale(), s.shares as int))
        } else {
            s.dist_index
        },
        current_streamed_price: if released != 0 {
            wide(ratio(spent, scale(), released))
        } else {
            s.current_streamed_price
        },
        status_info: StatusInfo { last_updated: now, ..s.status_info },
        ..s
    }
}

/// Brings a stream state up to `now`: only time within the active period counts. On an error
/// the state is left as it was.
pub fn sync_stream(stream: &mut StreamState, now: u64) -> (r: Result<(), ContractError>)
    ensures
        sync_overflows(*old(stream), now) ==> r == Err::<(), ContractError>(ContractError::Overflow)
            && *final(stream) == *old(stream),
        !sync_overflows(*old(stream), now) ==> r == Ok::<(), ContractError>(()) && *final(stream)
            == synced_state(*old(stream), now),
{
    let diff = calculate_active_diff(
        stream.status_info.start_time,
        stream.status_info.end_time,
        stream.status_info.last_updated,
        now,
    );
    let mut spent_in = stream.spent_in;
    let mut in_supply = stream.in_supply;
    let mut out_remaining = stream.out_remaining;
    let mut dist_index = stream.dist_index;
    let mut price = stream.current_streamed_price;
    if stream.shares != 0 && !diff.is_zero() {
        proof {
            lemma_ratio_le(stream.out_remaining as int, diff.atomics as int, scale());
            lemma_ratio_le(stream.in_supply as int, diff.atomics as int, scale());
        }
        let released = match multiply_ratio(stream.out_remaining, diff.atomics, 1_000_000_000_000_000_000u128) {
            Ok(v) => v,
            Err(e) => return Err(e),
        };
        let spent = match multiply_ratio(stream.in_supply, diff.atomics, 1_000_000_000_000_000_000u128) {
            Ok(v) => v,
            Err(e) => return Err(e),
        };
        spent_in = match spent_in.checked_add(spent) {
            Some(v) => v,
            None => return Err(ContractError::Overflow),
        };
        in_supply = in_supply - spent;
        if released != 0 {
            out_remaining = out_remaining - released;
            let increase = match WideDecimal::from_ratio(released, stream.shares) {
                Ok(v) => v,
                Err(e) => return Err(e),
            };
            proof {
                crate::math::lemma_ratio_fits_wide(released as int, stream.shares as int);
                lemma_wide_val(ratio(released as int, scale(), stream.shares as int));
            }
            dist_index = match dist_index.checked_add(increase) {
                Ok(v) => v,
                Err(e) => return Err(e),
            };
            price = match WideDecimal::from_ratio(spent, released) {
                Ok(v) => v,
                Err(e) => return Err(e),
            };
        }
    }
    stream.spent_in = spent_in;
    stream.in_supply = in_supply;
    stream.out_remaining = out_remaining;
    stream.dist_index = dist_index;
    stream.current_streamed_price = price;
    stream.status_info.last_updated = now;
    Ok(())
}

/// Protocol settings of the stream controller.
#[derive(Clone, Debug, PartialEq, Eq)]
pub struct Params {
    pub protocol_admin: String,
    pub fee_collector: String,
    pub stream_creation_fee: Coin,
    pub exit_fee_percent: Decimal,
    pub stream_contract_code_id: u64,
    pub vesting_code_id: u64,
    pub accepted_in_denoms: Vec<String>,
    /// Minimum of `end_time - start_time`, in seconds.
    pub min_stream_duration: u64,
    /// Minimum of `start_time - bootstrapping_start_time`, in seconds.
    pub min_bootstrapping_duration: u64,
    /// Minimum of `bootstrapping_start_time - creation time`, in seconds.
    pub min_waiting_duration: u64,
}

/// Whole seconds of a time given in nanoseconds.
pub open spec fn secs(nanos: u64) -> int {
    nanos as int / 1_000_000_000int
}

/// The verdict on the times of a new stream with a bootstrapping period, created at `now`.
pub open spec fn stream_times_verdict(
    now: u64,
    bootstrapping_start_time: u64,
    start_time: u64,
    end_time: u64,
    params: Params,
) -> Result<(), ContractError> {
    if now > bootstrapping_start_time {
        Err(ContractError::StreamInvalidBootstrappingStartTime)
    } else if bootstrapping_start_time > start_time {
        Err(ContractError::StreamInvalidBootstrappingStartTime)
    } else if start_time > end_time {
        Err(ContractError::StreamInvalidEndTime)
    } else if secs(end_time) - secs(start_time) < params.min_stream_duration {
        Err(ContractError::StreamDurationTooShort)
    } else if secs(start_time) - secs(bootstrapping_start_time) < params.min_bootstrapping_duration {
        Err(ContractError::StreamBootstrappingDurationTooShort)
    } else if secs(bootstrapping_start_time) - secs(now) < params.min_waiting_duration {
        Err(ContractError::StreamWaitingDurationTooShort)
    } else {
        Ok(())
    }
}

/// Checks that the waiting, bootstrapping and active periods of a new stream are in order and
/// long enough.
pub fn validate_stream_times(
    now: u64,
    bootstrapping_start_time: u64,
    start_time: u64,
    end_time: u64,
    params: &Params,
) -> (r: Result<(), ContractError>)
    ensures
        r == stream_times_verdict(now, bootstrapping_start_time, start_time, end_time, *params),
{
    if now > bootstrapping_start_time {
        return Err(ContractError::StreamInvalidBootstrappingStartTime);
    }
    if bootstrapping_start_time > start_time {
        return Err(ContractError::StreamInvalidBootstrappingStartTime);
    }
    if start_time > end_time {
        return Err(ContractError::StreamInvalidEndTime);
    }
    let second: u64 = 1_000_000_000;
    if end_time / second - start_time / second < params.min_stream_duration {
        return Err(ContractError::StreamDurationTooShort);
    }
    if start_time / second - bootstrapping_start_time / second < params.min_bootstrapping_duration {
        return Err(ContractError::StreamBootstrappingDurationTooShort);
    }
    if bootstrapping_start_time / second - now / second < params.min_waiting_duration {
        return Err(ContractError::StreamWaitingDurationTooShort);
    }
    Ok(())
}

/// In tokens put in a new pool next to `pool_out_amount` out tokens: the creator's revenue in the
/// proportion of the pool's out tokens to the stream's (a decimal, rounded down), rounded down.
pub open spec fn clp_in_amount(out_amount: u128, pool_out_amount: u128, creators_revenue: u128) -> Result<
    u128,
    ContractError,
> {
    let pool_ratio = ratio(pool_out_amount as int, scale(), out_amount as int);
    if pool_ratio > u128::MAX || (pool_ratio * creators_revenue) / scale() > u128::MAX {
        Err(ContractError::Overflow)
    } else {
        Ok(((pool_ratio * creators_revenue) / scale()) as u128)
    }
}

/// Amount of in tokens allocated to the pool created at the end of a stream.
pub fn calculate_in_amount_clp(out_amount: u128, pool_out_amount: u128, creators_revenue: u128) -> (r:
    Result<u128, ContractError>)
    requires
        out_amount != 0,
    ensures
        r == clp_in_amount(out_amount, pool_out_amount, creators_revenue),
{
    let pool_ratio = match Decimal::from_ratio(pool_out_amount, out_amount) {
        Ok(d) => d,
        Err(e) => return Err(e),
    };
    proof {
        assert(creators_revenue * pool_ratio.atomics == pool_ratio.atomics * creators_revenue)
            by (nonlinear_arith);
    }
    crate::math::multiply_ratio(creators_revenue, pool_ratio.atomics, crate::math::DECIMAL_FRACTIONAL)
}

/// Configuration of the pool created with part of the proceeds when a stream ends.
#[derive(Clone, Debug, PartialEq, Eq)]
pub enum PoolConfig {
    ConcentratedLiquidity { out_amount_clp: u128 },
}

/// Shape of a vesting schedule.
#[derive(Clone, Debug, PartialEq, Eq)]
pub enum VestingSchedule {
    SaturatingLinear,
    PiecewiseLinear(Vec<(u64, u128)>),
}

/// Configuration of the vesting contracts that hold what a stream pays out.
#[derive(Clone, Debug, PartialEq, Eq)]
pub struct VestingConfig {
    pub schedule: VestingSchedule,
    pub vesting_duration_seconds: u64,
    pub unbonding_duration_seconds: u64,
}

/// What is done with a stream's proceeds once it ends.
#[derive(Clone, Debug, PartialEq, Eq)]
pub struct PostStreamActions {
    /// Pool created with part of the proceeds.
    pub pool_config: Option<PoolConfig>,
    /// Vesting of the subscribers' out tokens.
    pub subscriber_vesting: Option<VestingConfig>,
    /// Vesting of the creator's revenue.
    pub creator_vesting: Option<VestingConfig>,
}

impl PostStreamActions {
    pub fn new(
        pool_config: Option<PoolConfig>,
        subscriber_vesting: Option<VestingConfig>,
        creator_vesting: Option<VestingConfig>,
    ) -> (p: PostStreamActions)
        ensures
            p == (PostStreamActions { pool_config, subscriber_vesting, creator_vesting }),
    {
        PostStreamActions { pool_config, subscriber_vesting, creator_vesting }
    }
}

/// Who runs a stream and where its proceeds go.
#[derive(Clone, Debug, PartialEq, Eq)]
pub struct StreamInfo {
    pub stream_admin: String,
    pub name: String,
    pub treasury: String,
    pub url: Option<String>,
}

impl StreamInfo {
    pub fn new(stream_admin: String, name: String, treasury: String, url: Option<String>) -> (i:
        StreamInfo)
        ensures
            i == (StreamInfo { stream_admin, name, treasury, url }),
    {
        StreamInfo { stream_admin, name, treasury, url }
    }
}

} // verus!
