use crate::error::ContractError;
use crate::msg::{
    AveragePriceResponse, ConfigResponse, InstantiateMsg, LatestStreamedPriceResponse,
    PositionResponse, StreamResponse,
};
use crate::helpers::{check_name_and_url, name_and_url_verdict};
use crate::math::{ratio, scale, wide, Decimal, WideDecimal};
use crate::payment::{must_pay, paid_amount, payment_refusal};
use crate::state::{next_stream_id, BankSend, Coin, Config, Position, Status, Stream};
pub use crate::stream_math::{calculate_diff, update_position, update_stream};
use crate::stream_math::{
    position_flows, spec_diff, stream_flows, update_position_fails, update_stream_overflows,
    updated_position, updated_stream,
};
use crate::threshold::{threshold_not_reached, ThresholdState};
use vstd::prelude::*;

verus! {

/// Whether `sender` may act on a position: it is its owner or its operator.
pub open spec fn has_access(sender: Seq<char>, owner: Seq<char>, operator: Option<String>) -> bool {
    owner == sender || (operator matches Some(o) && o@ == sender)
}

/// Refuses a sender that is neither the owner nor the operator of a position.
pub fn check_access(sender: &String, position_owner: &String, position_operator: &Option<String>) -> (r:
    Result<(), ContractError>)
    ensures
        has_access(sender@, position_owner@, *position_operator) ==> r == Ok::<(), ContractError>(
            (),
        ),
        !has_access(sender@, position_owner@, *position_operator) ==> r == Err::<
            (),
            ContractError,
        >(ContractError::Unauthorized),
{
    if *position_owner == *sender {
        return Ok(());
    }
    match position_operator {
        Some(o) => {
            if *o == *sender {
                Ok(())
            } else {
                Err(ContractError::Unauthorized)
            }
        },
        None => Err(ContractError::Unauthorized),
    }
}

/// The fee kept out of `amount` at the rate `fee`, rounded down: `amount * fee`, computed wide
/// enough that only a fee beyond 128 bits (a rate above one) is an error.
pub open spec fn spec_fee(amount: u128, fee: Decimal) -> Result<u128, ContractError> {
    if (amount * fee.atomics) / scale() > u128::MAX {
        Err(ContractError::Overflow)
    } else {
        Ok(((amount * fee.atomics) / scale()) as u128)
    }
}

pub(crate) fn fee_amount(amount: u128, fee: Decimal) -> (r: Result<u128, ContractError>)
    ensures
        r == spec_fee(amount, fee),
{
    crate::math::multiply_ratio(amount, fee.atomics, crate::math::DECIMAL_FRACTIONAL)
}

/// The configuration that instantiation stores: the exit fee must be below one and the
/// creation fee above zero.
pub fn instantiate(msg: InstantiateMsg) -> (r: Result<Config, ContractError>)
    ensures
        msg.exit_fee_percent.atomics >= scale() ==> r == Err::<Config, ContractError>(
            ContractError::InvalidExitFeePercent,
        ),
        msg.exit_fee_percent.atomics < scale() && msg.stream_creation_fee == 0 ==> r == Err::<
            Config,
            ContractError,
        >(ContractError::InvalidStreamCreationFee),
        msg.exit_fee_percent.atomics < scale() && msg.stream_creation_fee != 0 ==> r == Ok::<
            Config,
            ContractError,
        >(
            Config {
                min_stream_seconds: msg.min_stream_seconds,
                min_seconds_until_start_time: msg.min_seconds_until_start_time,
                accepted_in_denom: msg.accepted_in_denom,
                stream_creation_denom: msg.stream_creation_denom,
                stream_creation_fee: msg.stream_creation_fee,
                exit_fee_percent: msg.exit_fee_percent,
                fee_collector: msg.fee_collector,
                protocol_admin: msg.protocol_admin,
            },
        ),
{
    if msg.exit_fee_percent.atomics >= crate::math::DECIMAL_FRACTIONAL {
        return Err(ContractError::InvalidExitFeePercent);
    }
    if msg.stream_creation_fee == 0 {
        return Err(ContractError::InvalidStreamCreationFee);
    }
    Ok(
        Config {
            min_stream_seconds: msg.min_stream_seconds,
            min_seconds_until_start_time: msg.min_seconds_until_start_time,
            accepted_in_denom: msg.accepted_in_denom,
            stream_creation_denom: msg.stream_creation_denom,
            stream_creation_fee: msg.stream_creation_fee,
            exit_fee_percent: msg.exit_fee_percent,
            fee_collector: msg.fee_collector,
            protocol_admin: msg.protocol_admin,
        },
    )
}

/// Nanoseconds in a second.
pub const NANOS_PER_SECOND: u64 = 1_000_000_000u64;

/// Whole seconds of a time given in nanoseconds.
pub open spec fn seconds(nanos: u64) -> int {
    nanos as int / 1_000_000_000int
}

/// The amount of the first coin of `denom` among `funds`, if any.
pub open spec fn first_amount(funds: Seq<Coin>, denom: Seq<char>) -> Option<u128>
    decreases funds.len(),
{
    if funds.len() == 0 {
        None
    } else if funds[0].denom@ == denom {
        Some(funds[0].amount)
    } else {
        first_amount(funds.drop_first(), denom)
    }
}

fn find_amount(funds: &Vec<Coin>, denom: &String) -> (r: Option<u128>)
    ensures
        r == first_amount(funds@, denom@),
{
    let mut i: usize = 0;
    assert(funds@.skip(0) =~= funds@);
    while i < funds.len()
        invariant
            i <= funds.len(),
            first_amount(funds@, denom@) == first_amount(funds@.skip(i as int), denom@),
        decreases funds.len() - i,
    {
        assert(funds@.skip(i as int).drop_first() =~= funds@.skip(i + 1));
        if funds[i].denom == *denom {
            return Some(funds[i].amount);
        }
        i = i + 1;
    }
    None
}

/// Whether some coin among `funds` is of neither denom.
pub open spec fn has_other_denom(funds: Seq<Coin>, a: Seq<char>, b: Seq<char>) -> bool {
    exists|i: int| 0 <= i < funds.len() && #[trigger] funds[i].denom@ != a && funds[i].denom@ != b
}

fn any_other_denom(funds: &Vec<Coin>, a: &String, b: &String) -> (r: bool)
    ensures
        r == has_other_denom(funds@, a@, b@),
{
    let mut i: usize = 0;
    while i < funds.len()
        invariant
            i <= funds.len(),
            forall|j: int| 0 <= j < i ==> !(#[trigger] funds@[j].denom@ != a@ && funds@[j].denom@ != b@),
        decreases funds.len() - i,
    {
        if funds[i].denom != *a && funds[i].denom != *b {
            return true;
        }
        i = i + 1;
    }
    false
}

/// The verdict on the funds sent to create a stream: the out supply, and the creation fee
/// (added to the out supply when the out token is the fee's denom), and nothing else.
pub open spec fn creation_funds_verdict(
    funds: Seq<Coin>,
    out_denom: Seq<char>,
    out_supply: u128,
    fee_denom: Seq<char>,
    fee: u128,
) -> Result<(), ContractError> {
    if out_denom == fee_denom {
        match first_amount(funds, fee_denom) {
            None => Err(ContractError::NoFundsSent),
            Some(a) => if a != fee + out_supply {
                Err(ContractError::StreamOutSupplyFundsRequired)
            } else if has_other_denom(funds, out_denom, out_denom) {
                Err(ContractError::InvalidFunds)
            } else {
                Ok(())
            },
        }
    } else {
        match first_amount(funds, out_denom) {
            None => Err(ContractError::NoFundsSent),
            Some(a) => if a != out_supply {
                Err(ContractError::StreamOutSupplyFundsRequired)
            } else {
                match first_amount(funds, fee_denom) {
                    None => Err(ContractError::NoFundsSent),
                    Some(f) => if f != fee {
                        Err(ContractError::StreamCreationFeeRequired)
                    } else if has_other_denom(funds, out_denom, fee_denom) {
                        Err(ContractError::InvalidFunds)
                    } else {
                        Ok(())
                    },
                }
            },
        }
    }
}

fn check_creation_funds(
    funds: &Vec<Coin>,
    out_denom: &String,
    out_supply: u128,
    fee_denom: &String,
    fee: u128,
) -> (r: Result<(), ContractError>)
    ensures
        r == creation_funds_verdict(funds@, out_denom@, out_supply, fee_denom@, fee),
{
    if *out_denom == *fee_denom {
        match find_amount(funds, fee_denom) {
            None => Err(ContractError::NoFundsSent),
            Some(a) => {
                let matches = match fee.checked_add(out_supply) {
                    Some(total) => a == total,
                    None => false,
                };
                if !matches {
                    return Err(ContractError::StreamOutSupplyFundsRequired);
                }
                if any_other_denom(funds, out_denom, out_denom) {
                    return Err(ContractError::InvalidFunds);
                }
                Ok(())
            },
        }
    } else {
        match find_amount(funds, out_denom) {
            None => Err(ContractError::NoFundsSent),
            Some(a) => {
                if a != out_supply {
                    return Err(ContractError::StreamOutSupplyFundsRequired);
                }
                match find_amount(funds, fee_denom) {
                    None => Err(ContractError::NoFundsSent),
                    Some(f) => {
                        if f != fee {
                            return Err(ContractError::StreamCreationFeeRequired);
                        }
                        if any_other_denom(funds, out_denom, fee_denom) {
                            return Err(ContractError::InvalidFunds);
                        }
                        Ok(())
                    },
                }
            },
        }
    }
}

/// The verdict on the times of a new stream created at `now` (all in nanoseconds).
pub open spec fn stream_times_verdict(config: Config, now: u64, start_time: u64, end_time: u64) -> Result<
    (),
    ContractError,
> {
    if end_time < start_time {
        Err(ContractError::StreamInvalidEndTime)
    } else if now > start_time {
        Err(ContractError::StreamInvalidStartTime)
    } else if seconds(end_time) - seconds(start_time) < config.min_stream_seconds {
        Err(ContractError::StreamDurationTooShort)
    } else if seconds(start_time) - seconds(now) < config.min_seconds_until_start_time {
        Err(ContractError::StreamStartsTooSoon)
    } else {
        Ok(())
    }
}

/// What a request to create a stream is answered, before the threshold is recorded: the new
/// stream, or the first check that fails.
pub open spec fn creation_verdict(
    config: Config,
    now: u64,
    funds: Seq<Coin>,
    name: Seq<char>,
    url: Option<Seq<char>>,
    in_denom: Seq<char>,
    out_denom: Seq<char>,
    out_supply: u128,
    start_time: u64,
    end_time: u64,
) -> Result<(), ContractError> {
    if stream_times_verdict(config, now, start_time, end_time) is Err {
        stream_times_verdict(config, now, start_time, end_time)
    } else if in_denom != config.accepted_in_denom@ {
        Err(ContractError::InDenomIsNotAccepted)
    } else if in_denom == out_denom {
        Err(ContractError::SameDenomOnEachSide)
    } else if out_supply < 1 {
        Err(ContractError::ZeroOutSupply)
    } else if creation_funds_verdict(
        funds,
        out_denom,
        out_supply,
        config.stream_creation_denom@,
        config.stream_creation_fee,
    ) is Err {
        creation_funds_verdict(
            funds,
            out_denom,
            out_supply,
            config.stream_creation_denom@,
            config.stream_creation_fee,
        )
    } else {
        name_and_url_verdict(name, url)
    }
}

/// Creates a stream: checks its times against the configuration, the denoms, the funds sent
/// (the out supply and the creation fee) and its name and url, then gives it the next
/// identifier and records its threshold, if any. Returns the identifier and the stream.
#[allow(clippy::too_many_arguments)]
pub fn execute_create_stream(
    config: &Config,
    now: u64,
    funds: &Vec<Coin>,
    treasury: String,
    name: String,
    url: Option<String>,
    in_denom: String,
    out_denom: String,
    out_supply: u128,
    start_time: u64,
    end_time: u64,
    threshold: Option<u128>,
    last_stream_id: Option<u64>,
    thresholds: &mut ThresholdState,
) -> (r: Result<(u64, Stream), ContractError>)
    ensures
        ({
            let verdict = creation_verdict(
                *config,
                now,
                funds@,
                name@,
                match url {
                    Some(u) => Some(u@),
                    None => None,
                },
                in_denom@,
                out_denom@,
                out_supply,
                start_time,
                end_time,
            );
            let id: u64 = match last_stream_id {
                Some(l) => (l + 1) as u64,
                None => 1,
            };
            if verdict is Err {
                &&& r == Err::<(u64, Stream), ContractError>(verdict->Err_0)
                &&& final(thresholds)@ == old(thresholds)@
            } else if last_stream_id == Some(u64::MAX) {
                &&& r == Err::<(u64, Stream), ContractError>(ContractError::Overflow)
                &&& final(thresholds)@ == old(thresholds)@
            } else if threshold == Some(0u128) {
                &&& r == Err::<(u64, Stream), ContractError>(
                    ContractError::ThresholdError(crate::error::ThresholdError::ThresholdZero),
                )
                &&& final(thresholds)@ == old(thresholds)@
            } else {
                &&& r matches Ok((rid, s))
                &&& rid == id
                &&& s == Stream {
                    name,
                    treasury,
                    url,
                    dist_index: wide(0),
                    last_updated: start_time,
                    out_denom,
                    out_supply,
                    out_remaining: out_supply,
                    in_denom,
                    in_supply: 0,
                    spent_in: 0,
                    shares: 0,
                    start_time,
                    end_time,
                    current_streamed_price: wide(0),
                    status: Status::Waiting,
                    pause_date: None,
                    stream_creation_denom: config.stream_creation_denom,
                    stream_creation_fee: config.stream_creation_fee,
                    stream_exit_fee_percent: config.exit_fee_percent,
                }
                &&& final(thresholds)@ == match threshold {
                    Some(t) => old(thresholds)@.insert(id, t),
                    None => old(thresholds)@,
                }
            }
        }),
{
    if end_time < start_time {
        return Err(ContractError::StreamInvalidEndTime);
    }
    if now > start_time {
        return Err(ContractError::StreamInvalidStartTime);
    }
    if end_time / NANOS_PER_SECOND - start_time / NANOS_PER_SECOND < config.min_stream_seconds {
        return Err(ContractError::StreamDurationTooShort);
    }
    if start_time / NANOS_PER_SECOND - now / NANOS_PER_SECOND < config.min_seconds_until_start_time {
        return Err(ContractError::StreamStartsTooSoon);
    }
    if in_denom != config.accepted_in_denom {
        return Err(ContractError::InDenomIsNotAccepted);
    }
    if in_denom == out_denom {
        return Err(ContractError::SameDenomOnEachSide);
    }
    if out_supply < 1 {
        return Err(ContractError::ZeroOutSupply);
    }
    match check_creation_funds(
        funds,
        &out_denom,
        out_supply,
        &config.stream_creation_denom,
        config.stream_creation_fee,
    ) {
        Ok(()) => {},
        Err(e) => return Err(e),
    }
    match check_name_and_url(&name, &url) {
        Ok(()) => {},
        Err(e) => return Err(e),
    }
    let stream = Stream::new(
        name,
        treasury,
        url,
        out_denom,
        out_supply,
        in_denom,
        start_time,
        end_time,
        start_time,
        config.stream_creation_denom.clone(),
        config.stream_creation_fee,
        config.exit_fee_percent,
    );
    let id = match next_stream_id(last_stream_id) {
        Ok(id) => id,
        Err(e) => return Err(e),
    };
    match thresholds.set_threshold_if_any(threshold, id) {
        Ok(()) => {},
        Err(e) => return Err(ContractError::ThresholdError(e)),
    }
    Ok((id, stream))
}


/// Hands the protocol admin role to `new_admin`; only the current admin may.
pub fn execute_update_protocol_admin(config: &mut Config, sender: &String, new_admin: String) -> (r:
    Result<(), ContractError>)
    ensures
        sender@ != old(config).protocol_admin@ ==> r == Err::<(), ContractError>(
            ContractError::Unauthorized,
        ) && *final(config) == *old(config),
        sender@ == old(config).protocol_admin@ ==> r == Ok::<(), ContractError>(())
            && *final(config) == (Config { protocol_admin: new_admin, ..*old(config) }),
{
    if *sender != config.protocol_admin {
        return Err(ContractError::Unauthorized);
    }
    config.protocol_admin = new_admin;
    Ok(())
}

/// Updates the protocol settings that are given; only the protocol admin may. A zero creation
/// fee and an exit fee of one or more are refused.
#[allow(clippy::too_many_arguments)]
pub fn execute_update_config(
    config: &mut Config,
    sender: &String,
    min_stream_duration: Option<u64>,
    min_duration_until_start_time: Option<u64>,
    stream_creation_denom: Option<String>,
    stream_creation_fee: Option<u128>,
    fee_collector: Option<String>,
    accepted_in_denom: Option<String>,
    exit_fee_percent: Option<Decimal>,
) -> (r: Result<(), ContractError>)
    ensures
        sender@ != old(config).protocol_admin@ ==> r == Err::<(), ContractError>(
            ContractError::Unauthorized,
        ) && *final(config) == *old(config),
        sender@ == old(config).protocol_admin@ && stream_creation_fee == Some(0u128) ==> r == Err::<
            (),
            ContractError,
        >(ContractError::InvalidStreamCreationFee) && *final(config) == *old(config),
        sender@ == old(config).protocol_admin@ && stream_creation_fee != Some(0u128) && (
        exit_fee_percent matches Some(f) && f.atomics >= scale()) ==> r == Err::<
            (),
            ContractError,
        >(ContractError::InvalidExitFeePercent) && *final(config) == *old(config),
        sender@ == old(config).protocol_admin@ && stream_creation_fee != Some(0u128) && !(
        exit_fee_percent matches Some(f) && f.atomics >= scale()) ==> r == Ok::<(), ContractError>(
            (),
        ) && *final(config) == (Config {
            min_stream_seconds: match min_stream_duration {
                Some(v) => v,
                None => old(config).min_stream_seconds,
            },
            min_seconds_until_start_time: match min_duration_until_start_time {
                Some(v) => v,
                None => old(config).min_seconds_until_start_time,
            },
            stream_creation_denom: match stream_creation_denom {
                Some(v) => v,
                None => old(config).stream_creation_denom,
            },
            stream_creation_fee: match stream_creation_fee {
                Some(v) => v,
                None => old(config).stream_creation_fee,
            },
            accepted_in_denom: match accepted_in_denom {
                Some(v) => v,
                None => old(config).accepted_in_denom,
            },
            fee_collector: match fee_collector {
                Some(v) => v,
                None => old(config).fee_collector,
            },
            exit_fee_percent: match exit_fee_percent {
                Some(v) => v,
                None => old(config).exit_fee_percent,
            },
            protocol_admin: old(config).protocol_admin,
        }),
{
    if *sender != config.protocol_admin {
        return Err(ContractError::Unauthorized);
    }
    if let Some(fee) = stream_creation_fee {
        if fee == 0 {
            return Err(ContractError::InvalidStreamCreationFee);
        }
    }
    if let Some(f) = exit_fee_percent {
        if f.atomics >= crate::math::DECIMAL_FRACTIONAL {
            return Err(ContractError::InvalidExitFeePercent);
        }
    }
    if let Some(v) = min_stream_duration {
        config.min_stream_seconds = v;
    }
    if let Some(v) = min_duration_until_start_time {
        config.min_seconds_until_start_time = v;
    }
    if let Some(v) = stream_creation_denom {
        config.stream_creation_denom = v;
    }
    if let Some(v) = stream_creation_fee {
        config.stream_creation_fee = v;
    }
    if let Some(v) = accepted_in_denom {
        config.accepted_in_denom = v;
    }
    if let Some(v) = fee_collector {
        config.fee_collector = v;
    }
    if let Some(v) = exit_fee_percent {
        config.exit_fee_percent = v;
    }
    Ok(())
}

/// Brings a stream up to `now` unless it is paused. Returns the stream, the elapsed share of the
/// time that was left, and the out tokens released.
pub fn execute_update_stream(stream: Stream, now: u64) -> (r: Result<
    (Stream, Decimal, u128),
    ContractError,
>)
    ensures
        stream.status == Status::Paused ==> r == Err::<(Stream, Decimal, u128), ContractError>(
            ContractError::StreamPaused,
        ),
        stream.status != Status::Paused && update_stream_overflows(stream, now) ==> r == Err::<
            (Stream, Decimal, u128),
            ContractError,
        >(ContractError::Overflow),
        stream.status != Status::Paused && !update_stream_overflows(stream, now) ==> r == Ok::<
            (Stream, Decimal, u128),
            ContractError,
        >(
            (
                updated_stream(stream, now),
                Decimal { atomics: spec_diff(stream.end_time, stream.last_updated, now) as u128 },
                stream_flows(stream, now).0 as u128,
            ),
        ),
{
    let mut stream = stream;
    if stream.is_paused() {
        return Err(ContractError::StreamPaused);
    }
    match update_stream(now, &mut stream) {
        Ok((diff, released)) => Ok((stream, diff, released)),
        Err(e) => Err(e),
    }
}

/// What a request to bring a position up to date is answered: the stream and the position
/// brought up to `now`, the whole out tokens bought and the in tokens spent.
pub open spec fn update_position_verdict(stream: Stream, position: Position, now: u64, sender: Seq<char>) -> Result<
    (Stream, Position, u128, u128),
    ContractError,
> {
    if !has_access(sender, position.owner@, position.operator) {
        Err(ContractError::Unauthorized)
    } else if stream.status == Status::Paused {
        Err(ContractError::StreamPaused)
    } else if update_stream_overflows(stream, now) {
        Err(ContractError::Overflow)
    } else {
        let s = updated_stream(stream, now);
        if update_position_fails(s.dist_index, s.shares, s.in_supply, position) {
            Err(ContractError::Overflow)
        } else {
            let flows = position_flows(s.dist_index, s.shares, s.in_supply, position);
            Ok(
                (
                    s,
                    updated_position(s.dist_index, s.shares, s.last_updated, s.in_supply, position),
                    flows.0 as u128,
                    flows.1 as u128,
                ),
            )
        }
    }
}

/// Brings a stream and one of its positions up to `now`, on behalf of the position's owner or
/// operator.
pub fn execute_update_position(stream: Stream, position: Position, now: u64, sender: &String) -> (r:
    Result<(Stream, Position, u128, u128), ContractError>)
    ensures
        r == update_position_verdict(stream, position, now, sender@),
{
    let mut stream = stream;
    let mut position = position;
    match check_access(sender, &position.owner, &position.operator) {
        Ok(()) => {},
        Err(e) => return Err(e),
    }
    if stream.is_paused() {
        return Err(ContractError::StreamPaused);
    }
    match update_stream(now, &mut stream) {
        Ok(_) => {},
        Err(e) => return Err(e),
    }
    match update_position(
        stream.dist_index,
        stream.shares,
        stream.last_updated,
        stream.in_supply,
        &mut position,
    ) {
        Ok((purchased, spent)) => Ok((stream, position, purchased, spent)),
        Err(e) => Err(e),
    }
}

/// The shares for `amount` on a stream, an error where they cannot be computed: a division by a
/// zero in supply while the stream has shares, or a result beyond 128 bits.
pub open spec fn spec_new_shares(stream: Stream, amount: u128, round_up: bool) -> Result<u128, ContractError> {
    if !stream.shares_computable(amount) {
        Err(ContractError::DivideByZeroError)
    } else {
        stream.spec_shares_amount(amount, round_up)
    }
}

fn new_shares(stream: &Stream, amount: u128, round_up: bool) -> (r: Result<u128, ContractError>)
    ensures
        r == spec_new_shares(*stream, amount, round_up),
{
    if stream.shares != 0 && amount != 0 && stream.in_supply == 0 {
        return Err(ContractError::DivideByZeroError);
    }
    stream.compute_shares_amount(amount, round_up)
}

/// The position and the stream once `amount` in tokens, worth `shares`, are added to them.
pub open spec fn deposit_verdict(stream: Stream, position: Position, amount: u128, shares: u128) -> Result<
    (Stream, Position),
    ContractError,
> {
    if position.in_balance + amount > u128::MAX || position.shares + shares > u128::MAX
        || stream.in_supply + amount > u128::MAX || stream.shares + shares > u128::MAX {
        Err(ContractError::Overflow)
    } else {
        Ok(
            (
                Stream {
                    in_supply: (stream.in_supply + amount) as u128,
                    shares: (stream.shares + shares) as u128,
                    ..stream
                },
                Position {
                    in_balance: (position.in_balance + amount) as u128,
                    shares: (position.shares + shares) as u128,
                    ..position
                },
            ),
        )
    }
}

fn deposit(stream: Stream, position: Position, amount: u128, shares: u128) -> (r: Result<
    (Stream, Position),
    ContractError,
>)
    ensures
        r == deposit_verdict(stream, position, amount, shares),
{
    let mut stream = stream;
    let mut position = position;
    let in_balance = match position.in_balance.checked_add(amount) {
        Some(v) => v,
        None => return Err(ContractError::Overflow),
    };
    let position_shares = match position.shares.checked_add(shares) {
        Some(v) => v,
        None => return Err(ContractError::Overflow),
    };
    let in_supply = match stream.in_supply.checked_add(amount) {
        Some(v) => v,
        None => return Err(ContractError::Overflow),
    };
    let stream_shares = match stream.shares.checked_add(shares) {
        Some(v) => v,
        None => return Err(ContractError::Overflow),
    };
    position.in_balance = in_balance;
    position.shares = position_shares;
    stream.in_supply = in_supply;
    stream.shares = stream_shares;
    Ok((stream, position))
}

/// A new position of `amount` in tokens worth `shares`, at the index of the stream.
pub open spec fn fresh_position(
    owner: String,
    amount: u128,
    shares: u128,
    index: WideDecimal,
    now: u64,
    operator: Option<String>,
) -> Position {
    Position {
        owner,
        in_balance: amount,
        shares,
        index,
        last_updated: now,
        purchased: 0,
        pending_purchase: wide(0),
        spent: 0,
        operator,
    }
}

/// Whether a subscription to a running stream is refused for its payment.
pub open spec fn subscribe_payment_refused(stream: Stream, now: u64, funds: Seq<Coin>) -> bool {
    !(stream.status == Status::Cancelled || stream.status == Status::Paused) && now
        < stream.end_time && paid_amount(funds, stream.in_denom@) is None
}

/// What a subscription to a stream that has started is answered, when its payment is accepted:
/// the stream brought up to `now` with the deposit added, and the new or updated position.
pub open spec fn subscribe_verdict(
    stream: Stream,
    position: Option<Position>,
    now: u64,
    sender: String,
    funds: Seq<Coin>,
    operator: Option<String>,
    operator_target: Seq<char>,
) -> Result<(Stream, Position), ContractError> {
    if stream.status == Status::Cancelled || stream.status == Status::Paused {
        Err(ContractError::StreamKillswitchActive)
    } else if now >= stream.end_time {
        Err(ContractError::StreamEnded)
    } else {
        let s0 = if stream.status == Status::Waiting {
            Stream { status: Status::Active, ..stream }
        } else {
            stream
        };
        let amount = paid_amount(funds, stream.in_denom@)->Some_0;
        match position {
            None => if operator_target != sender@ {
                Err(ContractError::Unauthorized)
            } else if update_stream_overflows(s0, now) {
                Err(ContractError::Overflow)
            } else {
                let s1 = updated_stream(s0, now);
                match spec_new_shares(s1, amount, false) {
                    Err(e) => Err(e),
                    Ok(sh) => if s1.in_supply + amount > u128::MAX || s1.shares + sh > u128::MAX {
                        Err(ContractError::Overflow)
                    } else {
                        Ok(
                            (
                                Stream {
                                    in_supply: (s1.in_supply + amount) as u128,
                                    shares: (s1.shares + sh) as u128,
                                    ..s1
                                },
                                fresh_position(sender, amount, sh, s1.dist_index, now, operator),
                            ),
                        )
                    },
                }
            },
            Some(p) => if !has_access(sender@, p.owner@, p.operator) {
                Err(ContractError::Unauthorized)
            } else if update_stream_overflows(s0, now) {
                Err(ContractError::Overflow)
            } else {
                let s1 = updated_stream(s0, now);
                match spec_new_shares(s1, amount, false) {
                    Err(e) => Err(e),
                    Ok(sh) => if update_position_fails(s1.dist_index, s1.shares, s1.in_supply, p) {
                        Err(ContractError::Overflow)
                    } else {
                        deposit_verdict(
                            s1,
                            updated_position(s1.dist_index, s1.shares, s1.last_updated, s1.in_supply, p),
                            amount,
                            sh,
                        )
                    },
                }
            },
        }
    }
}

/// Whether `r` answers a subscription to a stream that has started: a payment that is not one
/// coin of the in denom is refused as `must_pay` refuses it; otherwise the answer is
/// `subscribe_verdict`, with the amount deposited.
pub open spec fn answers_subscribe(
    r: Result<(Stream, Position, u128), ContractError>,
    stream: Stream,
    position: Option<Position>,
    now: u64,
    sender: String,
    funds: Seq<Coin>,
    operator: Option<String>,
    operator_target: Seq<char>,
) -> bool {
    if subscribe_payment_refused(stream, now, funds) {
        r matches Err(ContractError::Payment(e)) && payment_refusal(e, funds, stream.in_denom@)
    } else {
        match subscribe_verdict(stream, position, now, sender, funds, operator, operator_target) {
            Ok((s, p)) => r == Ok::<(Stream, Position, u128), ContractError>(
                (s, p, paid_amount(funds, stream.in_denom@)->Some_0),
            ),
            Err(e) => r == Err::<(Stream, Position, u128), ContractError>(e),
        }
    }
}

/// Subscribes `funds` (one coin of the in denom) to a stream that has started: the stream is
/// brought up to `now` first so that the deposit takes no part in what was already distributed,
/// then the deposit mints shares in proportion to the in supply. A new position may be opened
/// only by its owner; an existing one by its owner or operator. Returns the stream, the position
/// and the amount deposited.
#[allow(clippy::too_many_arguments)]
pub fn execute_subscribe(
    stream: Stream,
    position: Option<Position>,
    now: u64,
    sender: &String,
    funds: &Vec<Coin>,
    operator: Option<String>,
    operator_target: &String,
) -> (r: Result<(Stream, Position, u128), ContractError>)
    ensures
        answers_subscribe(r, stream, position, now, *sender, funds@, operator, operator_target@),
{
    let mut stream = stream;
    if stream.is_killswitch_active() {
        return Err(ContractError::StreamKillswitchActive);
    }
    if now >= stream.end_time {
        return Err(ContractError::StreamEnded);
    }
    if stream.status == Status::Waiting {
        stream.status = Status::Active;
    }
    let amount = match must_pay(funds, &stream.in_denom) {
        Ok(a) => a,
        Err(e) => return Err(ContractError::Payment(e)),
    };
    match position {
        None => {
            if *operator_target != *sender {
                return Err(ContractError::Unauthorized);
            }
            match update_stream(now, &mut stream) {
                Ok(_) => {},
                Err(e) => return Err(e),
            }
            let shares = match new_shares(&stream, amount, false) {
                Ok(s) => s,
                Err(e) => return Err(e),
            };
            let in_supply = match stream.in_supply.checked_add(amount) {
                Some(v) => v,
                None => return Err(ContractError::Overflow),
            };
            let stream_shares = match stream.shares.checked_add(shares) {
                Some(v) => v,
                None => return Err(ContractError::Overflow),
            };
            let new_position = Position::new(
                sender.clone(),
                amount,
                shares,
                Some(stream.dist_index),
                now,
                operator,
            );
            stream.in_supply = in_supply;
            stream.shares = stream_shares;
            Ok((stream, new_position, amount))
        },
        Some(p) => {
            let mut p = p;
            match check_access(sender, &p.owner, &p.operator) {
                Ok(()) => {},
                Err(e) => return Err(e),
            }
            match update_stream(now, &mut stream) {
                Ok(_) => {},
                Err(e) => return Err(e),
            }
            let shares = match new_shares(&stream, amount, false) {
                Ok(s) => s,
                Err(e) => return Err(e),
            };
            match update_position(
                stream.dist_index,
                stream.shares,
                stream.last_updated,
                stream.in_supply,
                &mut p,
            ) {
                Ok(_) => {},
                Err(e) => return Err(e),
            }
            match deposit(stream, p, amount, shares) {
                Ok((s, p)) => Ok((s, p, amount)),
                Err(e) => Err(e),
            }
        },
    }
}

/// What a subscription to a stream that has not started is answered, when its payment is
/// accepted: nothing is distributed yet, so neither the stream nor the position is brought up to
/// date; the deposit is added to both.
pub open spec fn subscribe_pending_verdict(
    stream: Stream,
    position: Option<Position>,
    now: u64,
    sender: String,
    funds: Seq<Coin>,
    operator: Option<String>,
    operator_target: Seq<char>,
) -> Result<(Stream, Position), ContractError> {
    if stream.status == Status::Cancelled || stream.status == Status::Paused {
        Err(ContractError::StreamKillswitchActive)
    } else {
        let amount = paid_amount(funds, stream.in_denom@)->Some_0;
        match spec_new_shares(stream, amount, false) {
            Err(e) => Err(e),
            Ok(sh) => match position {
                None => if operator_target != sender@ {
                    Err(ContractError::Unauthorized)
                } else if stream.in_supply + amount > u128::MAX || stream.shares + sh > u128::MAX {
                    Err(ContractError::Overflow)
                } else {
                    Ok(
                        (
                            Stream {
                                in_supply: (stream.in_supply + amount) as u128,
                                shares: (stream.shares + sh) as u128,
                                ..stream
                            },
                            fresh_position(sender, amount, sh, stream.dist_index, now, operator),
                        ),
                    )
                },
                Some(p) => if !has_access(sender@, p.owner@, p.operator) {
                    Err(ContractError::Unauthorized)
                } else {
                    deposit_verdict(stream, p, amount, sh)
                },
            },
        }
    }
}

/// Whether `r` answers a subscription to a stream that has not started: a payment that is not
/// one coin of the in denom is refused as `must_pay` refuses it (unless the stream is paused or
/// cancelled); otherwise the answer is `subscribe_pending_verdict`, with the amount deposited.
pub open spec fn answers_subscribe_pending(
    r: Result<(Stream, Position, u128), ContractError>,
    stream: Stream,
    position: Option<Position>,
    now: u64,
    sender: String,
    funds: Seq<Coin>,
    operator: Option<String>,
    operator_target: Seq<char>,
) -> bool {
    if !(stream.status == Status::Cancelled || stream.status == Status::Paused) && paid_amount(
        funds,
        stream.in_denom@,
    ) is None {
        r matches Err(ContractError::Payment(e)) && payment_refusal(e, funds, stream.in_denom@)
    } else {
        match subscribe_pending_verdict(stream, position, now, sender, funds, operator, operator_target) {
            Ok((s, p)) => r == Ok::<(Stream, Position, u128), ContractError>(
                (s, p, paid_amount(funds, stream.in_denom@)->Some_0),
            ),
            Err(e) => r == Err::<(Stream, Position, u128), ContractError>(e),
        }
    }
}

/// Subscribes `funds` to a stream that has not started yet.
#[allow(clippy::too_many_arguments)]
pub fn execute_subscribe_pending(
    stream: Stream,
    position: Option<Position>,
    now: u64,
    sender: &String,
    funds: &Vec<Coin>,
    operator: Option<String>,
    operator_target: &String,
) -> (r: Result<(Stream, Position, u128), ContractError>)
    ensures
        answers_subscribe_pending(r, stream, position, now, *sender, funds@, operator, operator_target@),
{
    if stream.is_killswitch_active() {
        return Err(ContractError::StreamKillswitchActive);
    }
    let amount = match must_pay(funds, &stream.in_denom) {
        Ok(a) => a,
        Err(e) => return Err(ContractError::Payment(e)),
    };
    let shares = match new_shares(&stream, amount, false) {
        Ok(s) => s,
        Err(e) => return Err(e),
    };
    match position {
        None => {
            if *operator_target != *sender {
                return Err(ContractError::Unauthorized);
            }
            let mut stream = stream;
            let in_supply = match stream.in_supply.checked_add(amount) {
                Some(v) => v,
                None => return Err(ContractError::Overflow),
            };
            let stream_shares = match stream.shares.checked_add(shares) {
                Some(v) => v,
                None => return Err(ContractError::Overflow),
            };
            let new_position = Position::new(
                sender.clone(),
                amount,
                shares,
                Some(stream.dist_index),
                now,
                operator,
            );
            stream.in_supply = in_supply;
            stream.shares = stream_shares;
            Ok((stream, new_position, amount))
        },
        Some(p) => {
            match check_access(sender, &p.owner, &p.operator) {
                Ok(()) => {},
                Err(e) => return Err(e),
            }
            match deposit(stream, p, amount, shares) {
                Ok((s, p)) => Ok((s, p, amount)),
                Err(e) => Err(e),
            }
        },
    }
}

/// A subscription, as the contract dispatches it: to a stream that has not started yet
/// (its start time is after `now`) it is a pending subscription, otherwise a running one.
#[allow(clippy::too_many_arguments)]
pub fn dispatch_subscribe(
    stream: Stream,
    position: Option<Position>,
    now: u64,
    sender: &String,
    funds: &Vec<Coin>,
    operator: Option<String>,
    operator_target: &String,
) -> (r: Result<(Stream, Position, u128), ContractError>)
    ensures
        stream.start_time > now ==> answers_subscribe_pending(
            r,
            stream,
            position,
            now,
            *sender,
            funds@,
            operator,
            operator_target@,
        ),
        stream.start_time <= now ==> answers_subscribe(
            r,
            stream,
            position,
            now,
            *sender,
            funds@,
            operator,
            operator_target@,
        ),
{
    if stream.start_time > now {
        execute_subscribe_pending(stream, position, now, sender, funds, operator, operator_target)
    } else {
        execute_subscribe(stream, position, now, sender, funds, operator, operator_target)
    }
}

/// Sets or clears the operator of the sender's position.
pub fn execute_update_operator(position: Position, operator: Option<String>) -> (p: Position)
    ensures
        p == (Position { operator, ..position }),
{
    let mut position = position;
    position.operator = operator;
    position
}


/// The stream and the position once `cap` (all of the position's balance when absent) is taken
/// out of them: the amount must be positive and within the balance; the shares burnt are all of
/// the position's when it withdraws everything, otherwise the shares the amount is worth, rounded
/// up. Returns the stream, the position and the amount withdrawn.
pub open spec fn withdrawal_verdict(stream: Stream, position: Position, cap: Option<u128>) -> Result<
    (Stream, Position, u128),
    ContractError,
> {
    let amount = match cap {
        Some(c) => c,
        None => position.in_balance,
    };
    if amount > position.in_balance {
        Err(ContractError::WithdrawAmountExceedsBalance(amount))
    } else if amount == 0 {
        Err(ContractError::InvalidWithdrawAmount)
    } else {
        let burnt = if amount == position.in_balance {
            Ok(position.shares)
        } else {
            spec_new_shares(stream, amount, true)
        };
        match burnt {
            Err(e) => Err(e),
            Ok(sh) => if amount > stream.in_supply || sh > stream.shares || sh > position.shares {
                Err(ContractError::Overflow)
            } else {
                Ok(
                    (
                        Stream {
                            in_supply: (stream.in_supply - amount) as u128,
                            shares: (stream.shares - sh) as u128,
                            ..stream
                        },
                        Position {
                            in_balance: (position.in_balance - amount) as u128,
                            shares: (position.shares - sh) as u128,
                            ..position
                        },
                        amount,
                    ),
                )
            },
        }
    }
}

/// Takes a withdrawal out of a stream and a position.
pub fn withdrawal(stream: Stream, position: Position, cap: Option<u128>) -> (r: Result<
    (Stream, Position, u128),
    ContractError,
>)
    ensures
        r == withdrawal_verdict(stream, position, cap),
{
    let mut stream = stream;
    let mut position = position;
    let amount = match cap {
        Some(c) => c,
        None => position.in_balance,
    };
    if amount > position.in_balance {
        return Err(ContractError::WithdrawAmountExceedsBalance(amount));
    }
    if amount == 0 {
        return Err(ContractError::InvalidWithdrawAmount);
    }
    let burnt = if amount == position.in_balance {
        position.shares
    } else {
        match new_shares(&stream, amount, true) {
            Ok(s) => s,
            Err(e) => return Err(e),
        }
    };
    let in_supply = match stream.in_supply.checked_sub(amount) {
        Some(v) => v,
        None => return Err(ContractError::Overflow),
    };
    let stream_shares = match stream.shares.checked_sub(burnt) {
        Some(v) => v,
        None => return Err(ContractError::Overflow),
    };
    let position_shares = match position.shares.checked_sub(burnt) {
        Some(v) => v,
        None => return Err(ContractError::Overflow),
    };
    stream.in_supply = in_supply;
    stream.shares = stream_shares;
    position.in_balance = position.in_balance - amount;
    position.shares = position_shares;
    Ok((stream, position, amount))
}

/// A withdrawal of in tokens, with the transfer that pays it to `recipient`.
pub struct WithdrawOutcome {
    pub stream: Stream,
    pub position: Position,
    pub amount: u128,
    pub message: BankSend,
}

/// The transfer of `amount` of `denom` to `to_address`.
pub open spec fn send(to_address: String, denom: String, amount: u128) -> BankSend {
    BankSend { to_address, denom, amount }
}

/// Whether `r` answers a withdrawal with the outcome `v` (paid to `recipient`) or its error.
pub open spec fn answers_withdrawal(
    r: Result<WithdrawOutcome, ContractError>,
    v: Result<(Stream, Position, u128), ContractError>,
    recipient: String,
) -> bool {
    match v {
        Err(e) => r == Err::<WithdrawOutcome, ContractError>(e),
        Ok((s, p, a)) => r matches Ok(o) && o.stream == s && o.position == p && o.amount == a
            && o.message == send(recipient, s.in_denom, a),
    }
}

/// What a withdrawal from a running stream is answered: the stream and the position are brought
/// up to `now`, then the withdrawal is taken out of them.
pub open spec fn withdraw_verdict(
    stream: Stream,
    position: Position,
    now: u64,
    sender: Seq<char>,
    cap: Option<u128>,
) -> Result<(Stream, Position, u128), ContractError> {
    if stream.status == Status::Cancelled || stream.status == Status::Paused {
        Err(ContractError::StreamKillswitchActive)
    } else if now >= stream.end_time {
        Err(ContractError::StreamEnded)
    } else if !has_access(sender, position.owner@, position.operator) {
        Err(ContractError::Unauthorized)
    } else if update_stream_overflows(stream, now) {
        Err(ContractError::Overflow)
    } else {
        let s = updated_stream(stream, now);
        if update_position_fails(s.dist_index, s.shares, s.in_supply, position) {
            Err(ContractError::Overflow)
        } else {
            withdrawal_verdict(
                s,
                updated_position(s.dist_index, s.shares, s.last_updated, s.in_supply, position),
                cap,
            )
        }
    }
}

/// Withdraws unspent in tokens from a running stream, on behalf of the position's owner or
/// operator, paying them to `operator_target`.
pub fn execute_withdraw(
    stream: Stream,
    position: Position,
    now: u64,
    sender: &String,
    cap: Option<u128>,
    operator_target: &String,
) -> (r: Result<WithdrawOutcome, ContractError>)
    ensures
        answers_withdrawal(r, withdraw_verdict(stream, position, now, sender@, cap), *operator_target),
{
    let mut stream = stream;
    let mut position = position;
    if stream.is_killswitch_active() {
        return Err(ContractError::StreamKillswitchActive);
    }
    if now >= stream.end_time {
        return Err(ContractError::StreamEnded);
    }
    match check_access(sender, &position.owner, &position.operator) {
        Ok(()) => {},
        Err(e) => return Err(e),
    }
    match update_stream(now, &mut stream) {
        Ok(_) => {},
        Err(e) => return Err(e),
    }
    match update_position(
        stream.dist_index,
        stream.shares,
        stream.last_updated,
        stream.in_supply,
        &mut position,
    ) {
        Ok(_) => {},
        Err(e) => return Err(e),
    }
    match withdrawal(stream, position, cap) {
        Ok((s, p, a)) => {
            let message = BankSend {
                to_address: operator_target.clone(),
                denom: s.in_denom.clone(),
                amount: a,
            };
            Ok(WithdrawOutcome { stream: s, position: p, amount: a, message })
        },
        Err(e) => Err(e),
    }
}

/// What a withdrawal from a stream that has not started is answered.
pub open spec fn withdraw_pending_verdict(
    stream: Stream,
    position: Position,
    sender: Seq<char>,
    cap: Option<u128>,
) -> Result<(Stream, Position, u128), ContractError> {
    if !has_access(sender, position.owner@, position.operator) {
        Err(ContractError::Unauthorized)
    } else {
        withdrawal_verdict(stream, position, cap)
    }
}

/// Withdraws in tokens from a stream that has not started, on behalf of the position's owner or
/// operator, paying them to `operator_target`.
pub fn execute_withdraw_pending(
    stream: Stream,
    position: Position,
    sender: &String,
    cap: Option<u128>,
    operator_target: &String,
) -> (r: Result<WithdrawOutcome, ContractError>)
    ensures
        answers_withdrawal(r, withdraw_pending_verdict(stream, position, sender@, cap), *operator_target),
{
    match check_access(sender, &position.owner, &position.operator) {
        Ok(()) => {},
        Err(e) => return Err(e),
    }
    match withdrawal(stream, position, cap) {
        Ok((s, p, a)) => {
            let message = BankSend {
                to_address: operator_target.clone(),
                denom: s.in_denom.clone(),
                amount: a,
            };
            Ok(WithdrawOutcome { stream: s, position: p, amount: a, message })
        },
        Err(e) => Err(e),
    }
}


/// A withdrawal, as the contract dispatches it: from a stream that has not started yet (its
/// start time is after `now`) it is a pending withdrawal, otherwise one from a running stream.
pub fn dispatch_withdraw(
    stream: Stream,
    position: Position,
    now: u64,
    sender: &String,
    cap: Option<u128>,
    operator_target: &String,
) -> (r: Result<WithdrawOutcome, ContractError>)
    ensures
        stream.start_time > now ==> answers_withdrawal(
            r,
            withdraw_pending_verdict(stream, position, sender@, cap),
            *operator_target,
        ),
        stream.start_time <= now ==> answers_withdrawal(
            r,
            withdraw_verdict(stream, position, now, sender@, cap),
            *operator_target,
        ),
{
    if stream.start_time > now {
        execute_withdraw_pending(stream, position, sender, cap, operator_target)
    } else {
        execute_withdraw(stream, position, now, sender, cap, operator_target)
    }
}

/// The stream at the end of its sale: brought up to `now` unless that was already done past its
/// end time.
pub open spec fn settled_stream(stream: Stream, now: u64) -> Stream {
    if stream.last_updated < stream.end_time {
        updated_stream(stream, now)
    } else {
        stream
    }
}

/// Whether settling the stream overflows.
pub open spec fn settle_overflows(stream: Stream, now: u64) -> bool {
    stream.last_updated < stream.end_time && update_stream_overflows(stream, now)
}

fn settle(stream: Stream, now: u64) -> (r: Result<Stream, ContractError>)
    ensures
        settle_overflows(stream, now) ==> r == Err::<Stream, ContractError>(ContractError::Overflow),
        !settle_overflows(stream, now) ==> r == Ok::<Stream, ContractError>(settled_stream(stream, now)),
{
    let mut stream = stream;
    if stream.last_updated < stream.end_time {
        match update_stream(now, &mut stream) {
            Ok(_) => {},
            Err(e) => return Err(e),
        }
    }
    Ok(stream)
}

/// The settlement of a finalized stream.
pub struct FinalizeOutcome {
    pub stream: Stream,
    /// Receiver of the revenue and of the unsold out tokens.
    pub treasury: String,
    pub messages: Vec<BankSend>,
    pub creator_revenue: u128,
    pub swap_fee: u128,
    /// Out tokens released to subscribers.
    pub total_sold: u128,
}

/// The transfers that settle a finalized stream: the creator's revenue, the creation fee and the
/// swap fee when anything was spent (the creation fee alone otherwise), then the unsold out
/// tokens back to the treasury, if any.
pub open spec fn finalize_messages(
    stream: Stream,
    treasury: String,
    fee_collector: String,
    revenue: u128,
    swap_fee: u128,
) -> Seq<BankSend> {
    let creation = send(fee_collector, stream.stream_creation_denom, stream.stream_creation_fee);
    let head = if stream.spent_in != 0 {
        seq![
            send(treasury, stream.in_denom, revenue),
            creation,
            send(fee_collector, stream.in_denom, swap_fee),
        ]
    } else {
        seq![creation]
    };
    if stream.out_remaining > 0 {
        head.push(send(treasury, stream.out_denom, stream.out_remaining))
    } else {
        head
    }
}

/// What a request to finalize a stream is answered: `(stream, treasury, revenue, swap fee,
/// total sold)`.
pub open spec fn finalize_verdict(
    stream: Stream,
    thresholds: Map<u64, u128>,
    stream_id: u64,
    now: u64,
    sender: Seq<char>,
    new_treasury: Option<String>,
) -> Result<(Stream, String, u128, u128, u128), ContractError> {
    if stream.status == Status::Finalized {
        Err(ContractError::StreamAlreadyFinalized)
    } else if stream.status == Status::Cancelled || stream.status == Status::Paused {
        Err(ContractError::StreamKillswitchActive)
    } else if stream.treasury@ != sender {
        Err(ContractError::Unauthorized)
    } else if now <= stream.end_time {
        Err(ContractError::StreamNotEnded)
    } else if settle_overflows(stream, now) {
        Err(ContractError::Overflow)
    } else {
        let s1 = settled_stream(stream, now);
        let s2 = if s1.status == Status::Active {
            Stream { status: Status::Finalized, ..s1 }
        } else {
            s1
        };
        if threshold_not_reached(thresholds, stream_id, s2.spent_in) {
            Err(ContractError::ThresholdError(crate::error::ThresholdError::ThresholdNotReached))
        } else {
            let treasury = match new_treasury {
                Some(t) => t,
                None => s2.treasury,
            };
            match spec_fee(s2.spent_in, s2.stream_exit_fee_percent) {
                Err(e) => Err(e),
                Ok(fee) => if fee > s2.spent_in || s2.out_remaining > s2.out_supply {
                    Err(ContractError::Overflow)
                } else {
                    Ok(
                        (
                            s2,
                            treasury,
                            (s2.spent_in - fee) as u128,
                            fee,
                            (s2.out_supply - s2.out_remaining) as u128,
                        ),
                    )
                },
            }
        }
    }
}

/// Finalizes a stream after its end, on behalf of its treasury: settles it, refuses a stream whose
/// threshold was not reached, and pays the revenue (spent in tokens less the exit fee) to the
/// treasury (or `new_treasury`), the fees to the fee collector, and the unsold out tokens back.
pub fn execute_finalize_stream(
    stream: Stream,
    thresholds: &ThresholdState,
    stream_id: u64,
    fee_collector: &String,
    now: u64,
    sender: &String,
    new_treasury: Option<String>,
) -> (r: Result<FinalizeOutcome, ContractError>)
    ensures
        match finalize_verdict(stream, thresholds@, stream_id, now, sender@, new_treasury) {
            Err(e) => r == Err::<FinalizeOutcome, ContractError>(e),
            Ok((s, t, revenue, fee, sold)) => r matches Ok(o) && o.stream == s && o.treasury == t
                && o.creator_revenue == revenue && o.swap_fee == fee && o.total_sold == sold
                && o.messages@ == finalize_messages(s, t, *fee_collector, revenue, fee),
        },
{
    if stream.status == Status::Finalized {
        return Err(ContractError::StreamAlreadyFinalized);
    }
    if stream.is_killswitch_active() {
        return Err(ContractError::StreamKillswitchActive);
    }
    if stream.treasury != *sender {
        return Err(ContractError::Unauthorized);
    }
    if now <= stream.end_time {
        return Err(ContractError::StreamNotEnded);
    }
    let mut stream = match settle(stream, now) {
        Ok(s) => s,
        Err(e) => return Err(e),
    };
    if stream.status == Status::Active {
        stream.status = Status::Finalized;
    }
    match thresholds.error_if_not_reached(stream_id, &stream) {
        Ok(()) => {},
        Err(e) => return Err(ContractError::ThresholdError(e)),
    }
    let treasury = match new_treasury {
        Some(t) => t,
        None => stream.treasury.clone(),
    };
    let swap_fee = match fee_amount(stream.spent_in, stream.stream_exit_fee_percent) {
        Ok(f) => f,
        Err(e) => return Err(e),
    };
    let creator_revenue = match stream.spent_in.checked_sub(swap_fee) {
        Some(v) => v,
        None => return Err(ContractError::Overflow),
    };
    let total_sold = match stream.out_supply.checked_sub(stream.out_remaining) {
        Some(v) => v,
        None => return Err(ContractError::Overflow),
    };
    let creation_fee_msg = BankSend {
        to_address: fee_collector.clone(),
        denom: stream.stream_creation_denom.clone(),
        amount: stream.stream_creation_fee,
    };
    let mut messages: Vec<BankSend> = Vec::new();
    if stream.spent_in != 0 {
        messages.push(
            BankSend {
                to_address: treasury.clone(),
                denom: stream.in_denom.clone(),
                amount: creator_revenue,
            },
        );
        messages.push(creation_fee_msg);
        messages.push(
            BankSend {
                to_address: fee_collector.clone(),
                denom: stream.in_denom.clone(),
                amount: swap_fee,
            },
        );
    } else {
        messages.push(creation_fee_msg);
    }
    if stream.out_remaining > 0 {
        messages.push(
            BankSend {
                to_address: treasury.clone(),
                denom: stream.out_denom.clone(),
                amount: stream.out_remaining,
            },
        );
    }
    Ok(FinalizeOutcome { stream, treasury, messages, creator_revenue, swap_fee, total_sold })
}

/// The exit of a subscriber from an ended stream.
pub struct ExitOutcome {
    pub stream: Stream,
    /// The position as it was last brought up to date, before it is removed.
    pub position: Position,
    pub messages: Vec<BankSend>,
    /// Part of the spent in tokens kept as exit fee.
    pub swap_fee: u128,
}

/// What an exit from an ended stream is answered: `(stream, position, swap fee)`; the purchased
/// out tokens and the unspent in tokens are paid to the recipient.
pub open spec fn exit_verdict(
    stream: Stream,
    position: Position,
    thresholds: Map<u64, u128>,
    stream_id: u64,
    now: u64,
    sender: Seq<char>,
) -> Result<(Stream, Position, u128), ContractError> {
    if stream.status == Status::Cancelled || stream.status == Status::Paused {
        Err(ContractError::StreamKillswitchActive)
    } else if now <= stream.end_time {
        Err(ContractError::StreamNotEnded)
    } else if settle_overflows(stream, now) {
        Err(ContractError::Overflow)
    } else {
        let s = settled_stream(stream, now);
        if threshold_not_reached(thresholds, stream_id, s.spent_in) {
            Err(ContractError::ThresholdError(crate::error::ThresholdError::ThresholdNotReached))
        } else if !has_access(sender, position.owner@, position.operator) {
            Err(ContractError::Unauthorized)
        } else if update_position_fails(s.dist_index, s.shares, s.in_supply, position) {
            Err(ContractError::Overflow)
        } else {
            let p = updated_position(s.dist_index, s.shares, s.last_updated, s.in_supply, position);
            match spec_fee(p.spent, s.stream_exit_fee_percent) {
                Err(e) => Err(e),
                Ok(fee) => if p.shares > s.shares || fee > p.spent {
                    Err(ContractError::Overflow)
                } else {
                    Ok((Stream { shares: (s.shares - p.shares) as u128, ..s }, p, fee))
                },
            }
        }
    }
}

/// The transfers that pay an exiting subscriber: the purchased out tokens, then the unspent in
/// tokens if any.
pub open spec fn exit_messages(stream: Stream, position: Position, recipient: String) -> Seq<BankSend> {
    let bought = seq![send(recipient, stream.out_denom, position.purchased)];
    if position.in_balance != 0 {
        bought.push(send(recipient, stream.in_denom, position.in_balance))
    } else {
        bought
    }
}

/// Exits an ended stream, on behalf of the position's owner or operator: settles the stream,
/// refuses a stream whose threshold was not reached, brings the position up to date, withdraws
/// its shares from the stream and pays the purchased out tokens and the unspent in tokens to
/// `operator_target`. The position is then removed.
pub fn execute_exit_stream(
    stream: Stream,
    position: Position,
    thresholds: &ThresholdState,
    stream_id: u64,
    now: u64,
    sender: &String,
    operator_target: &String,
) -> (r: Result<ExitOutcome, ContractError>)
    ensures
        match exit_verdict(stream, position, thresholds@, stream_id, now, sender@) {
            Err(e) => r == Err::<ExitOutcome, ContractError>(e),
            Ok((s, p, fee)) => r matches Ok(o) && o.stream == s && o.position == p && o.swap_fee
                == fee && o.messages@ == exit_messages(s, p, *operator_target),
        },
{
    if stream.is_killswitch_active() {
        return Err(ContractError::StreamKillswitchActive);
    }
    if now <= stream.end_time {
        return Err(ContractError::StreamNotEnded);
    }
    let mut stream = match settle(stream, now) {
        Ok(s) => s,
        Err(e) => return Err(e),
    };
    match thresholds.error_if_not_reached(stream_id, &stream) {
        Ok(()) => {},
        Err(e) => return Err(ContractError::ThresholdError(e)),
    }
    match check_access(sender, &position.owner, &position.operator) {
        Ok(()) => {},
        Err(e) => return Err(e),
    }
    let mut position = position;
    match update_position(
        stream.dist_index,
        stream.shares,
        stream.last_updated,
        stream.in_supply,
        &mut position,
    ) {
        Ok(_) => {},
        Err(e) => return Err(e),
    }
    let swap_fee = match fee_amount(position.spent, stream.stream_exit_fee_percent) {
        Ok(f) => f,
        Err(e) => return Err(e),
    };
    let shares = match stream.shares.checked_sub(position.shares) {
        Some(v) => v,
        None => return Err(ContractError::Overflow),
    };
    if swap_fee > position.spent {
        return Err(ContractError::Overflow);
    }
    stream.shares = shares;
    let mut messages: Vec<BankSend> = Vec::new();
    messages.push(
        BankSend {
            to_address: operator_target.clone(),
            denom: stream.out_denom.clone(),
            amount: position.purchased,
        },
    );
    if position.in_balance != 0 {
        messages.push(
            BankSend {
                to_address: operator_target.clone(),
                denom: stream.in_denom.clone(),
                amount: position.in_balance,
            },
        );
    }
    Ok(ExitOutcome { stream, position, messages, swap_fee })
}


/// The protocol settings, as a query answers them.
pub fn query_config(config: &Config) -> (r: ConfigResponse)
    ensures
        r == (ConfigResponse {
            min_stream_seconds: config.min_stream_seconds,
            min_seconds_until_start_time: config.min_seconds_until_start_time,
            stream_creation_denom: config.stream_creation_denom,
            stream_creation_fee: config.stream_creation_fee,
            exit_fee_percent: config.exit_fee_percent,
            fee_collector: config.fee_collector,
            protocol_admin: config.protocol_admin,
            accepted_in_denom: config.accepted_in_denom,
        }),
{
    ConfigResponse {
        min_stream_seconds: config.min_stream_seconds,
        min_seconds_until_start_time: config.min_seconds_until_start_time,
        stream_creation_denom: config.stream_creation_denom.clone(),
        stream_creation_fee: config.stream_creation_fee,
        exit_fee_percent: config.exit_fee_percent,
        fee_collector: config.fee_collector.clone(),
        protocol_admin: config.protocol_admin.clone(),
        accepted_in_denom: config.accepted_in_denom.clone(),
    }
}

/// The state of a stream, as a query answers it.
pub open spec fn stream_response(stream_id: u64, s: Stream) -> StreamResponse {
    StreamResponse {
        id: stream_id,
        treasury: s.treasury,
        in_denom: s.in_denom,
        out_denom: s.out_denom,
        out_supply: s.out_supply,
        start_time: s.start_time,
        end_time: s.end_time,
        last_updated: s.last_updated,
        spent_in: s.spent_in,
        dist_index: s.dist_index,
        out_remaining: s.out_remaining,
        in_supply: s.in_supply,
        shares: s.shares,
        status: s.status,
        pause_date: s.pause_date,
        url: s.url,
        current_streamed_price: s.current_streamed_price,
        exit_fee_percent: s.stream_exit_fee_percent,
        stream_creation_fee: s.stream_creation_fee,
    }
}

/// The state of a stream, as a query answers it.
pub fn query_stream(stream_id: u64, stream: &Stream) -> (r: StreamResponse)
    ensures
        r == stream_response(stream_id, *stream),
{
    StreamResponse {
        id: stream_id,
        treasury: stream.treasury.clone(),
        in_denom: stream.in_denom.clone(),
        out_denom: stream.out_denom.clone(),
        out_supply: stream.out_supply,
        start_time: stream.start_time,
        end_time: stream.end_time,
        last_updated: stream.last_updated,
        spent_in: stream.spent_in,
        dist_index: stream.dist_index,
        out_remaining: stream.out_remaining,
        in_supply: stream.in_supply,
        shares: stream.shares,
        status: stream.status,
        pause_date: stream.pause_date,
        url: stream.url.clone(),
        current_streamed_price: stream.current_streamed_price,
        exit_fee_percent: stream.stream_exit_fee_percent,
        stream_creation_fee: stream.stream_creation_fee,
    }
}

/// The state of a position, as a query answers it.
pub open spec fn position_response(stream_id: u64, owner: String, p: Position) -> PositionResponse {
    PositionResponse {
        stream_id,
        owner,
        in_balance: p.in_balance,
        shares: p.shares,
        index: p.index,
        last_updated: p.last_updated,
        purchased: p.purchased,
        pending_purchase: p.pending_purchase,
        spent: p.spent,
        operator: p.operator,
    }
}

/// The state of a position, as a query answers it.
pub fn query_position(stream_id: u64, owner: String, position: &Position) -> (r: PositionResponse)
    ensures
        r == position_response(stream_id, owner, *position),
{
    PositionResponse {
        stream_id,
        owner,
        in_balance: position.in_balance,
        shares: position.shares,
        index: position.index,
        last_updated: position.last_updated,
        purchased: position.purchased,
        pending_purchase: position.pending_purchase,
        spent: position.spent,
        operator: position.operator.clone(),
    }
}

/// Default and greatest number of entries a listing returns.
pub const DEFAULT_LIMIT: u32 = 10;
pub const MAX_LIMIT: u32 = 30;

/// Number of entries a listing returns: the requested number (ten by default), at most thirty.
pub fn page_limit(limit: Option<u32>) -> (r: usize)
    ensures
        r == (match limit {
            Some(l) => if l < MAX_LIMIT {
                l
            } else {
                MAX_LIMIT
            },
            None => DEFAULT_LIMIT,
        }),
{
    let l = match limit {
        Some(l) => l,
        None => DEFAULT_LIMIT,
    };
    if l < MAX_LIMIT {
        l as usize
    } else {
        MAX_LIMIT as usize
    }
}

/// Average price of the sale so far: in tokens spent per out token released. Defined once
/// something has been released.
pub fn query_average_price(stream: &Stream) -> (r: Result<AveragePriceResponse, ContractError>)
    requires
        stream.out_remaining < stream.out_supply,
    ensures
        r == Ok::<AveragePriceResponse, ContractError>(
            AveragePriceResponse {
                average_price: wide(ratio(stream.spent_in as int, scale(), (stream.out_supply - stream.out_remaining) as int)),
            },
        ),
{
    let total_purchased = stream.out_supply - stream.out_remaining;
    match WideDecimal::from_ratio(stream.spent_in, total_purchased) {
        Ok(average_price) => Ok(AveragePriceResponse { average_price }),
        Err(e) => Err(e),
    }
}

/// Price of the latest distribution of a stream.
pub fn query_last_streamed_price(stream: &Stream) -> (r: LatestStreamedPriceResponse)
    ensures
        r == (LatestStreamedPriceResponse { current_streamed_price: stream.current_streamed_price }),
{
    LatestStreamedPriceResponse { current_streamed_price: stream.current_streamed_price }
}

/// The threshold set for a stream, if any.
pub fn query_threshold_state(thresholds: &ThresholdState, stream_id: u64) -> (r: Result<
    Option<u128>,
    ContractError,
>)
    ensures
        r == Ok::<Option<u128>, ContractError>(
            if thresholds@.contains_key(stream_id) {
                Some(thresholds@[stream_id])
            } else {
                None
            },
        ),
{
    thresholds.get_threshold(stream_id)
}

} // verus!
