use crate::contract::{
    answers_withdrawal, check_access, has_access, send, withdrawal, withdrawal_verdict,
    WithdrawOutcome,
};
use crate::error::{ContractError, ThresholdError};
use crate::state::{BankSend, Config, Position, Status, Stream};
use crate::stream_math::{
    update_position, update_position_fails, update_stream, update_stream_overflows,
    updated_position, updated_stream,
};
use crate::threshold::{threshold_reached, ThresholdState};
use vstd::prelude::*;

verus! {

/// What a withdrawal from a paused stream is answered: the stream is not brought up to date
/// (time does not run while it is paused); only the position is.
pub open spec fn withdraw_paused_verdict(
    stream: Stream,
    position: Position,
    sender: Seq<char>,
    cap: Option<u128>,
) -> Result<(Stream, Position, u128), ContractError> {
    if stream.status != Status::Paused {
        Err(ContractError::StreamNotPaused)
    } else if !has_access(sender, position.owner@, position.operator) {
        Err(ContractError::Unauthorized)
    } else if update_position_fails(stream.dist_index, stream.shares, stream.in_supply, position) {
        Err(ContractError::Overflow)
    } else {
        withdrawal_verdict(
            stream,
            updated_position(
                stream.dist_index,
                stream.shares,
                stream.last_updated,
                stream.in_supply,
                position,
            ),
            cap,
        )
    }
}

/// Withdraws unspent in tokens from a paused stream, on behalf of the position's owner or
/// operator, paying them to `operator_target`.
pub fn execute_withdraw_paused(
    stream: Stream,
    position: Position,
    sender: &String,
    cap: Option<u128>,
    operator_target: &String,
) -> (r: Result<WithdrawOutcome, ContractError>)
    ensures
        answers_withdrawal(r, withdraw_paused_verdict(stream, position, sender@, cap), *operator_target),
{
    if !stream.is_paused() {
        return Err(ContractError::StreamNotPaused);
    }
    match check_access(sender, &position.owner, &position.operator) {
        Ok(()) => {},
        Err(e) => return Err(e),
    }
    let mut position = position;
    match update_position(
        stream.dist_index,
        stream.shares,
        stream.last_updated,
        stream.in_supply,
        &mut position,
    ) {
        Ok(_) => {},
        Err(e) => return Err(e),
    }
    match withdrawal(stream, position, cap) {
        Ok((s, p, a)) => {
            let message = BankSend {
                to_address: operator_target.clone(),
                denom: s.in_denom.clone(),
                amount: a,
            };
            Ok(WithdrawOutcome { stream: s, position: p, amount: a, message })
        },
        Err(e) => Err(e),
    }
}

/// What a request to leave a cancelled stream (or an ended one that missed its threshold) is
/// answered: `(stream, refund)`, the refund being everything the position deposited.
pub open spec fn exit_cancelled_verdict(
    stream: Stream,
    position: Position,
    thresholds: Map<u64, u128>,
    stream_id: u64,
    now: u64,
    sender: Seq<char>,
) -> Result<(Stream, u128), ContractError> {
    let checked: Result<Stream, ContractError> = if stream.status == Status::Cancelled {
        Ok(stream)
    } else if !thresholds.contains_key(stream_id) {
        Err(ContractError::StreamNotCancelled)
    } else if stream.status == Status::Paused {
        Err(ContractError::StreamNotCancelled)
    } else if stream.end_time > now {
        Err(ContractError::StreamNotCancelled)
    } else if update_stream_overflows(stream, now) {
        Err(ContractError::Overflow)
    } else if threshold_reached(thresholds, stream_id, updated_stream(stream, now).spent_in) {
        Err(ContractError::ThresholdError(ThresholdError::ThresholdReached))
    } else {
        Ok(updated_stream(stream, now))
    };
    match checked {
        Err(e) => Err(e),
        Ok(s) => if !has_access(sender, position.owner@, position.operator) {
            Err(ContractError::Unauthorized)
        } else if position.in_balance + position.spent > u128::MAX {
            Err(ContractError::Overflow)
        } else {
            Ok((s, (position.in_balance + position.spent) as u128))
        },
    }
}

/// Refund of a subscriber leaving a stream that did not sell.
pub struct ExitCancelledOutcome {
    pub stream: Stream,
    pub total_balance: u128,
    pub message: BankSend,
}

/// Leaves a cancelled stream, or an ended stream whose threshold was set and not reached, on
/// behalf of the position's owner or operator: everything the position deposited (its balance
/// and what it spent) is paid back to `operator_target` and the position is removed. The refund
/// is one bank coin, of 128 bits: a total beyond that is refused with `Overflow`.
pub fn execute_exit_cancelled(
    stream: Stream,
    position: &Position,
    thresholds: &ThresholdState,
    stream_id: u64,
    now: u64,
    sender: &String,
    operator_target: &String,
) -> (r: Result<ExitCancelledOutcome, ContractError>)
    ensures
        match exit_cancelled_verdict(stream, *position, thresholds@, stream_id, now, sender@) {
            Err(e) => r == Err::<ExitCancelledOutcome, ContractError>(e),
            Ok((s, total)) => r matches Ok(o) && o.stream == s && o.total_balance == total
                && o.message == send(*operator_target, s.in_denom, total),
        },
{
    let mut stream = stream;
    if !stream.is_cancelled() {
        let is_set = match thresholds.check_if_threshold_set(stream_id) {
            Ok(b) => b,
            Err(e) => return Err(ContractError::ThresholdError(e)),
        };
        if !is_set {
            return Err(ContractError::StreamNotCancelled);
        }
        if stream.is_paused() {
            return Err(ContractError::StreamNotCancelled);
        }
        if stream.end_time > now {
            return Err(ContractError::StreamNotCancelled);
        }
        match update_stream(now, &mut stream) {
            Ok(_) => {},
            Err(e) => return Err(e),
        }
        match thresholds.error_if_reached(stream_id, &stream) {
            Ok(()) => {},
            Err(e) => return Err(ContractError::ThresholdError(e)),
        }
    }
    match check_access(sender, &position.owner, &position.operator) {
        Ok(()) => {},
        Err(e) => return Err(e),
    }
    let total_balance = match position.in_balance.checked_add(position.spent) {
        Some(v) => v,
        None => return Err(ContractError::Overflow),
    };
    let message = BankSend {
        to_address: operator_target.clone(),
        denom: stream.in_denom.clone(),
        amount: total_balance,
    };
    Ok(ExitCancelledOutcome { stream, total_balance, message })
}

/// Marks a stream paused at `now`.
pub fn pause_stream(now: u64, stream: &mut Stream) -> (r: Result<(), ContractError>)
    ensures
        r == Ok::<(), ContractError>(()),
        *final(stream) == (Stream { status: Status::Paused, pause_date: Some(now), ..*old(stream) }),
{
    stream.status = Status::Paused;
    stream.pause_date = Some(now);
    Ok(())
}

/// What a request to pause a running stream is answered (once the caller is authorized): the
/// stream brought up to `now` and paused.
pub open spec fn pause_verdict(stream: Stream, now: u64) -> Result<Stream, ContractError> {
    if now >= stream.end_time {
        Err(ContractError::StreamEnded)
    } else if now < stream.start_time {
        Err(ContractError::StreamNotStarted)
    } else if stream.status == Status::Cancelled || stream.status == Status::Paused {
        Err(ContractError::StreamKillswitchActive)
    } else if update_stream_overflows(stream, now) {
        Err(ContractError::Overflow)
    } else {
        Ok(Stream { status: Status::Paused, pause_date: Some(now), ..updated_stream(stream, now) })
    }
}

fn pause_running(stream: Stream, now: u64) -> (r: Result<Stream, ContractError>)
    ensures
        r == pause_verdict(stream, now),
{
    let mut stream = stream;
    if now >= stream.end_time {
        return Err(ContractError::StreamEnded);
    }
    if now < stream.start_time {
        return Err(ContractError::StreamNotStarted);
    }
    if stream.is_killswitch_active() {
        return Err(ContractError::StreamKillswitchActive);
    }
    match update_stream(now, &mut stream) {
        Ok(_) => {},
        Err(e) => return Err(e),
    }
    match pause_stream(now, &mut stream) {
        Ok(()) => {},
        Err(e) => return Err(e),
    }
    Ok(stream)
}

/// Pauses a running stream at `now`, on behalf of the protocol admin.
pub fn execute_pause_stream(config: &Config, stream: Stream, now: u64, sender: &String) -> (r: Result<
    Stream,
    ContractError,
>)
    ensures
        sender@ != config.protocol_admin@ ==> r == Err::<Stream, ContractError>(
            ContractError::Unauthorized,
        ),
        sender@ == config.protocol_admin@ ==> r == pause_verdict(stream, now),
{
    if *sender != config.protocol_admin {
        return Err(ContractError::Unauthorized);
    }
    pause_running(stream, now)
}

/// Pauses a running stream at `now`, by governance.
pub fn sudo_pause_stream(stream: Stream, now: u64) -> (r: Result<Stream, ContractError>)
    ensures
        r == pause_verdict(stream, now),
{
    pause_running(stream, now)
}

/// A paused stream resumed at `now`: its end and its last update move forward by the time it
/// spent paused, so that the pause takes nothing from its remaining duration.
pub open spec fn resumed(stream: Stream, now: u64) -> Stream {
    let pause = stream.pause_date->Some_0;
    Stream {
        end_time: (stream.end_time + (now - pause)) as u64,
        last_updated: (stream.last_updated + (now - pause)) as u64,
        status: Status::Active,
        ..stream
    }
}

/// Whether resuming a paused stream at `now` is within the machine's limits: time has not gone
/// back since the pause, and the shifted times fit in 64 bits.
pub open spec fn resumable(stream: Stream, now: u64) -> bool {
    stream.status == Status::Paused ==> {
        &&& stream.pause_date is Some
        &&& now >= stream.pause_date->Some_0
        &&& stream.end_time + (now - stream.pause_date->Some_0) <= u64::MAX
        &&& stream.last_updated + (now - stream.pause_date->Some_0) <= u64::MAX
    }
}

/// What a request to resume a stream is answered (before the caller is checked).
pub open spec fn resume_verdict(stream: Stream, now: u64) -> Result<Stream, ContractError> {
    if stream.status == Status::Cancelled {
        Err(ContractError::StreamIsCancelled)
    } else if stream.status != Status::Paused {
        Err(ContractError::StreamNotPaused)
    } else {
        Ok(resumed(stream, now))
    }
}

fn shift_resumed(stream: Stream, now: u64) -> (s: Stream)
    requires
        stream.status == Status::Paused,
        resumable(stream, now),
    ensures
        s == resumed(stream, now),
{
    let mut stream = stream;
    let pause = match stream.pause_date {
        Some(p) => p,
        None => now,
    };
    let paused_for = now - pause;
    stream.end_time = stream.end_time + paused_for;
    stream.last_updated = stream.last_updated + paused_for;
    stream.status = Status::Active;
    stream
}

/// Resumes a paused stream at `now`, on behalf of the protocol admin. The pause date is kept.
pub fn execute_resume_stream(config: &Config, stream: Stream, now: u64, sender: &String) -> (r: Result<
    Stream,
    ContractError,
>)
    requires
        resumable(stream, now),
    ensures
        match resume_verdict(stream, now) {
            Err(e) => r == Err::<Stream, ContractError>(e),
            Ok(s) => if sender@ != config.protocol_admin@ {
                r == Err::<Stream, ContractError>(ContractError::Unauthorized)
            } else {
                r == Ok::<Stream, ContractError>(s)
            },
        },
{
    if stream.is_cancelled() {
        return Err(ContractError::StreamIsCancelled);
    }
    if stream.status != Status::Paused {
        return Err(ContractError::StreamNotPaused);
    }
    if config.protocol_admin != *sender {
        return Err(ContractError::Unauthorized);
    }
    Ok(shift_resumed(stream, now))
}

/// Resumes a paused stream at `now`, by governance; the pause date is cleared.
pub fn sudo_resume_stream(stream: Stream, now: u64) -> (r: Result<Stream, ContractError>)
    requires
        resumable(stream, now),
    ensures
        match resume_verdict(stream, now) {
            Err(e) => r == Err::<Stream, ContractError>(e),
            Ok(s) => r == Ok::<Stream, ContractError>(Stream { pause_date: None, ..s }),
        },
{
    if stream.is_cancelled() {
        return Err(ContractError::StreamIsCancelled);
    }
    if !stream.is_paused() {
        return Err(ContractError::StreamNotPaused);
    }
    let mut s = shift_resumed(stream, now);
    s.pause_date = None;
    Ok(s)
}

/// A cancelled stream and the transfers that refund its creator.
pub struct CancelOutcome {
    pub stream: Stream,
    pub messages: Vec<BankSend>,
}

/// What a request to cancel a paused stream is answered (before the caller is checked).
pub open spec fn cancel_verdict(stream: Stream) -> Result<Stream, ContractError> {
    if stream.status == Status::Cancelled {
        Err(ContractError::StreamIsCancelled)
    } else if stream.status != Status::Paused {
        Err(ContractError::StreamNotPaused)
    } else {
        Ok(Stream { status: Status::Cancelled, ..stream })
    }
}

/// The refund of a cancelled stream's creator: the whole out supply and the creation fee, to
/// the treasury.
pub open spec fn cancel_messages(stream: Stream) -> Seq<BankSend> {
    seq![
        send(stream.treasury, stream.out_denom, stream.out_supply),
        send(stream.treasury, stream.stream_creation_denom, stream.stream_creation_fee),
    ]
}

fn cancel_paused(stream: Stream) -> (r: Result<CancelOutcome, ContractError>)
    ensures
        match cancel_verdict(stream) {
            Err(e) => r == Err::<CancelOutcome, ContractError>(e),
            Ok(s) => r matches Ok(o) && o.stream == s && o.messages@ == cancel_messages(s),
        },
{
    let mut stream = stream;
    if stream.is_cancelled() {
        return Err(ContractError::StreamIsCancelled);
    }
    if !stream.is_paused() {
        return Err(ContractError::StreamNotPaused);
    }
    stream.status = Status::Cancelled;
    let mut messages: Vec<BankSend> = Vec::new();
    messages.push(
        BankSend {
            to_address: stream.treasury.clone(),
            denom: stream.out_denom.clone(),
            amount: stream.out_supply,
        },
    );
    messages.push(
        BankSend {
            to_address: stream.treasury.clone(),
            denom: stream.stream_creation_denom.clone(),
            amount: stream.stream_creation_fee,
        },
    );
    Ok(CancelOutcome { stream, messages })
}

/// Cancels a paused stream, on behalf of the protocol admin, refunding its creator.
pub fn execute_cancel_stream(config: &Config, stream: Stream, sender: &String) -> (r: Result<
    CancelOutcome,
    ContractError,
>)
    ensures
        sender@ != config.protocol_admin@ ==> r == Err::<CancelOutcome, ContractError>(
            ContractError::Unauthorized,
        ),
        sender@ == config.protocol_admin@ ==> match cancel_verdict(stream) {
            Err(e) => r == Err::<CancelOutcome, ContractError>(e),
            Ok(s) => r matches Ok(o) && o.stream == s && o.messages@ == cancel_messages(s),
        },
{
    if config.protocol_admin != *sender {
        return Err(ContractError::Unauthorized);
    }
    cancel_paused(stream)
}

/// Cancels a paused stream by governance, refunding its creator.
pub fn sudo_cancel_stream(stream: Stream) -> (r: Result<CancelOutcome, ContractError>)
    ensures
        match cancel_verdict(stream) {
            Err(e) => r == Err::<CancelOutcome, ContractError>(e),
            Ok(s) => r matches Ok(o) && o.stream == s && o.messages@ == cancel_messages(s),
        },
{
    cancel_paused(stream)
}

/// What a creator's request to cancel an ended stream that missed its threshold is answered:
/// the stream settled and cancelled.
pub open spec fn cancel_with_threshold_verdict(
    stream: Stream,
    thresholds: Map<u64, u128>,
    stream_id: u64,
    now: u64,
    sender: Seq<char>,
) -> Result<Stream, ContractError> {
    if now < stream.end_time {
        Err(ContractError::StreamNotEnded)
    } else if sender != stream.treasury@ {
        Err(ContractError::Unauthorized)
    } else if stream.status == Status::Cancelled || stream.status == Status::Paused {
        Err(ContractError::StreamKillswitchActive)
    } else if stream.status == Status::Finalized {
        Err(ContractError::StreamAlreadyFinalized)
    } else if stream.last_updated < stream.end_time && update_stream_overflows(stream, now) {
        Err(ContractError::Overflow)
    } else {
        let s = if stream.last_updated < stream.end_time {
            updated_stream(stream, now)
        } else {
            stream
        };
        if !thresholds.contains_key(stream_id) {
            Err(ContractError::ThresholdError(ThresholdError::ThresholdNotSet))
        } else if threshold_reached(thresholds, stream_id, s.spent_in) {
            Err(ContractError::ThresholdError(ThresholdError::ThresholdReached))
        } else {
            Ok(Stream { status: Status::Cancelled, ..s })
        }
    }
}

/// Cancels an ended stream whose threshold was set and not reached, on behalf of its treasury,
/// refunding the whole out supply.
pub fn execute_cancel_stream_with_threshold(
    stream: Stream,
    thresholds: &ThresholdState,
    stream_id: u64,
    now: u64,
    sender: &String,
) -> (r: Result<CancelOutcome, ContractError>)
    ensures
        match cancel_with_threshold_verdict(stream, thresholds@, stream_id, now, sender@) {
            Err(e) => r == Err::<CancelOutcome, ContractError>(e),
            Ok(s) => r matches Ok(o) && o.stream == s && o.messages@ == seq![
                send(s.treasury, s.out_denom, s.out_supply),
            ],
        },
{
    let mut stream = stream;
    if now < stream.end_time {
        return Err(ContractError::StreamNotEnded);
    }
    if *sender != stream.treasury {
        return Err(ContractError::Unauthorized);
    }
    if stream.is_killswitch_active() {
        return Err(ContractError::StreamKillswitchActive);
    }
    if stream.status == Status::Finalized {
        return Err(ContractError::StreamAlreadyFinalized);
    }
    if stream.last_updated < stream.end_time {
        match update_stream(now, &mut stream) {
            Ok(_) => {},
            Err(e) => return Err(e),
        }
    }
    let is_set = match thresholds.check_if_threshold_set(stream_id) {
        Ok(b) => b,
        Err(e) => return Err(ContractError::ThresholdError(e)),
    };
    if !is_set {
        return Err(ContractError::ThresholdError(ThresholdError::ThresholdNotSet));
    }
    match thresholds.error_if_reached(stream_id, &stream) {
        Ok(()) => {},
        Err(e) => return Err(ContractError::ThresholdError(e)),
    }
    stream.status = Status::Cancelled;
    let mut messages: Vec<BankSend> = Vec::new();
    messages.push(
        BankSend {
            to_address: stream.treasury.clone(),
            denom: stream.out_denom.clone(),
            amount: stream.out_supply,
        },
    );
    Ok(CancelOutcome { stream, messages })
}

} // verus!
