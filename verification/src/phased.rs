//! Operations on a stream that runs through waiting, bootstrapping, active and ended phases,
//! one stream per contract, with the protocol settings of its controller.
use crate::contract::{fee_amount, send, spec_fee};
use crate::error::{ContractError, ThresholdError};
use crate::helpers::{check_name_and_url, name_and_url_verdict};
use crate::lifecycle::{
    calculate_in_amount_clp, clp_in_amount, phase_at, status_name, stream_times_verdict,
    sync_overflows, sync_stream, sync_stream_status, synced_state, validate_stream_times, Params,
    PoolConfig, PostStreamActions, Status, StatusInfo, StreamInfo, StreamState, VestingConfig,
};
use crate::math::{multiply_ratio, ratio, scale, wide, Decimal, WideDecimal};
use crate::msg::{AveragePriceResponse, LatestStreamedPriceResponse};
use crate::payment::{must_pay, paid_amount, payment_refusal};
use crate::state::{shares_for, BankSend, Coin};
use crate::stream_math::{position_flows, update_position, update_position_fails, updated_position};
use vstd::prelude::*;

verus! {

/// Why an operation on a phased stream is refused: its phase does not allow it, or another error.
pub enum Refusal {
    NotAllowed(Status),
    Failed(ContractError),
}

/// Whether the error `e` is the refusal `f`: a phase that does not allow the operation is
/// reported with the name of the phase.
pub open spec fn refused_as(e: ContractError, f: Refusal) -> bool {
    match f {
        Refusal::NotAllowed(st) => e matches ContractError::OperationNotAllowed { current_status }
            && current_status@ == status_name(st),
        Refusal::Failed(x) => e == x,
    }
}

/// Whether `r` is the answer `v`.
pub open spec fn answers<T>(r: Result<T, ContractError>, v: Result<T, Refusal>) -> bool {
    match v {
        Ok(x) => r == Ok::<T, ContractError>(x),
        Err(f) => r matches Err(e) && refused_as(e, f),
    }
}

fn not_allowed(status: Status) -> (e: ContractError)
    ensures
        refused_as(e, Refusal::NotAllowed(status)),
{
    ContractError::OperationNotAllowed { current_status: status.to_display_string() }
}

/// A subscription to a phased stream.
#[derive(Clone, Debug, PartialEq, Eq)]
pub struct Position {
    pub owner: String,
    /// In tokens deposited and not spent yet.
    pub in_balance: u128,
    pub shares: u128,
    /// Distribution index of the stream when the position was last brought up to date.
    pub index: WideDecimal,
    pub last_updated: u64,
    /// Whole out tokens bought so far.
    pub purchased: u128,
    /// Fraction of an out token bought but not yet counted in `purchased`.
    pub pending_purchase: WideDecimal,
    /// In tokens spent so far.
    pub spent: u128,
    /// When the subscriber left the stream; zero while it has not.
    pub exit_date: u64,
}

impl Position {
    pub fn new(
        owner: String,
        in_balance: u128,
        shares: u128,
        index: Option<WideDecimal>,
        last_updated: u64,
    ) -> (p: Position)
        ensures
            p == (Position {
                owner,
                in_balance,
                shares,
                index: match index {
                    Some(i) => i,
                    None => wide(0),
                },
                last_updated,
                purchased: 0,
                pending_purchase: wide(0),
                spent: 0,
                exit_date: 0,
            }),
    {
        let index = match index {
            Some(i) => i,
            None => WideDecimal::zero(),
        };
        Position {
            owner,
            in_balance,
            shares,
            index,
            last_updated,
            purchased: 0,
            pending_purchase: WideDecimal::zero(),
            spent: 0,
            exit_date: 0,
        }
    }
}

/// The share accounting of a position, as the share arithmetic of streams reads it.
pub open spec fn share_account(p: Position) -> crate::state::Position {
    crate::state::Position {
        owner: p.owner,
        in_balance: p.in_balance,
        shares: p.shares,
        index: p.index,
        last_updated: p.last_updated,
        purchased: p.purchased,
        pending_purchase: p.pending_purchase,
        spent: p.spent,
        operator: None,
    }
}

/// The position with the share accounting `q`.
pub open spec fn with_account(p: Position, q: crate::state::Position) -> Position {
    Position {
        in_balance: q.in_balance,
        shares: q.shares,
        index: q.index,
        last_updated: q.last_updated,
        purchased: q.purchased,
        pending_purchase: q.pending_purchase,
        spent: q.spent,
        ..p
    }
}

/// The position brought up to date with a stream.
pub open spec fn synced_position(
    dist_index: WideDecimal,
    stream_shares: u128,
    stream_last_updated: u64,
    stream_in_supply: u128,
    p: Position,
) -> Position {
    with_account(
        p,
        updated_position(dist_index, stream_shares, stream_last_updated, stream_in_supply, share_account(p)),
    )
}

/// Whether bringing a position up to date overflows or finds it inconsistent with the stream.
pub open spec fn sync_position_fails(
    dist_index: WideDecimal,
    stream_shares: u128,
    stream_in_supply: u128,
    p: Position,
) -> bool {
    update_position_fails(dist_index, stream_shares, stream_in_supply, share_account(p))
}

/// Whole out tokens bought and in tokens spent by bringing a position up to date.
pub open spec fn sync_flows(
    dist_index: WideDecimal,
    stream_shares: u128,
    stream_in_supply: u128,
    p: Position,
) -> (u128, u128) {
    let f = position_flows(dist_index, stream_shares, stream_in_supply, share_account(p));
    (f.0 as u128, f.1 as u128)
}

/// Brings a position up to date with its stream: counts the out tokens bought and the in tokens
/// spent since its last update. Returns the whole out tokens bought and the in tokens spent. On an
/// error the position is left as it was.
pub fn sync_position(
    stream_dist_index: WideDecimal,
    stream_shares: u128,
    stream_last_updated: u64,
    stream_in_supply: u128,
    position: &mut Position,
) -> (r: Result<(u128, u128), ContractError>)
    ensures
        sync_position_fails(stream_dist_index, stream_shares, stream_in_supply, *old(position))
            ==> r == Err::<(u128, u128), ContractError>(ContractError::Overflow) && *final(position)
            == *old(position),
        !sync_position_fails(stream_dist_index, stream_shares, stream_in_supply, *old(position))
            ==> r == Ok::<(u128, u128), ContractError>(
            sync_flows(stream_dist_index, stream_shares, stream_in_supply, *old(position)),
        ) && *final(position) == synced_position(
            stream_dist_index,
            stream_shares,
            stream_last_updated,
            stream_in_supply,
            *old(position),
        ),
{
    let mut account = crate::state::Position {
        owner: position.owner.clone(),
        in_balance: position.in_balance,
        shares: position.shares,
        index: position.index,
        last_updated: position.last_updated,
        purchased: position.purchased,
        pending_purchase: position.pending_purchase,
        spent: position.spent,
        operator: None,
    };
    match update_position(
        stream_dist_index,
        stream_shares,
        stream_last_updated,
        stream_in_supply,
        &mut account,
    ) {
        Ok(flows) => {
            position.in_balance = account.in_balance;
            position.shares = account.shares;
            position.index = account.index;
            position.last_updated = account.last_updated;
            position.purchased = account.purchased;
            position.pending_purchase = account.pending_purchase;
            position.spent = account.spent;
            Ok(flows)
        },
        Err(e) => Err(e),
    }
}

/// The shares that `amount` in tokens are worth on a stream, rounded up or down; a division by a
/// zero in supply while the stream has shares, and a result beyond 128 bits, are errors.
pub open spec fn state_shares(s: StreamState, amount: u128, round_up: bool) -> Result<u128, ContractError> {
    if s.shares != 0 && amount != 0 && s.in_supply == 0 {
        Err(ContractError::DivideByZeroError)
    } else if shares_for(s.shares as int, s.in_supply as int, amount as int, round_up) > u128::MAX {
        Err(ContractError::Overflow)
    } else {
        Ok(shares_for(s.shares as int, s.in_supply as int, amount as int, round_up) as u128)
    }
}

/// Computes the shares minted for (or burnt by) a subscription (or a withdrawal) of `amount_in`.
pub fn compute_shares_amount(stream: &StreamState, amount_in: u128, round_up: bool) -> (r: Result<
    u128,
    ContractError,
>)
    ensures
        r == state_shares(*stream, amount_in, round_up),
{
    if stream.shares == 0 || amount_in == 0 {
        return Ok(amount_in);
    }
    if stream.in_supply == 0 {
        return Err(ContractError::DivideByZeroError);
    }
    if round_up {
        crate::state::uint128_checked_mul_ceil(stream.shares, amount_in, stream.in_supply)
    } else {
        multiply_ratio(stream.shares, amount_in, stream.in_supply)
    }
}

/// The stream with its phase brought to `now`.
pub open spec fn phased(s: StreamState, now: u64) -> StreamState {
    StreamState {
        status_info: StatusInfo { status: phase_at(s.status_info, now), ..s.status_info },
        ..s
    }
}

/// What a request to bring a stream up to `now` is answered: refused once it is cancelled.
pub open spec fn sync_stream_verdict(stream: StreamState, now: u64) -> Result<StreamState, Refusal> {
    let s = phased(stream, now);
    if s.status_info.status == Status::Cancelled {
        Err(Refusal::NotAllowed(Status::Cancelled))
    } else if sync_overflows(s, now) {
        Err(Refusal::Failed(ContractError::Overflow))
    } else {
        Ok(synced_state(s, now))
    }
}

/// Brings a stream's phase and distribution up to `now`.
pub fn execute_sync_stream(stream: StreamState, now: u64) -> (r: Result<StreamState, ContractError>)
    ensures
        answers(r, sync_stream_verdict(stream, now)),
{
    let mut stream = stream;
    sync_stream_status(&mut stream, now);
    if stream.is_cancelled() {
        return Err(not_allowed(Status::Cancelled));
    }
    match sync_stream(&mut stream, now) {
        Ok(()) => Ok(stream),
        Err(e) => Err(e),
    }
}

/// What a request to bring the sender's position up to `now` is answered: the stream and the
/// position brought up to date, the whole out tokens bought and the in tokens spent.
pub open spec fn sync_position_verdict(stream: StreamState, position: Position, now: u64) -> Result<
    (StreamState, Position, u128, u128),
    Refusal,
> {
    match sync_stream_verdict(stream, now) {
        Err(f) => Err(f),
        Ok(s) => if sync_position_fails(s.dist_index, s.shares, s.in_supply, position) {
            Err(Refusal::Failed(ContractError::Overflow))
        } else {
            let f = sync_flows(s.dist_index, s.shares, s.in_supply, position);
            Ok(
                (
                    s,
                    synced_position(
                        s.dist_index,
                        s.shares,
                        s.status_info.last_updated,
                        s.in_supply,
                        position,
                    ),
                    f.0,
                    f.1,
                ),
            )
        },
    }
}

/// Brings the stream and the sender's position up to `now`.
pub fn execute_sync_position(stream: StreamState, position: Position, now: u64) -> (r: Result<
    (StreamState, Position, u128, u128),
    ContractError,
>)
    ensures
        answers(r, sync_position_verdict(stream, position, now)),
{
    let stream = match execute_sync_stream(stream, now) {
        Ok(s) => s,
        Err(e) => return Err(e),
    };
    let mut position = position;
    match sync_position(
        stream.dist_index,
        stream.shares,
        stream.status_info.last_updated,
        stream.in_supply,
        &mut position,
    ) {
        Ok((purchased, spent)) => Ok((stream, position, purchased, spent)),
        Err(e) => Err(e),
    }
}

/// Whether the phase of a stream lets subscribers deposit and withdraw: bootstrapping or active.
pub open spec fn open_for_deposits(s: StreamState) -> bool {
    s.status_info.status == Status::Active || s.status_info.status == Status::Bootstrapping
}

/// What a subscription of `amount` by `sender` to a stream open for deposits is answered: the
/// stream brought up to `now` with the deposit added, and the new or updated position.
pub open spec fn subscribe_verdict(
    stream: StreamState,
    position: Option<Position>,
    now: u64,
    sender: String,
    amount: u128,
) -> Result<(StreamState, Position, u128), Refusal> {
    let s = phased(stream, now);
    if sync_overflows(s, now) {
        Err(Refusal::Failed(ContractError::Overflow))
    } else {
        let s1 = synced_state(s, now);
        match state_shares(s1, amount, false) {
            Err(e) => Err(Refusal::Failed(e)),
            Ok(sh) => {
                let p1 = match position {
                    None => Position::new_spec(sender, 0, 0, s1.dist_index, now),
                    Some(p) => synced_position(
                        s1.dist_index,
                        s1.shares,
                        s1.status_info.last_updated,
                        s1.in_supply,
                        p,
                    ),
                };
                if position matches Some(p) && sync_position_fails(
                    s1.dist_index,
                    s1.shares,
                    s1.in_supply,
                    p,
                ) {
                    Err(Refusal::Failed(ContractError::Overflow))
                } else if p1.in_balance + amount > u128::MAX || p1.shares + sh > u128::MAX
                    || s1.in_supply + amount > u128::MAX || s1.shares + sh > u128::MAX {
                    Err(Refusal::Failed(ContractError::Overflow))
                } else {
                    Ok(
                        (
                            StreamState {
                                in_supply: (s1.in_supply + amount) as u128,
                                shares: (s1.shares + sh) as u128,
                                ..s1
                            },
                            Position {
                                in_balance: (p1.in_balance + amount) as u128,
                                shares: (p1.shares + sh) as u128,
                                ..p1
                            },
                            amount,
                        ),
                    )
                }
            },
        }
    }
}

impl Position {
    /// A position of `in_balance` in tokens worth `shares`, at `index`, updated at `now`.
    pub open spec fn new_spec(owner: String, in_balance: u128, shares: u128, index: WideDecimal, now: u64) -> Position {
        Position {
            owner,
            in_balance,
            shares,
            index,
            last_updated: now,
            purchased: 0,
            pending_purchase: wide(0),
            spent: 0,
            exit_date: 0,
        }
    }
}

/// Subscribes `funds` (one coin of the in denom) to a stream that is bootstrapping or active. The
/// stream is brought up to `now` first, so that the deposit takes no part in what was already
/// distributed; the sender's position, if it has one, too. Returns the stream, the position and
/// the amount deposited.
pub fn execute_subscribe(
    stream: StreamState,
    position: Option<Position>,
    now: u64,
    sender: &String,
    funds: &Vec<Coin>,
) -> (r: Result<(StreamState, Position, u128), ContractError>)
    ensures
        !open_for_deposits(phased(stream, now)) ==> answers(
            r,
            Err(Refusal::NotAllowed(phased(stream, now).status_info.status)),
        ),
        open_for_deposits(phased(stream, now)) && paid_amount(funds@, stream.in_denom@) is None ==> (r matches Err(
            ContractError::Payment(e),
        ) && payment_refusal(e, funds@, stream.in_denom@)),
        open_for_deposits(phased(stream, now)) && paid_amount(funds@, stream.in_denom@) is Some ==> (
        if position matches Some(p) && p.owner@ != sender@ {
            r == Err::<(StreamState, Position, u128), ContractError>(ContractError::Unauthorized)
        } else {
            answers(
                r,
                subscribe_verdict(
                    stream,
                    position,
                    now,
                    *sender,
                    paid_amount(funds@, stream.in_denom@)->Some_0,
                ),
            )
        }),
{
    let mut stream = stream;
    sync_stream_status(&mut stream, now);
    if !(stream.is_active() || stream.is_bootstrapping()) {
        return Err(not_allowed(stream.status_info.status));
    }
    let amount = match must_pay(funds, &stream.in_denom) {
        Ok(a) => a,
        Err(e) => return Err(ContractError::Payment(e)),
    };
    if let Some(p) = &position {
        if p.owner != *sender {
            return Err(ContractError::Unauthorized);
        }
    }
    match sync_stream(&mut stream, now) {
        Ok(()) => {},
        Err(e) => return Err(e),
    }
    let shares = match compute_shares_amount(&stream, amount, false) {
        Ok(s) => s,
        Err(e) => return Err(e),
    };
    let mut position = match position {
        None => Position::new(sender.clone(), 0, 0, Some(stream.dist_index), now),
        Some(p) => {
            let mut p = p;
            match sync_position(
                stream.dist_index,
                stream.shares,
                stream.status_info.last_updated,
                stream.in_supply,
                &mut p,
            ) {
                Ok(_) => {},
                Err(e) => return Err(e),
            }
            p
        },
    };
    let in_balance = match position.in_balance.checked_add(amount) {
        Some(v) => v,
        None => return Err(ContractError::Overflow),
    };
    let position_shares = match position.shares.checked_add(shares) {
        Some(v) => v,
        None => return Err(ContractError::Overflow),
    };
    let in_supply = match stream.in_supply.checked_add(amount) {
        Some(v) => v,
        None => return Err(ContractError::Overflow),
    };
    let stream_shares = match stream.shares.checked_add(shares) {
        Some(v) => v,
        None => return Err(ContractError::Overflow),
    };
    position.in_balance = in_balance;
    position.shares = position_shares;
    stream.in_supply = in_supply;
    stream.shares = stream_shares;
    Ok((stream, position, amount))
}

/// A withdrawal of in tokens, with the transfer that pays it to the subscriber.
pub struct WithdrawOutcome {
    pub stream: StreamState,
    pub position: Position,
    pub amount: u128,
    pub message: BankSend,
}

/// What a withdrawal of `cap` (all of the balance when absent) is answered: the stream and the
/// position are brought up to `now`, then the amount is taken out of both, with the shares it is
/// worth rounded up (all of the position's shares when it withdraws everything).
pub open spec fn withdraw_verdict(stream: StreamState, position: Position, now: u64, cap: Option<u128>) -> Result<
    (StreamState, Position, u128),
    Refusal,
> {
    let s = phased(stream, now);
    if !open_for_deposits(s) {
        Err(Refusal::NotAllowed(s.status_info.status))
    } else if sync_overflows(s, now) {
        Err(Refusal::Failed(ContractError::Overflow))
    } else {
        let s1 = synced_state(s, now);
        if sync_position_fails(s1.dist_index, s1.shares, s1.in_supply, position) {
            Err(Refusal::Failed(ContractError::Overflow))
        } else {
            let p1 = synced_position(
                s1.dist_index,
                s1.shares,
                s1.status_info.last_updated,
                s1.in_supply,
                position,
            );
            let amount = match cap {
                Some(c) => c,
                None => p1.in_balance,
            };
            if amount > p1.in_balance {
                Err(Refusal::Failed(ContractError::WithdrawAmountExceedsBalance(amount)))
            } else if amount == 0 {
                Err(Refusal::Failed(ContractError::InvalidWithdrawAmount))
            } else {
                let burnt = if amount == p1.in_balance {
                    Ok(p1.shares)
                } else {
                    state_shares(s1, amount, true)
                };
                match burnt {
                    Err(e) => Err(Refusal::Failed(e)),
                    Ok(sh) => if amount > s1.in_supply || sh > s1.shares || sh > p1.shares {
                        Err(Refusal::Failed(ContractError::Overflow))
                    } else {
                        Ok(
                            (
                                StreamState {
                                    in_supply: (s1.in_supply - amount) as u128,
                                    shares: (s1.shares - sh) as u128,
                                    ..s1
                                },
                                Position {
                                    in_balance: (p1.in_balance - amount) as u128,
                                    shares: (p1.shares - sh) as u128,
                                    ..p1
                                },
                                amount,
                            ),
                        )
                    },
                }
            }
        }
    }
}

/// Withdraws unspent in tokens of the sender's position from a stream that is bootstrapping or
/// active, paying them to the sender.
pub fn execute_withdraw(
    stream: StreamState,
    position: Position,
    now: u64,
    sender: &String,
    cap: Option<u128>,
) -> (r: Result<WithdrawOutcome, ContractError>)
    ensures
        match withdraw_verdict(stream, position, now, cap) {
            Err(f) => r matches Err(e) && refused_as(e, f),
            Ok((s, p, a)) => r matches Ok(o) && o.stream == s && o.position == p && o.amount == a
                && o.message == send(*sender, s.in_denom, a),
        },
{
    let mut stream = stream;
    let mut position = position;
    sync_stream_status(&mut stream, now);
    if !(stream.is_active() || stream.is_bootstrapping()) {
        return Err(not_allowed(stream.status_info.status));
    }
    match sync_stream(&mut stream, now) {
        Ok(()) => {},
        Err(e) => return Err(e),
    }
    match sync_position(
        stream.dist_index,
        stream.shares,
        stream.status_info.last_updated,
        stream.in_supply,
        &mut position,
    ) {
        Ok(_) => {},
        Err(e) => return Err(e),
    }
    let amount = match cap {
        Some(c) => c,
        None => position.in_balance,
    };
    if amount > position.in_balance {
        return Err(ContractError::WithdrawAmountExceedsBalance(amount));
    }
    if amount == 0 {
        return Err(ContractError::InvalidWithdrawAmount);
    }
    let burnt = if amount == position.in_balance {
        position.shares
    } else {
        match compute_shares_amount(&stream, amount, true) {
            Ok(s) => s,
            Err(e) => return Err(e),
        }
    };
    let in_supply = match stream.in_supply.checked_sub(amount) {
        Some(v) => v,
        None => return Err(ContractError::Overflow),
    };
    let stream_shares = match stream.shares.checked_sub(burnt) {
        Some(v) => v,
        None => return Err(ContractError::Overflow),
    };
    let position_shares = match position.shares.checked_sub(burnt) {
        Some(v) => v,
        None => return Err(ContractError::Overflow),
    };
    stream.in_supply = in_supply;
    stream.shares = stream_shares;
    position.in_balance = position.in_balance - amount;
    position.shares = position_shares;
    let message = BankSend { to_address: sender.clone(), denom: stream.in_denom.clone(), amount };
    Ok(WithdrawOutcome { stream, position, amount, message })
}

/// Whether a threshold is set for the stream and its spent in tokens are below it.
pub open spec fn below_threshold(s: StreamState) -> bool {
    s.threshold matches Some(t) && s.spent_in < t
}

/// The settlement of a finalized stream.
pub struct FinalizeOutcome {
    pub stream: StreamState,
    /// Receiver of the revenue and of the unsold out tokens.
    pub treasury: String,
    /// The unsold out tokens, paid back to the treasury, if any.
    pub refund: Option<BankSend>,
    /// In and out tokens put in the pool created at the end, when one is.
    pub pool: Option<(u128, u128)>,
    /// The creator's revenue, to the treasury.
    pub revenue_message: BankSend,
    /// The swap fee, to the fee collector.
    pub fee_message: BankSend,
    pub creator_revenue: u128,
    pub swap_fee: u128,
    pub total_sold: u128,
}

/// What a request to finalize an ended stream is answered: `(stream, treasury, refund, pool,
/// revenue, swap fee, total sold)`. The swap fee is taken out of the spent in tokens; the unsold
/// out tokens go back to the treasury; when a pool is configured and asked for, it receives its
/// out tokens and in tokens in the same proportion to the creator's revenue as its out tokens to
/// those sold; the rest is the creator's revenue.
pub open spec fn finalize_verdict(
    stream: StreamState,
    info: StreamInfo,
    pool_config: Option<PoolConfig>,
    exit_fee_percent: Decimal,
    now: u64,
    sender: Seq<char>,
    new_treasury: Option<String>,
    create_pool: bool,
) -> Result<(StreamState, String, Option<u128>, Option<(u128, u128)>, u128, u128, u128), Refusal> {
    let s = phased(stream, now);
    if sender != info.stream_admin@ {
        Err(Refusal::Failed(ContractError::Unauthorized))
    } else if s.status_info.status != Status::Ended {
        Err(Refusal::NotAllowed(s.status_info.status))
    } else if sync_overflows(s, now) {
        Err(Refusal::Failed(ContractError::Overflow))
    } else {
        let synced = synced_state(s, now);
        let s1 = StreamState {
            status_info: StatusInfo { status: Status::Finalized, ..synced.status_info },
            ..synced
        };
        if below_threshold(s1) {
            Err(Refusal::Failed(ContractError::ThresholdError(ThresholdError::ThresholdNotReached)))
        } else {
            let treasury = match new_treasury {
                Some(t) => t,
                None => info.treasury,
            };
            match spec_fee(s1.spent_in, exit_fee_percent) {
                Err(e) => Err(Refusal::Failed(e)),
                Ok(fee) => if fee > s1.spent_in || s1.out_remaining > s1.out_asset.amount {
                    Err(Refusal::Failed(ContractError::Overflow))
                } else {
                    let revenue0 = (s1.spent_in - fee) as u128;
                    let sold = (s1.out_asset.amount - s1.out_remaining) as u128;
                    let s2 = StreamState { out_asset: Coin { amount: sold, ..s1.out_asset }, ..s1 };
                    let refund = if s1.out_remaining > 0 {
                        Some(s1.out_remaining)
                    } else {
                        None
                    };
                    let pool: Result<Option<(u128, u128)>, ContractError> = match pool_config {
                        Some(PoolConfig::ConcentratedLiquidity { out_amount_clp }) => if !create_pool {
                            Err(ContractError::InvalidPoolConfig)
                        } else if sold == 0 {
                            Err(ContractError::DivideByZeroError)
                        } else {
                            match clp_in_amount(sold, out_amount_clp, revenue0) {
                                Err(e) => Err(e),
                                Ok(in_clp) => if in_clp > revenue0 {
                                    Err(ContractError::Overflow)
                                } else {
                                    Ok(Some((in_clp, out_amount_clp)))
                                },
                            }
                        },
                        None => if create_pool {
                            Err(ContractError::InvalidPoolConfig)
                        } else {
                            Ok(None)
                        },
                    };
                    match pool {
                        Err(e) => Err(Refusal::Failed(e)),
                        Ok(pool) => {
                            let revenue = match pool {
                                Some((in_clp, _)) => (revenue0 - in_clp) as u128,
                                None => revenue0,
                            };
                            if s2.out_remaining > s2.out_asset.amount {
                                Err(Refusal::Failed(ContractError::Overflow))
                            } else {
                                Ok(
                                    (
                                        s2,
                                        treasury,
                                        refund,
                                        pool,
                                        revenue,
                                        fee,
                                        (s2.out_asset.amount - s2.out_remaining) as u128,
                                    ),
                                )
                            }
                        },
                    }
                },
            }
        }
    }
}

/// Finalizes an ended stream, on behalf of its admin: settles it, refuses a stream whose
/// threshold was not reached, and splits the spent in tokens into the swap fee (to the fee
/// collector), the in tokens of the pool (if one is configured and asked for) and the creator's
/// revenue (to the treasury, or `new_treasury`); the unsold out tokens go back to the treasury.
#[allow(clippy::too_many_arguments)]
pub fn execute_finalize_stream(
    stream: StreamState,
    info: &StreamInfo,
    post: &PostStreamActions,
    params: &Params,
    now: u64,
    sender: &String,
    new_treasury: Option<String>,
    create_pool: bool,
) -> (r: Result<FinalizeOutcome, ContractError>)
    ensures
        match finalize_verdict(
            stream,
            *info,
            post.pool_config,
            params.exit_fee_percent,
            now,
            sender@,
            new_treasury,
            create_pool,
        ) {
            Err(f) => r matches Err(e) && refused_as(e, f),
            Ok((s, t, refund, pool, revenue, fee, sold)) => r matches Ok(o) && o.stream == s
                && o.treasury == t && o.pool == pool && o.creator_revenue == revenue && o.swap_fee
                == fee && o.total_sold == sold && o.refund == (match refund {
                Some(a) => Some(send(t, s.out_asset.denom, a)),
                None => None,
            }) && o.revenue_message == send(t, s.in_denom, revenue) && o.fee_message == send(
                params.fee_collector,
                s.in_denom,
                fee,
            ),
        },
{
    let mut stream = stream;
    if info.stream_admin != *sender {
        return Err(ContractError::Unauthorized);
    }
    sync_stream_status(&mut stream, now);
    if stream.is_finalized() || stream.is_cancelled() || !stream.is_ended() {
        return Err(not_allowed(stream.status_info.status));
    }
    match sync_stream(&mut stream, now) {
        Ok(()) => {},
        Err(e) => return Err(e),
    }
    stream.status_info.status = Status::Finalized;
    if let Some(t) = stream.threshold {
        if stream.spent_in < t {
            return Err(ContractError::ThresholdError(ThresholdError::ThresholdNotReached));
        }
    }
    let treasury = match new_treasury {
        Some(t) => t,
        None => info.treasury.clone(),
    };
    let swap_fee = match fee_amount(stream.spent_in, params.exit_fee_percent) {
        Ok(f) => f,
        Err(e) => return Err(e),
    };
    let mut creator_revenue = match stream.spent_in.checked_sub(swap_fee) {
        Some(v) => v,
        None => return Err(ContractError::Overflow),
    };
    let mut refund: Option<BankSend> = None;
    if stream.out_remaining > 0 {
        let sold = match stream.out_asset.amount.checked_sub(stream.out_remaining) {
            Some(v) => v,
            None => return Err(ContractError::Overflow),
        };
        stream.out_asset.amount = sold;
        refund = Some(
            BankSend {
                to_address: treasury.clone(),
                denom: stream.out_asset.denom.clone(),
                amount: stream.out_remaining,
            },
        );
    }
    let pool = match &post.pool_config {
        Some(PoolConfig::ConcentratedLiquidity { out_amount_clp }) => {
            if !create_pool {
                return Err(ContractError::InvalidPoolConfig);
            }
            if stream.out_asset.amount == 0 {
                return Err(ContractError::DivideByZeroError);
            }
            let in_clp = match calculate_in_amount_clp(
                stream.out_asset.amount,
                *out_amount_clp,
                creator_revenue,
            ) {
                Ok(v) => v,
                Err(e) => return Err(e),
            };
            creator_revenue = match creator_revenue.checked_sub(in_clp) {
                Some(v) => v,
                None => return Err(ContractError::Overflow),
            };
            Some((in_clp, *out_amount_clp))
        },
        None => {
            if create_pool {
                return Err(ContractError::InvalidPoolConfig);
            }
            None
        },
    };
    let total_sold = match stream.out_asset.amount.checked_sub(stream.out_remaining) {
        Some(v) => v,
        None => return Err(ContractError::Overflow),
    };
    let revenue_message = BankSend {
        to_address: treasury.clone(),
        denom: stream.in_denom.clone(),
        amount: creator_revenue,
    };
    let fee_message = BankSend {
        to_address: params.fee_collector.clone(),
        denom: stream.in_denom.clone(),
        amount: swap_fee,
    };
    Ok(
        FinalizeOutcome {
            stream,
            treasury,
            refund,
            pool,
            revenue_message,
            fee_message,
            creator_revenue,
            swap_fee,
            total_sold,
        },
    )
}

/// The exit of a subscriber from an ended (or finalized) stream.
pub struct ExitOutcome {
    pub stream: StreamState,
    /// The position brought up to date, with its exit date set.
    pub position: Position,
    /// Part of the spent in tokens kept as exit fee.
    pub swap_fee: u128,
    /// The transfers to the subscriber: the purchased out tokens (unless they vest), then the
    /// unspent in tokens, if any.
    pub messages: Vec<BankSend>,
}

/// What an exit from an ended or finalized stream is answered: `(stream, position, swap fee)`.
/// The stream is settled, a threshold that was not reached refuses the exit, a position can exit
/// once, and its shares leave the stream. A vesting needs a salt for its contract.
pub open spec fn exit_verdict(
    stream: StreamState,
    position: Position,
    vesting: Option<VestingConfig>,
    exit_fee_percent: Decimal,
    now: u64,
    salt_given: bool,
) -> Result<(StreamState, Position, u128), Refusal> {
    let s = phased(stream, now);
    if s.status_info.status == Status::Cancelled || !(s.status_info.status == Status::Ended
        || s.status_info.status == Status::Finalized) {
        Err(Refusal::NotAllowed(s.status_info.status))
    } else if sync_overflows(s, now) {
        Err(Refusal::Failed(ContractError::Overflow))
    } else {
        let s1 = synced_state(s, now);
        if below_threshold(s1) {
            Err(Refusal::Failed(ContractError::ThresholdError(ThresholdError::ThresholdNotReached)))
        } else if position.exit_date != 0 {
            Err(Refusal::Failed(ContractError::SubscriberAlreadyExited))
        } else if sync_position_fails(s1.dist_index, s1.shares, s1.in_supply, position) {
            Err(Refusal::Failed(ContractError::Overflow))
        } else {
            let p1 = synced_position(
                s1.dist_index,
                s1.shares,
                s1.status_info.last_updated,
                s1.in_supply,
                position,
            );
            if p1.shares > s1.shares {
                Err(Refusal::Failed(ContractError::Overflow))
            } else {
                match spec_fee(p1.spent, exit_fee_percent) {
                    Err(e) => Err(Refusal::Failed(e)),
                    Ok(fee) => if vesting is Some && !salt_given {
                        Err(Refusal::Failed(ContractError::InvalidSalt))
                    } else if fee > p1.spent {
                        Err(Refusal::Failed(ContractError::Overflow))
                    } else {
                        Ok(
                            (
                                StreamState { shares: (s1.shares - p1.shares) as u128, ..s1 },
                                Position { exit_date: now, ..p1 },
                                fee,
                            ),
                        )
                    },
                }
            }
        }
    }
}

/// The transfers that pay an exiting subscriber: the purchased out tokens unless they vest, then
/// the unspent in tokens if any.
pub open spec fn exit_messages(
    stream: StreamState,
    position: Position,
    recipient: String,
    vesting: Option<VestingConfig>,
) -> Seq<BankSend> {
    let bought: Seq<BankSend> = if vesting is None {
        seq![send(recipient, stream.out_asset.denom, position.purchased)]
    } else {
        Seq::empty()
    };
    if position.in_balance != 0 {
        bought.push(send(recipient, stream.in_denom, position.in_balance))
    } else {
        bought
    }
}

/// Exits an ended or finalized stream with the sender's position: settles the stream and the
/// position, withdraws the position's shares, marks it exited, and pays the purchased out tokens
/// (or hands them to a vesting, for which `salt_given` says whether a salt came) and the unspent
/// in tokens to the sender.
#[allow(clippy::too_many_arguments)]
pub fn execute_exit_stream(
    stream: StreamState,
    position: Position,
    post: &PostStreamActions,
    params: &Params,
    now: u64,
    sender: &String,
    salt_given: bool,
) -> (r: Result<ExitOutcome, ContractError>)
    ensures
        match exit_verdict(
            stream,
            position,
            post.subscriber_vesting,
            params.exit_fee_percent,
            now,
            salt_given,
        ) {
            Err(f) => r matches Err(e) && refused_as(e, f),
            Ok((s, p, fee)) => r matches Ok(o) && o.stream == s && o.position == p && o.swap_fee
                == fee && o.messages@ == exit_messages(
                s,
                p,
                *sender,
                post.subscriber_vesting,
            ),
        },
{
    let mut stream = stream;
    let mut position = position;
    sync_stream_status(&mut stream, now);
    if stream.is_cancelled() || !(stream.is_ended() || stream.is_finalized()) {
        return Err(not_allowed(stream.status_info.status));
    }
    match sync_stream(&mut stream, now) {
        Ok(()) => {},
        Err(e) => return Err(e),
    }
    if let Some(t) = stream.threshold {
        if stream.spent_in < t {
            return Err(ContractError::ThresholdError(ThresholdError::ThresholdNotReached));
        }
    }
    if position.exit_date != 0 {
        return Err(ContractError::SubscriberAlreadyExited);
    }
    match sync_position(
        stream.dist_index,
        stream.shares,
        stream.status_info.last_updated,
        stream.in_supply,
        &mut position,
    ) {
        Ok(_) => {},
        Err(e) => return Err(e),
    }
    stream.shares = match stream.shares.checked_sub(position.shares) {
        Some(v) => v,
        None => return Err(ContractError::Overflow),
    };
    position.exit_date = now;
    let swap_fee = match fee_amount(position.spent, params.exit_fee_percent) {
        Ok(f) => f,
        Err(e) => return Err(e),
    };
    let mut messages: Vec<BankSend> = Vec::new();
    match &post.subscriber_vesting {
        Some(_) => {
            if !salt_given {
                return Err(ContractError::InvalidSalt);
            }
        },
        None => {
            messages.push(
                BankSend {
                    to_address: sender.clone(),
                    denom: stream.out_asset.denom.clone(),
                    amount: position.purchased,
                },
            );
        },
    }
    if position.in_balance != 0 {
        messages.push(
            BankSend {
                to_address: sender.clone(),
                denom: stream.in_denom.clone(),
                amount: position.in_balance,
            },
        );
    }
    if swap_fee > position.spent {
        return Err(ContractError::Overflow);
    }
    Ok(ExitOutcome { stream, position, swap_fee, messages })
}

/// What a request to leave a cancelled stream (or an ended one that missed its threshold) with
/// the sender's position is answered: the position marked exited, and everything it deposited
/// (its balance and what it spent), to be paid back.
pub open spec fn exit_cancelled_verdict(stream: StreamState, position: Position, now: u64, sender: Seq<char>) -> Result<
    (Position, u128),
    Refusal,
> {
    let s = phased(stream, now);
    if position.owner@ != sender {
        Err(Refusal::Failed(ContractError::Unauthorized))
    } else if position.exit_date != 0 {
        Err(Refusal::Failed(ContractError::SubscriberAlreadyExited))
    } else if s.status_info.status != Status::Cancelled && (s.threshold is None
        || s.status_info.status != Status::Ended) {
        Err(Refusal::Failed(ContractError::StreamNotCancelled))
    } else if s.status_info.status != Status::Cancelled && sync_overflows(s, now) {
        Err(Refusal::Failed(ContractError::Overflow))
    } else if s.status_info.status != Status::Cancelled && !below_threshold(synced_state(s, now)) {
        Err(Refusal::Failed(ContractError::ThresholdError(ThresholdError::ThresholdReached)))
    } else if position.in_balance + position.spent > u128::MAX {
        // The refund is a bank coin, of 128 bits.
        Err(Refusal::Failed(ContractError::ConversionOverflowError))
    } else {
        Ok((Position { exit_date: now, ..position }, (position.in_balance + position.spent) as u128))
    }
}

/// Refund of a subscriber leaving a stream that did not sell.
pub struct ExitCancelledOutcome {
    pub position: Position,
    pub total_balance: u128,
    pub message: BankSend,
}

/// Leaves a cancelled stream, or an ended stream whose threshold was not reached, with the
/// sender's position: everything it deposited is paid back to the sender and the position is
/// marked exited.
pub fn execute_exit_cancelled(stream: StreamState, position: Position, now: u64, sender: &String) -> (r:
    Result<ExitCancelledOutcome, ContractError>)
    ensures
        match exit_cancelled_verdict(stream, position, now, sender@) {
            Err(f) => r matches Err(e) && refused_as(e, f),
            Ok((p, total)) => r matches Ok(o) && o.position == p && o.total_balance == total
                && o.message == send(*sender, stream.in_denom, total),
        },
{
    let mut stream = stream;
    let mut position = position;
    if position.owner != *sender {
        return Err(ContractError::Unauthorized);
    }
    if position.exit_date != 0 {
        return Err(ContractError::SubscriberAlreadyExited);
    }
    sync_stream_status(&mut stream, now);
    if !stream.is_cancelled() {
        if stream.threshold.is_none() {
            return Err(ContractError::StreamNotCancelled);
        }
        if !stream.is_ended() {
            return Err(ContractError::StreamNotCancelled);
        }
        match sync_stream(&mut stream, now) {
            Ok(()) => {},
            Err(e) => return Err(e),
        }
        if let Some(t) = stream.threshold {
            if stream.spent_in >= t {
                return Err(ContractError::ThresholdError(ThresholdError::ThresholdReached));
            }
        }
    }
    let total_balance = match position.in_balance.checked_add(position.spent) {
        Some(v) => v,
        None => return Err(ContractError::ConversionOverflowError),
    };
    position.exit_date = now;
    let message = BankSend {
        to_address: sender.clone(),
        denom: stream.in_denom.clone(),
        amount: total_balance,
    };
    Ok(ExitCancelledOutcome { position, total_balance, message })
}

/// A cancelled stream and the transfers that refund its creator.
pub struct CancelOutcome {
    pub stream: StreamState,
    pub messages: Vec<BankSend>,
}

/// The refund of a cancelled stream's out tokens to the treasury (nothing when there are none).
pub open spec fn refund_messages(s: StreamState, treasury: String) -> Seq<BankSend> {
    if s.out_asset.amount > 0 {
        seq![send(treasury, s.out_asset.denom, s.out_asset.amount)]
    } else {
        Seq::empty()
    }
}

/// The stream cancelled and brought up to `now`.
pub open spec fn cancelled_state(s: StreamState, now: u64) -> StreamState {
    synced_state(
        StreamState { status_info: StatusInfo { status: Status::Cancelled, ..s.status_info }, ..s },
        now,
    )
}

/// What a cancellation is answered once its sender is authorized, when the stream's phase is
/// among the allowed ones.
pub open spec fn cancel_verdict(stream: StreamState, now: u64, allowed: bool) -> Result<StreamState, Refusal> {
    let s = phased(stream, now);
    if !allowed {
        Err(Refusal::NotAllowed(s.status_info.status))
    } else if sync_overflows(s, now) {
        Err(Refusal::Failed(ContractError::Overflow))
    } else {
        Ok(cancelled_state(s, now))
    }
}

fn cancel_and_refund(stream: StreamState, now: u64, treasury: &String) -> (r: Result<CancelOutcome, ContractError>)
    ensures
        sync_overflows(stream, now) ==> r == Err::<CancelOutcome, ContractError>(ContractError::Overflow),
        !sync_overflows(stream, now) ==> (r matches Ok(o) && o.stream == cancelled_state(stream, now)
            && o.messages@ == refund_messages(o.stream, *treasury)),
{
    let mut stream = stream;
    stream.status_info.status = Status::Cancelled;
    match sync_stream(&mut stream, now) {
        Ok(()) => {},
        Err(e) => return Err(e),
    }
    let mut messages: Vec<BankSend> = Vec::new();
    if stream.out_asset.amount > 0 {
        messages.push(
            BankSend {
                to_address: treasury.clone(),
                denom: stream.out_asset.denom.clone(),
                amount: stream.out_asset.amount,
            },
        );
    }
    Ok(CancelOutcome { stream, messages })
}

/// Cancels a stream that is neither finalized nor cancelled, on behalf of the protocol admin:
/// the stream is brought up to `now` and its out tokens are refunded to the treasury.
pub fn execute_cancel_stream(
    params: &Params,
    info: &StreamInfo,
    stream: StreamState,
    now: u64,
    sender: &String,
) -> (r: Result<CancelOutcome, ContractError>)
    ensures
        sender@ != params.protocol_admin@ ==> r == Err::<CancelOutcome, ContractError>(
            ContractError::Unauthorized,
        ),
        sender@ == params.protocol_admin@ ==> match cancel_verdict(
            stream,
            now,
            !(phased(stream, now).status_info.status == Status::Finalized || phased(
                stream,
                now,
            ).status_info.status == Status::Cancelled),
        ) {
            Err(f) => r matches Err(e) && refused_as(e, f),
            Ok(s) => r matches Ok(o) && o.stream == s && o.messages@ == refund_messages(
                s,
                info.treasury,
            ),
        },
{
    if params.protocol_admin != *sender {
        return Err(ContractError::Unauthorized);
    }
    let mut stream = stream;
    sync_stream_status(&mut stream, now);
    if stream.is_finalized() || stream.is_cancelled() {
        return Err(not_allowed(stream.status_info.status));
    }
    cancel_and_refund(stream, now, &info.treasury)
}

/// Cancels a stream that is still waiting, on behalf of its admin: its out tokens are refunded
/// to the treasury.
pub fn execute_stream_admin_cancel(info: &StreamInfo, stream: StreamState, now: u64, sender: &String) -> (r:
    Result<CancelOutcome, ContractError>)
    ensures
        sender@ != info.stream_admin@ ==> r == Err::<CancelOutcome, ContractError>(
            ContractError::Unauthorized,
        ),
        sender@ == info.stream_admin@ ==> match cancel_verdict(
            stream,
            now,
            phased(stream, now).status_info.status == Status::Waiting,
        ) {
            Err(f) => r matches Err(e) && refused_as(e, f),
            Ok(s) => r matches Ok(o) && o.stream == s && o.messages@ == refund_messages(
                s,
                info.treasury,
            ),
        },
{
    if *sender != info.stream_admin {
        return Err(ContractError::Unauthorized);
    }
    let mut stream = stream;
    sync_stream_status(&mut stream, now);
    if !stream.is_waiting() {
        return Err(not_allowed(stream.status_info.status));
    }
    cancel_and_refund(stream, now, &info.treasury)
}

/// What a treasury's request to cancel an ended stream that missed its threshold is answered:
/// the stream settled and cancelled.
pub open spec fn cancel_with_threshold_verdict(stream: StreamState, treasury: Seq<char>, now: u64, sender: Seq<char>) -> Result<
    StreamState,
    ContractError,
> {
    let s = phased(stream, now);
    if s.status_info.status == Status::Cancelled {
        Err(ContractError::StreamKillswitchActive)
    } else if s.status_info.status != Status::Ended {
        Err(ContractError::StreamNotEnded)
    } else if sender != treasury {
        Err(ContractError::Unauthorized)
    } else if sync_overflows(s, now) {
        Err(ContractError::Overflow)
    } else if s.threshold is None {
        Err(ContractError::ThresholdError(ThresholdError::ThresholdNotSet))
    } else if !below_threshold(synced_state(s, now)) {
        Err(ContractError::ThresholdError(ThresholdError::ThresholdReached))
    } else {
        Ok(cancelled_state(s, now))
    }
}

/// Cancels an ended stream whose threshold was set and not reached, on behalf of its treasury,
/// refunding its out tokens.
pub fn execute_cancel_stream_with_threshold(
    info: &StreamInfo,
    stream: StreamState,
    now: u64,
    sender: &String,
) -> (r: Result<CancelOutcome, ContractError>)
    ensures
        match cancel_with_threshold_verdict(stream, info.treasury@, now, sender@) {
            Err(e) => r == Err::<CancelOutcome, ContractError>(e),
            Ok(s) => r matches Ok(o) && o.stream == s && o.messages@ == seq![
                send(info.treasury, s.out_asset.denom, s.out_asset.amount),
            ],
        },
{
    let mut stream = stream;
    sync_stream_status(&mut stream, now);
    if stream.is_cancelled() {
        return Err(ContractError::StreamKillswitchActive);
    }
    if !stream.is_ended() {
        return Err(ContractError::StreamNotEnded);
    }
    if *sender != info.treasury {
        return Err(ContractError::Unauthorized);
    }
    match sync_stream(&mut stream, now) {
        Ok(()) => {},
        Err(e) => return Err(e),
    }
    let threshold = match stream.threshold {
        Some(t) => t,
        None => return Err(ContractError::ThresholdError(ThresholdError::ThresholdNotSet)),
    };
    if stream.spent_in >= threshold {
        return Err(ContractError::ThresholdError(ThresholdError::ThresholdReached));
    }
    stream.status_info.status = Status::Cancelled;
    let mut messages: Vec<BankSend> = Vec::new();
    messages.push(
        BankSend {
            to_address: info.treasury.clone(),
            denom: stream.out_asset.denom.clone(),
            amount: stream.out_asset.amount,
        },
    );
    Ok(CancelOutcome { stream, messages })
}

/// What the instantiation of a stream is answered: its times, denoms, name, url and threshold
/// are checked, then the stream starts waiting with all of its out asset to sell.
pub open spec fn instantiate_verdict(
    now: u64,
    params: Params,
    name: Seq<char>,
    url: Option<Seq<char>>,
    out_asset: Coin,
    in_denom: Seq<char>,
    bootstrapping_start_time: u64,
    start_time: u64,
    end_time: u64,
    threshold: Option<u128>,
) -> Result<(), ContractError> {
    if stream_times_verdict(now, bootstrapping_start_time, start_time, end_time, params) is Err {
        stream_times_verdict(now, bootstrapping_start_time, start_time, end_time, params)
    } else if in_denom == out_asset.denom@ {
        Err(ContractError::SameDenomOnEachSide)
    } else if name_and_url_verdict(name, url) is Err {
        name_and_url_verdict(name, url)
    } else if threshold == Some(0u128) {
        Err(ContractError::ThresholdError(ThresholdError::ThresholdZero))
    } else {
        Ok(())
    }
}

/// Instantiates a stream with the controller's settings: the new stream's state, its
/// information and what is done with its proceeds once it ends.
#[allow(clippy::too_many_arguments)]
pub fn instantiate(
    now: u64,
    params: &Params,
    treasury: String,
    stream_admin: String,
    name: String,
    url: Option<String>,
    out_asset: Coin,
    in_denom: String,
    bootstrapping_start_time: u64,
    start_time: u64,
    end_time: u64,
    threshold: Option<u128>,
    pool_config: Option<PoolConfig>,
    subscriber_vesting: Option<VestingConfig>,
    creator_vesting: Option<VestingConfig>,
) -> (r: Result<(StreamState, StreamInfo, PostStreamActions), ContractError>)
    ensures
        ({
            let v = instantiate_verdict(
                now,
                *params,
                name@,
                match url {
                    Some(u) => Some(u@),
                    None => None,
                },
                out_asset,
                in_denom@,
                bootstrapping_start_time,
                start_time,
                end_time,
                threshold,
            );
            match v {
                Err(e) => r == Err::<(StreamState, StreamInfo, PostStreamActions), ContractError>(e),
                Ok(()) => r == Ok::<(StreamState, StreamInfo, PostStreamActions), ContractError>(
                    (
                        StreamState {
                            dist_index: wide(0),
                            out_remaining: out_asset.amount,
                            in_denom,
                            in_supply: 0,
                            spent_in: 0,
                            shares: 0,
                            current_streamed_price: wide(0),
                            out_asset,
                            status_info: StatusInfo {
                                status: Status::Waiting,
                                bootstrapping_start_time,
                                start_time,
                                end_time,
                                last_updated: now,
                            },
                            threshold,
                        },
                        StreamInfo { stream_admin, name, treasury, url },
                        PostStreamActions { pool_config, subscriber_vesting, creator_vesting },
                    ),
                ),
            }
        }),
{
    match validate_stream_times(now, bootstrapping_start_time, start_time, end_time, params) {
        Ok(()) => {},
        Err(e) => return Err(e),
    }
    if in_denom == out_asset.denom {
        return Err(ContractError::SameDenomOnEachSide);
    }
    match check_name_and_url(&name, &url) {
        Ok(()) => {},
        Err(e) => return Err(e),
    }
    if threshold == Some(0u128) {
        return Err(ContractError::ThresholdError(ThresholdError::ThresholdZero));
    }
    let state = StreamState::new(
        now,
        out_asset,
        in_denom,
        bootstrapping_start_time,
        start_time,
        end_time,
        threshold,
    );
    let info = StreamInfo::new(stream_admin, name, treasury, url);
    let post = PostStreamActions::new(pool_config, subscriber_vesting, creator_vesting);
    Ok((state, info, post))
}

/// Read-only requests to a phased stream.
#[derive(Clone, Debug, PartialEq, Eq)]
pub enum QueryMsg {
    Params,
    Stream,
    Position { owner: String },
    ListPositions { start_after: Option<String>, limit: Option<u32> },
    AveragePrice,
    LastStreamedPrice,
    Threshold,
}

/// Request to migrate a phased stream's contract.
#[derive(Clone, Debug, PartialEq, Eq)]
pub struct MigrateMsg {}

/// The state of a phased stream, as a query answers it.
#[derive(Clone, Debug, PartialEq, Eq)]
pub struct StreamResponse {
    pub treasury: String,
    pub in_denom: String,
    pub out_asset: Coin,
    pub start_time: u64,
    pub end_time: u64,
    pub last_updated: u64,
    pub spent_in: u128,
    pub dist_index: WideDecimal,
    pub out_remaining: u128,
    pub in_supply: u128,
    pub shares: u128,
    pub status: Status,
    pub url: Option<String>,
    pub current_streamed_price: WideDecimal,
    pub stream_admin: String,
}

/// The state of a phased stream, as a query answers it.
pub fn query_stream(stream: &StreamState, info: &StreamInfo) -> (r: StreamResponse)
    ensures
        r == (StreamResponse {
            treasury: info.treasury,
            in_denom: stream.in_denom,
            out_asset: stream.out_asset,
            start_time: stream.status_info.start_time,
            end_time: stream.status_info.end_time,
            last_updated: stream.status_info.last_updated,
            spent_in: stream.spent_in,
            dist_index: stream.dist_index,
            out_remaining: stream.out_remaining,
            in_supply: stream.in_supply,
            shares: stream.shares,
            status: stream.status_info.status,
            url: info.url,
            current_streamed_price: stream.current_streamed_price,
            stream_admin: info.stream_admin,
        }),
{
    StreamResponse {
        treasury: info.treasury.clone(),
        in_denom: stream.in_denom.clone(),
        out_asset: Coin { denom: stream.out_asset.denom.clone(), amount: stream.out_asset.amount },
        start_time: stream.status_info.start_time,
        end_time: stream.status_info.end_time,
        last_updated: stream.status_info.last_updated,
        spent_in: stream.spent_in,
        dist_index: stream.dist_index,
        out_remaining: stream.out_remaining,
        in_supply: stream.in_supply,
        shares: stream.shares,
        status: stream.status_info.status,
        url: match &info.url {
            Some(u) => Some(u.clone()),
            None => None,
        },
        current_streamed_price: stream.current_streamed_price,
        stream_admin: info.stream_admin.clone(),
    }
}

/// The state of a position in a phased stream, as a query answers it.
#[derive(Clone, Debug, PartialEq, Eq)]
pub struct PositionResponse {
    pub owner: String,
    pub in_balance: u128,
    pub purchased: u128,
    pub index: WideDecimal,
    pub spent: u128,
    pub shares: u128,
    pub last_updated: u64,
    pub pending_purchase: WideDecimal,
    pub exit_date: u64,
}

/// The state of a position, as a query answers it.
pub fn query_position(owner: String, position: &Position) -> (r: PositionResponse)
    ensures
        r == (PositionResponse {
            owner,
            in_balance: position.in_balance,
            purchased: position.purchased,
            index: position.index,
            spent: position.spent,
            shares: position.shares,
            last_updated: position.last_updated,
            pending_purchase: position.pending_purchase,
            exit_date: position.exit_date,
        }),
{
    PositionResponse {
        owner,
        in_balance: position.in_balance,
        purchased: position.purchased,
        index: position.index,
        spent: position.spent,
        shares: position.shares,
        last_updated: position.last_updated,
        pending_purchase: position.pending_purchase,
        exit_date: position.exit_date,
    }
}

/// Average price of the sale so far: in tokens spent per out token released. Defined once
/// something has been released.
pub fn query_average_price(stream: &StreamState) -> (r: Result<AveragePriceResponse, ContractError>)
    requires
        stream.out_remaining < stream.out_asset.amount,
    ensures
        r == Ok::<AveragePriceResponse, ContractError>(
            AveragePriceResponse {
                average_price: wide(ratio(stream.spent_in as int, scale(), (stream.out_asset.amount - stream.out_remaining) as int)),
            },
        ),
{
    let total_purchased = stream.out_asset.amount - stream.out_remaining;
    match WideDecimal::from_ratio(stream.spent_in, total_purchased) {
        Ok(average_price) => Ok(AveragePriceResponse { average_price }),
        Err(e) => Err(e),
    }
}

/// Price of the latest distribution of a phased stream.
pub fn query_last_streamed_price(stream: &StreamState) -> (r: LatestStreamedPriceResponse)
    ensures
        r == (LatestStreamedPriceResponse { current_streamed_price: stream.current_streamed_price }),
{
    LatestStreamedPriceResponse { current_streamed_price: stream.current_streamed_price }
}

/// The threshold of a phased stream, if one was set.
pub fn query_threshold_state(stream: &StreamState) -> (r: Option<u128>)
    ensures
        r == stream.threshold,
{
    stream.threshold
}

} // verus!
