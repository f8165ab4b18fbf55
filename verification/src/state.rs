use crate::error::ContractError;
use crate::math::{wide, Decimal, WideDecimal};
use vstd::prelude::*;

verus! {

/// An amount of a native token.
#[derive(Clone, Debug, PartialEq, Eq)]
pub struct Coin {
    pub denom: String,
    pub amount: u128,
}

/// A transfer of `amount` of `denom` to `to_address`.
#[derive(Clone, Debug, PartialEq, Eq)]
pub struct BankSend {
    pub to_address: String,
    pub denom: String,
    pub amount: u128,
}

/// Protocol-wide settings.
#[derive(Clone, Debug, PartialEq, Eq)]
pub struct Config {
    /// Minimum sale duration in seconds.
    pub min_stream_seconds: u64,
    /// Minimum duration between the current time and the start time, in seconds.
    pub min_seconds_until_start_time: u64,
    /// The only denom accepted on the buy side.
    pub accepted_in_denom: String,
    /// Denom of the stream creation fee.
    pub stream_creation_denom: String,
    /// Amount of the stream creation fee.
    pub stream_creation_fee: u128,
    /// Share of the spent in tokens that the protocol keeps.
    pub exit_fee_percent: Decimal,
    /// Receiver of the fees.
    pub fee_collector: String,
    /// May pause, resume and cancel streams.
    pub protocol_admin: String,
}

/// Life cycle of a stream.
#[derive(Clone, Copy, Debug, PartialEq, Eq, Structural)]
pub enum Status {
    /// Waiting for the first subscription or for the start time.
    Waiting,
    Active,
    Finalized,
    Paused,
    Cancelled,
}

/// A continuous sale of `out_supply` of `out_denom` against `in_denom` between `start_time` and
/// `end_time` (nanoseconds).
#[derive(Clone, Debug, PartialEq, Eq)]
pub struct Stream {
    pub name: String,
    /// Receiver of the earned in tokens.
    pub treasury: String,
    pub url: Option<String>,
    /// Out tokens released per share since the start.
    pub dist_index: WideDecimal,
    pub last_updated: u64,
    pub out_denom: String,
    pub out_supply: u128,
    /// Out tokens not released yet.
    pub out_remaining: u128,
    pub in_denom: String,
    /// In tokens deposited and not spent yet.
    pub in_supply: u128,
    /// In tokens spent so far.
    pub spent_in: u128,
    pub shares: u128,
    pub start_time: u64,
    pub end_time: u64,
    /// Price of the latest distribution: in tokens spent per out token released.
    pub current_streamed_price: WideDecimal,
    pub status: Status,
    pub pause_date: Option<u64>,
    pub stream_creation_denom: String,
    pub stream_creation_fee: u128,
    pub stream_exit_fee_percent: Decimal,
}

/// A subscription to a stream.
#[derive(Clone, Debug, PartialEq, Eq)]
pub struct Position {
    pub owner: String,
    /// In tokens deposited and not spent yet.
    pub in_balance: u128,
    pub shares: u128,
    /// Distribution index of the stream when the position was last brought up to date.
    pub index: WideDecimal,
    pub last_updated: u64,
    /// Whole out tokens bought so far.
    pub purchased: u128,
    /// Fraction of an out token bought but not yet counted in `purchased`.
    pub pending_purchase: WideDecimal,
    /// In tokens spent so far.
    pub spent: u128,
    /// May act on the position on behalf of the owner.
    pub operator: Option<String>,
}

/// The shares that `amount_in` in tokens are worth: proportional to the stream's shares per
/// unit of in supply, rounded up or down; the amount itself while the stream has no shares.
pub open spec fn shares_for(stream_shares: int, in_supply: int, amount_in: int, round_up: bool) -> int {
    if stream_shares == 0 || amount_in == 0 {
        amount_in
    } else if round_up {
        (stream_shares * amount_in + in_supply - 1) / in_supply
    } else {
        stream_shares * amount_in / in_supply
    }
}

/// `value * numerator / denominator`, rounded up, with 256-bit intermediate; a zero denominator
/// and a result beyond 128 bits are errors.
pub open spec fn checked_ceil_ratio(value: int, numerator: int, denominator: int) -> Result<
    u128,
    ContractError,
> {
    if denominator == 0 {
        Err(ContractError::DivideByZeroError)
    } else if (value * numerator + denominator - 1) / denominator > u128::MAX {
        Err(ContractError::Overflow)
    } else {
        Ok(((value * numerator + denominator - 1) / denominator) as u128)
    }
}

/// `Uint128::checked_mul_ceil` of cosmwasm-std with the fraction `numerator / denominator`:
/// the product is taken in 256 bits and rounded up; a zero denominator and a result beyond
/// 128 bits are errors.
#[verifier::external_body]
pub(crate) fn uint128_checked_mul_ceil(value: u128, numerator: u128, denominator: u128) -> (r: Result<
    u128,
    ContractError,
>)
    ensures
        r == checked_ceil_ratio(value as int, numerator as int, denominator as int),
{
    match cosmwasm_std::Uint128::new(value).checked_mul_ceil((numerator, denominator)) {
        Ok(v) => Ok(v.u128()),
        Err(cosmwasm_std::CheckedMultiplyFractionError::DivideByZero(_)) => Err(
            ContractError::DivideByZeroError,
        ),
        Err(_) => Err(ContractError::Overflow),
    }
}

impl Stream {
    #[allow(clippy::too_many_arguments)]
    pub fn new(
        name: String,
        treasury: String,
        url: Option<String>,
        out_denom: String,
        out_supply: u128,
        in_denom: String,
        start_time: u64,
        end_time: u64,
        last_updated: u64,
        stream_creation_denom: String,
        stream_creation_fee: u128,
        stream_exit_fee_percent: Decimal,
    ) -> (s: Stream)
        ensures
            s.name == name,
            s.treasury == treasury,
            s.url == url,
            s.dist_index == wide(0),
            s.last_updated == last_updated,
            s.out_denom == out_denom,
            s.out_supply == out_supply,
            s.out_remaining == out_supply,
            s.in_denom == in_denom,
            s.in_supply == 0,
            s.spent_in == 0,
            s.shares == 0,
            s.start_time == start_time,
            s.end_time == end_time,
            s.current_streamed_price == wide(0),
            s.status == Status::Waiting,
            s.pause_date == None::<u64>,
            s.stream_creation_denom == stream_creation_denom,
            s.stream_creation_fee == stream_creation_fee,
            s.stream_exit_fee_percent == stream_exit_fee_percent,
    {
        Stream {
            name,
            treasury,
            url,
            dist_index: WideDecimal::zero(),
            last_updated,
            out_denom,
            out_supply,
            out_remaining: out_supply,
            in_denom,
            in_supply: 0,
            spent_in: 0,
            shares: 0,
            start_time,
            end_time,
            current_streamed_price: WideDecimal::zero(),
            status: Status::Waiting,
            pause_date: None,
            stream_creation_denom,
            stream_creation_fee,
            stream_exit_fee_percent,
        }
    }

    /// Whether the shares for `amount_in` can be computed: a division by the in supply happens
    /// only when the stream has shares and the amount is not zero.
    pub open spec fn shares_computable(&self, amount_in: u128) -> bool {
        self.shares == 0 || amount_in == 0 || self.in_supply > 0
    }

    /// The shares that `amount_in` in tokens are worth, or an overflow when they exceed 128 bits.
    pub open spec fn spec_shares_amount(&self, amount_in: u128, round_up: bool) -> Result<
        u128,
        ContractError,
    > {
        if shares_for(self.shares as int, self.in_supply as int, amount_in as int, round_up)
            > u128::MAX {
            Err(ContractError::Overflow)
        } else {
            Ok(shares_for(self.shares as int, self.in_supply as int, amount_in as int, round_up) as u128)
        }
    }

    /// Computes the amount of shares minted for (or burnt by) a subscription (or a withdrawal)
    /// of `amount_in`.
    pub fn compute_shares_amount(&self, amount_in: u128, round_up: bool) -> (r: Result<
        u128,
        ContractError,
    >)
        requires
            self.shares_computable(amount_in),
        ensures
            r == self.spec_shares_amount(amount_in, round_up),
    {
        if self.shares == 0 || amount_in == 0 {
            return Ok(amount_in);
        }
        if round_up {
            uint128_checked_mul_ceil(self.shares, amount_in, self.in_supply)
        } else {
            crate::math::multiply_ratio(self.shares, amount_in, self.in_supply)
        }
    }

    pub fn is_paused(&self) -> (b: bool)
        ensures
            b == (self.status == Status::Paused),
    {
        self.status == Status::Paused
    }

    pub fn is_cancelled(&self) -> (b: bool)
        ensures
            b == (self.status == Status::Cancelled),
    {
        self.status == Status::Cancelled
    }

    pub fn is_killswitch_active(&self) -> (b: bool)
        ensures
            b == (self.status == Status::Cancelled || self.status == Status::Paused),
    {
        self.status == Status::Cancelled || self.status == Status::Paused
    }
}

impl Position {
    pub fn new(
        owner: String,
        in_balance: u128,
        shares: u128,
        index: Option<WideDecimal>,
        last_updated: u64,
        operator: Option<String>,
    ) -> (p: Position)
        ensures
            p.owner == owner,
            p.in_balance == in_balance,
            p.shares == shares,
            p.index == (match index {
                Some(i) => i,
                None => wide(0),
            }),
            p.last_updated == last_updated,
            p.purchased == 0,
            p.pending_purchase == wide(0),
            p.spent == 0,
            p.operator == operator,
    {
        let index = match index {
            Some(i) => i,
            None => WideDecimal::zero(),
        };
        Position {
            owner,
            in_balance,
            shares,
            index,
            last_updated,
            purchased: 0,
            pending_purchase: WideDecimal::zero(),
            spent: 0,
            operator,
        }
    }
}

/// The identifier given to the next stream: one more than the last one given, the first being 1.
pub fn next_stream_id(last_id: Option<u64>) -> (r: Result<u64, ContractError>)
    ensures
        match last_id {
            Some(l) => if l == u64::MAX {
                r == Err::<u64, ContractError>(ContractError::Overflow)
            } else {
                r == Ok::<u64, ContractError>((l + 1) as u64)
            },
            None => r == Ok::<u64, ContractError>(1),
        },
{
    match last_id {
        Some(l) => {
            if l == u64::MAX {
                Err(ContractError::Overflow)
            } else {
                Ok(l + 1)
            }
        },
        None => Ok(1),
    }
}

} // verus!
