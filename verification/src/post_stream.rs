//! What a stream hands over once it ends: the vesting contract that holds a recipient's tokens,
//! and the initial position of the pool created with part of the proceeds. The chain computes
//! the vesting contract's address; the library decides everything that goes into the messages.
use crate::error::ContractError;
use crate::lifecycle::VestingConfig;
use crate::state::Coin;
use vstd::prelude::*;

verus! {

/// The vesting contract that a stream instantiates for `recipient`: it holds `total` of `denom`
/// and releases it by `schedule` from `start_time` (nanoseconds).
#[derive(Clone, Debug, PartialEq, Eq)]
pub struct VestingPlan {
    pub code_id: u64,
    /// Label of the contract instance: the denom, a hyphen and the recipient.
    pub label: String,
    /// Title of the vesting: which stream releases to whom.
    pub title: String,
    pub recipient: String,
    pub total: u128,
    pub denom: String,
    pub config: VestingConfig,
    pub start_time: u64,
    /// Salt of the deterministic address of the contract instance.
    pub salt: Vec<u8>,
    /// The tokens sent along with the instantiation.
    pub funds: Coin,
}

pub open spec fn vesting_title(stream_addr: Seq<char>, recipient: Seq<char>) -> Seq<char> {
    "Stream addr "@ + stream_addr + " released to "@ + recipient
}

pub open spec fn vesting_label(denom: Seq<char>, recipient: Seq<char>) -> Seq<char> {
    denom + "-"@ + recipient
}

/// Plans the vesting of `amount` of `denom` released by the stream at `stream_addr` to
/// `recipient`: refused without a salt, since the contract's address is derived from it.
#[allow(clippy::too_many_arguments)]
pub fn vesting_operations(
    stream_addr: &String,
    recipient: &String,
    salt: Option<Vec<u8>>,
    start_time: u64,
    vesting_code_id: u64,
    amount: u128,
    denom: String,
    vesting_config: VestingConfig,
) -> (r: Result<VestingPlan, ContractError>)
    ensures
        salt is None ==> r == Err::<VestingPlan, ContractError>(ContractError::InvalidSalt),
        salt matches Some(s) ==> (r matches Ok(p) && p.code_id == vesting_code_id
            && p.label@ == vesting_label(denom@, recipient@) && p.title@ == vesting_title(
            stream_addr@,
            recipient@,
        ) && p.recipient == *recipient && p.total == amount && p.denom == denom && p.config
            == vesting_config && p.start_time == start_time && p.salt@ == s@ && p.funds == (Coin {
            denom,
            amount,
        })),
{
    let salt = match salt {
        Some(s) => s,
        None => return Err(ContractError::InvalidSalt),
    };
    let title = String::from_str("Stream addr ").concat(stream_addr.as_str()).concat(
        " released to ",
    ).concat(recipient.as_str());
    let label = denom.clone().concat("-").concat(recipient.as_str());
    let funds = Coin { denom: denom.clone(), amount };
    Ok(
        VestingPlan {
            code_id: vesting_code_id,
            label,
            title,
            recipient: recipient.clone(),
            total: amount,
            denom,
            config: vesting_config,
            start_time,
            salt,
            funds,
        },
    )
}

/// A request to open a position in a concentrated liquidity pool.
#[derive(Clone, Debug, PartialEq, Eq)]
pub struct CreatePositionMsg {
    pub pool_id: u64,
    pub sender: String,
    pub lower_tick: i64,
    pub upper_tick: i64,
    pub tokens_provided: Vec<Coin>,
    pub token_min_amount0: u128,
    pub token_min_amount1: u128,
}

/// The initial position of the pool created at the end of a stream: the out tokens set aside for
/// the pool and the in tokens that go with them, over the whole range of ticks, with no minimum.
pub fn build_create_initial_position_msg(
    pool_id: u64,
    sender: String,
    stream_in_denom: String,
    in_clp: u128,
    stream_out_asset_denom: String,
    pool_out_amount_clp: u128,
) -> (m: CreatePositionMsg)
    ensures
        m.pool_id == pool_id,
        m.sender == sender,
        m.lower_tick == 0,
        m.upper_tick == i64::MAX,
        m.tokens_provided@ == seq![
            Coin { denom: stream_out_asset_denom, amount: pool_out_amount_clp },
            Coin { denom: stream_in_denom, amount: in_clp },
        ],
        m.token_min_amount0 == 0,
        m.token_min_amount1 == 0,
{
    let mut tokens_provided: Vec<Coin> = Vec::new();
    tokens_provided.push(Coin { denom: stream_out_asset_denom, amount: pool_out_amount_clp });
    tokens_provided.push(Coin { denom: stream_in_denom, amount: in_clp });
    CreatePositionMsg {
        pool_id,
        sender,
        lower_tick: 0,
        upper_tick: i64::MAX,
        tokens_provided,
        token_min_amount0: 0,
        token_min_amount1: 0,
    }
}

} // verus!
