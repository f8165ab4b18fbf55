use crate::math::{Decimal, WideDecimal};
use crate::state::Status;
use vstd::prelude::*;

verus! {

/// Protocol settings asked for at instantiation.
#[derive(Clone, Debug, PartialEq, Eq)]
pub struct InstantiateMsg {
    pub min_stream_seconds: u64,
    pub min_seconds_until_start_time: u64,
    pub stream_creation_denom: String,
    pub stream_creation_fee: u128,
    pub exit_fee_percent: Decimal,
    pub fee_collector: String,
    pub protocol_admin: String,
    pub accepted_in_denom: String,
}

/// Requests that change the state of streams. Times are in nanoseconds.
#[derive(Clone, Debug, PartialEq, Eq)]
pub enum ExecuteMsg {
    CreateStream {
        treasury: String,
        name: String,
        url: Option<String>,
        in_denom: String,
        out_denom: String,
        out_supply: u128,
        start_time: u64,
        end_time: u64,
        threshold: Option<u128>,
    },
    UpdateStream { stream_id: u64 },
    UpdateOperator { stream_id: u64, new_operator: Option<String> },
    Subscribe { stream_id: u64, operator_target: Option<String>, operator: Option<String> },
    Withdraw { stream_id: u64, cap: Option<u128>, operator_target: Option<String> },
    UpdatePosition { stream_id: u64, operator_target: Option<String> },
    FinalizeStream { stream_id: u64, new_treasury: Option<String> },
    ExitStream { stream_id: u64, operator_target: Option<String> },
    CancelStreamWithThreshold { stream_id: u64 },
    PauseStream { stream_id: u64 },
    WithdrawPaused { stream_id: u64, cap: Option<u128>, operator_target: Option<String> },
    ExitCancelled { stream_id: u64, operator_target: Option<String> },
    ResumeStream { stream_id: u64 },
    CancelStream { stream_id: u64 },
    UpdateProtocolAdmin { new_protocol_admin: String },
    UpdateConfig {
        min_stream_duration: Option<u64>,
        min_duration_until_start_time: Option<u64>,
        stream_creation_denom: Option<String>,
        stream_creation_fee: Option<u128>,
        fee_collector: Option<String>,
        accepted_in_denom: Option<String>,
        exit_fee_percent: Option<Decimal>,
    },
}

/// Read-only requests.
#[derive(Clone, Debug, PartialEq, Eq)]
pub enum QueryMsg {
    Config,
    Stream { stream_id: u64 },
    ListStreams { start_after: Option<u64>, limit: Option<u32> },
    Position { stream_id: u64, owner: String },
    ListPositions { stream_id: u64, start_after: Option<String>, limit: Option<u32> },
    AveragePrice { stream_id: u64 },
    LastStreamedPrice { stream_id: u64 },
    Threshold { stream_id: u64 },
}

/// Requests of the chain's governance.
#[derive(Clone, Debug, PartialEq, Eq)]
pub enum SudoMsg {
    PauseStream { stream_id: u64 },
    CancelStream { stream_id: u64 },
    ResumeStream { stream_id: u64 },
}

/// Request to migrate the contract to this version.
#[derive(Clone, Debug, PartialEq, Eq)]
pub struct MigrateMsg {}

#[derive(Clone, Debug, PartialEq, Eq)]
pub struct ConfigResponse {
    pub min_stream_seconds: u64,
    pub min_seconds_until_start_time: u64,
    pub stream_creation_denom: String,
    pub stream_creation_fee: u128,
    pub exit_fee_percent: Decimal,
    pub fee_collector: String,
    pub protocol_admin: String,
    pub accepted_in_denom: String,
}

#[derive(Clone, Debug, PartialEq, Eq)]
pub struct StreamResponse {
    pub id: u64,
    pub treasury: String,
    pub in_denom: String,
    pub out_denom: String,
    pub out_supply: u128,
    pub start_time: u64,
    pub end_time: u64,
    pub last_updated: u64,
    pub spent_in: u128,
    pub dist_index: WideDecimal,
    pub out_remaining: u128,
    pub in_supply: u128,
    pub shares: u128,
    pub status: Status,
    pub pause_date: Option<u64>,
    pub url: Option<String>,
    pub current_streamed_price: WideDecimal,
    pub exit_fee_percent: Decimal,
    pub stream_creation_fee: u128,
}

#[derive(Clone, Debug, PartialEq, Eq)]
pub struct StreamsResponse {
    pub streams: Vec<StreamResponse>,
}

#[derive(Clone, Debug, PartialEq, Eq)]
pub struct PositionResponse {
    pub stream_id: u64,
    pub owner: String,
    pub in_balance: u128,
    pub shares: u128,
    pub index: WideDecimal,
    pub last_updated: u64,
    pub purchased: u128,
    pub pending_purchase: WideDecimal,
    pub spent: u128,
    pub operator: Option<String>,
}

#[derive(Clone, Debug, PartialEq, Eq)]
pub struct PositionsResponse {
    pub positions: Vec<PositionResponse>,
}

#[derive(Clone, Copy, Debug, PartialEq, Eq)]
pub struct AveragePriceResponse {
    pub average_price: WideDecimal,
}

#[derive(Clone, Copy, Debug, PartialEq, Eq)]
pub struct LatestStreamedPriceResponse {
    pub current_streamed_price: WideDecimal,
}

} // verus!
