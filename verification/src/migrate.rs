use crate::error::ContractError;
use crate::math::{scale, wide, Decimal, WideDecimal, DECIMAL_FRACTIONAL};
use crate::state::{Position, Status, Stream};
use vstd::prelude::*;

verus! {

/// A stream as stored by version 0.2.0, with 128-bit amounts and 128-bit decimals for its price
/// and exit fee.
#[derive(Clone, Debug, PartialEq, Eq)]
pub struct StreamV0_2_0 {
    pub name: String,
    pub treasury: String,
    pub url: Option<String>,
    pub dist_index: WideDecimal,
    pub last_updated: u64,
    pub out_denom: String,
    pub out_supply: u128,
    pub out_remaining: u128,
    pub in_denom: String,
    pub in_supply: u128,
    pub spent_in: u128,
    pub shares: u128,
    pub start_time: u64,
    pub end_time: u64,
    pub current_streamed_price: Decimal,
    pub status: Status,
    pub pause_date: Option<u64>,
    pub stream_creation_denom: String,
    pub stream_creation_fee: u128,
    pub stream_exit_fee_percent: Decimal,
}

/// A position as stored by version 0.2.0.
#[derive(Clone, Debug, PartialEq, Eq)]
pub struct PositionV0_2_0 {
    pub owner: String,
    pub in_balance: u128,
    pub shares: u128,
    pub index: WideDecimal,
    pub last_updated: u64,
    pub purchased: u128,
    pub pending_purchase: WideDecimal,
    pub spent: u128,
    pub operator: Option<String>,
}

/// A decimal carried over to the wide decimal type by its ratio `atomics / 10^18`, which keeps
/// its value.
fn widen_decimal(d: Decimal) -> (r: WideDecimal)
    ensures
        r == wide(d.atomics as int),
{
    proof {
        vstd::arithmetic::div_mod::lemma_div_by_multiple(d.atomics as int, scale());
        assert((d.atomics as int) * scale() / scale() == d.atomics);
    }
    match WideDecimal::from_ratio(d.atomics, DECIMAL_FRACTIONAL) {
        Ok(w) => w,
        Err(_) => WideDecimal::raw(d.atomics),
    }
}

/// The stream in the current layout: every value is kept.
pub open spec fn migrated_stream(old: StreamV0_2_0) -> Stream {
    Stream {
        name: old.name,
        treasury: old.treasury,
        url: old.url,
        dist_index: old.dist_index,
        last_updated: old.last_updated,
        out_denom: old.out_denom,
        out_supply: old.out_supply,
        out_remaining: old.out_remaining,
        in_denom: old.in_denom,
        in_supply: old.in_supply,
        spent_in: old.spent_in,
        shares: old.shares,
        start_time: old.start_time,
        end_time: old.end_time,
        current_streamed_price: wide(old.current_streamed_price.atomics as int),
        status: old.status,
        pause_date: old.pause_date,
        stream_creation_denom: old.stream_creation_denom,
        stream_creation_fee: old.stream_creation_fee,
        stream_exit_fee_percent: old.stream_exit_fee_percent,
    }
}

/// Converts a stream stored by version 0.2.0.
pub fn migrate_stream_v0_2_0(old: StreamV0_2_0) -> (s: Stream)
    ensures
        s == migrated_stream(old),
{
    let current_streamed_price = widen_decimal(old.current_streamed_price);
    let stream_exit_fee_percent = old.stream_exit_fee_percent;
    Stream {
        name: old.name,
        treasury: old.treasury,
        url: old.url,
        dist_index: old.dist_index,
        last_updated: old.last_updated,
        out_denom: old.out_denom,
        out_supply: old.out_supply,
        out_remaining: old.out_remaining,
        in_denom: old.in_denom,
        in_supply: old.in_supply,
        spent_in: old.spent_in,
        shares: old.shares,
        start_time: old.start_time,
        end_time: old.end_time,
        current_streamed_price,
        status: old.status,
        pause_date: old.pause_date,
        stream_creation_denom: old.stream_creation_denom,
        stream_creation_fee: old.stream_creation_fee,
        stream_exit_fee_percent,
    }
}

/// The position in the current layout: every value is kept.
pub open spec fn migrated_position(old: PositionV0_2_0) -> Position {
    Position {
        owner: old.owner,
        in_balance: old.in_balance,
        shares: old.shares,
        index: old.index,
        last_updated: old.last_updated,
        purchased: old.purchased,
        pending_purchase: old.pending_purchase,
        spent: old.spent,
        operator: old.operator,
    }
}

/// Converts a position stored by version 0.2.0.
pub fn migrate_position_v0_2_0(old: PositionV0_2_0) -> (p: Position)
    ensures
        p == migrated_position(old),
{
    Position {
        owner: old.owner,
        in_balance: old.in_balance,
        shares: old.shares,
        index: old.index,
        last_updated: old.last_updated,
        purchased: old.purchased,
        pending_purchase: old.pending_purchase,
        spent: old.spent,
        operator: old.operator,
    }
}

/// Converts every stream and position stored by version 0.2.0, keeping their keys and order.
pub fn migrate_v0_2_1(
    streams: Vec<(u64, StreamV0_2_0)>,
    positions: Vec<((u64, String), PositionV0_2_0)>,
) -> (r: (Vec<(u64, Stream)>, Vec<((u64, String), Position)>))
    ensures
        r.0@.len() == streams@.len(),
        forall|i: int| #![trigger r.0@[i]] 0 <= i < streams@.len() ==> r.0@[i].0 == streams@[i].0
            && r.0@[i].1 == migrated_stream(streams@[i].1),
        r.1@.len() == positions@.len(),
        forall|i: int| #![trigger r.1@[i]] 0 <= i < positions@.len() ==> r.1@[i].0 == positions@[i].0
            && r.1@[i].1 == migrated_position(positions@[i].1),
{
    let ghost old_streams = streams@;
    let ghost old_positions = positions@;
    let mut new_streams: Vec<(u64, Stream)> = Vec::new();
    let mut rest = streams;
    while rest.len() > 0
        invariant
            rest@.len() + new_streams@.len() == old_streams.len(),
            forall|i: int| #![trigger new_streams@[i]] 0 <= i < new_streams@.len() ==> new_streams@[i].0
                == old_streams[i].0 && new_streams@[i].1 == migrated_stream(old_streams[i].1),
            rest@ == old_streams.subrange(new_streams@.len() as int, old_streams.len() as int),
        decreases rest.len(),
    {
        let (id, old) = rest.remove(0);
        new_streams.push((id, migrate_stream_v0_2_0(old)));
    }
    let mut new_positions: Vec<((u64, String), Position)> = Vec::new();
    let mut rest = positions;
    while rest.len() > 0
        invariant
            rest@.len() + new_positions@.len() == old_positions.len(),
            forall|i: int| #![trigger new_positions@[i]] 0 <= i < new_positions@.len() ==> new_positions@[i].0
                == old_positions[i].0 && new_positions@[i].1 == migrated_position(old_positions[i].1),
            rest@ == old_positions.subrange(new_positions@.len() as int, old_positions.len() as int),
        decreases rest.len(),
    {
        let (key, old) = rest.remove(0);
        new_positions.push((key, migrate_position_v0_2_0(old)));
    }
    (new_streams, new_positions)
}

/// Refuses to migrate a contract stored under another name.
pub fn check_contract_name(stored_name: &String, contract_name: &String) -> (r: Result<
    (),
    ContractError,
>)
    ensures
        stored_name@ == contract_name@ ==> r == Ok::<(), ContractError>(()),
        stored_name@ != contract_name@ ==> (r matches Err(
            ContractError::CannotMigrate { previous_contract },
        ) && previous_contract@ == stored_name@),
{
    if *stored_name != *contract_name {
        return Err(ContractError::CannotMigrate { previous_contract: stored_name.clone() });
    }
    Ok(())
}

} // verus!
