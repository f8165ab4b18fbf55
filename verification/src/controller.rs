use crate::contract::send;
use crate::error::{ContractError, CustomPaymentError};
use crate::lifecycle::Params;
use crate::math::{scale, Decimal};
use crate::payment::{check_payment, same_totals, totals_fit};
use crate::state::{BankSend, Coin};
use vstd::prelude::*;

verus! {

/// Settings asked for when the stream controller is instantiated; the admin and the fee
/// collector default to the sender.
#[derive(Clone, Debug, PartialEq, Eq)]
pub struct InstantiateMsg {
    pub stream_contract_code_id: u64,
    pub vesting_code_id: u64,
    pub protocol_admin: Option<String>,
    pub fee_collector: Option<String>,
    pub stream_creation_fee: Coin,
    pub exit_fee_percent: Decimal,
    pub accepted_in_denoms: Vec<String>,
    pub min_stream_duration: u64,
    pub min_bootstrapping_duration: u64,
    pub min_waiting_duration: u64,
}

/// The controller's settings: the exit fee may not exceed one and the creation fee must not be
/// zero.
pub fn instantiate(sender: &String, msg: InstantiateMsg) -> (r: Result<Params, ContractError>)
    ensures
        msg.exit_fee_percent.atomics > scale() ==> r == Err::<Params, ContractError>(
            ContractError::InvalidExitFeePercent,
        ),
        msg.exit_fee_percent.atomics <= scale() && msg.stream_creation_fee.amount == 0 ==> r
            == Err::<Params, ContractError>(ContractError::InvalidStreamCreationFee),
        msg.exit_fee_percent.atomics <= scale() && msg.stream_creation_fee.amount != 0 ==> (r matches Ok(p) && p
            == Params {
            protocol_admin: p.protocol_admin,
            fee_collector: p.fee_collector,
            stream_creation_fee: msg.stream_creation_fee,
            exit_fee_percent: msg.exit_fee_percent,
            stream_contract_code_id: msg.stream_contract_code_id,
            vesting_code_id: msg.vesting_code_id,
            accepted_in_denoms: msg.accepted_in_denoms,
            min_stream_duration: msg.min_stream_duration,
            min_bootstrapping_duration: msg.min_bootstrapping_duration,
            min_waiting_duration: msg.min_waiting_duration,
        } && p.protocol_admin@ == (match msg.protocol_admin {
            Some(a) => a@,
            None => sender@,
        }) && p.fee_collector@ == (match msg.fee_collector {
            Some(a) => a@,
            None => sender@,
        })),
{
    let protocol_admin = match msg.protocol_admin {
        Some(a) => a,
        None => sender.clone(),
    };
    let fee_collector = match msg.fee_collector {
        Some(a) => a,
        None => sender.clone(),
    };
    if msg.exit_fee_percent.atomics > crate::math::DECIMAL_FRACTIONAL {
        return Err(ContractError::InvalidExitFeePercent);
    }
    if msg.stream_creation_fee.amount == 0 {
        return Err(ContractError::InvalidStreamCreationFee);
    }
    Ok(
        Params {
            protocol_admin,
            fee_collector,
            stream_creation_fee: msg.stream_creation_fee,
            exit_fee_percent: msg.exit_fee_percent,
            stream_contract_code_id: msg.stream_contract_code_id,
            vesting_code_id: msg.vesting_code_id,
            accepted_in_denoms: msg.accepted_in_denoms,
            min_stream_duration: msg.min_stream_duration,
            min_bootstrapping_duration: msg.min_bootstrapping_duration,
            min_waiting_duration: msg.min_waiting_duration,
        },
    )
}

fn contains_denom(denoms: &Vec<String>, denom: &String) -> (r: bool)
    ensures
        r == (exists|i: int| 0 <= i < denoms@.len() && #[trigger] denoms@[i]@ == denom@),
{
    let mut i: usize = 0;
    while i < denoms.len()
        invariant
            i <= denoms.len(),
            forall|j: int| 0 <= j < i ==> #[trigger] denoms@[j]@ != denom@,
        decreases denoms.len() - i,
    {
        if denoms[i] == *denom {
            return true;
        }
        i = i + 1;
    }
    false
}

/// The funds a stream's creation must bring: the creation fee and the out asset.
pub open spec fn creation_funds(params: Params, out_asset: Coin) -> Seq<Coin> {
    seq![params.stream_creation_fee, out_asset]
}

/// A stream registered by the controller: its identifier, and the transfer of the creation fee
/// to the fee collector when the fee is not zero.
pub struct CreateStreamOutcome {
    pub stream_id: u64,
    pub fee_message: Option<BankSend>,
}

/// Registers a new stream unless the controller is frozen: its in denom must be accepted, its
/// out asset not empty, and the funds sent must be exactly the creation fee and the out asset.
pub fn execute_create_stream(
    params: &Params,
    frozen: bool,
    last_stream_id: u64,
    funds: &Vec<Coin>,
    in_denom: &String,
    out_asset: &Coin,
) -> (r: Result<CreateStreamOutcome, ContractError>)
    requires
        totals_fit(funds@),
        totals_fit(creation_funds(*params, *out_asset)),
    ensures
        frozen ==> r == Err::<CreateStreamOutcome, ContractError>(ContractError::ContractIsFrozen),
        !frozen && !(exists|i: int| 0 <= i < params.accepted_in_denoms@.len()
            && #[trigger] params.accepted_in_denoms@[i]@ == in_denom@) ==> r == Err::<
            CreateStreamOutcome,
            ContractError,
        >(ContractError::InDenomIsNotAccepted),
        !frozen && (exists|i: int| 0 <= i < params.accepted_in_denoms@.len()
            && #[trigger] params.accepted_in_denoms@[i]@ == in_denom@) && out_asset.amount == 0
            ==> r == Err::<CreateStreamOutcome, ContractError>(ContractError::ZeroOutSupply),
        !frozen && (exists|i: int| 0 <= i < params.accepted_in_denoms@.len()
            && #[trigger] params.accepted_in_denoms@[i]@ == in_denom@) && out_asset.amount != 0
            && !same_totals(funds@, creation_funds(*params, *out_asset)) ==> (r matches Err(
            ContractError::CustomPayment(CustomPaymentError::InsufficientFunds { expected, actual }),
        ) && expected@ == creation_funds(*params, *out_asset) && actual@ == funds@),
        !frozen && (exists|i: int| 0 <= i < params.accepted_in_denoms@.len()
            && #[trigger] params.accepted_in_denoms@[i]@ == in_denom@) && out_asset.amount != 0
            && same_totals(funds@, creation_funds(*params, *out_asset)) ==> if last_stream_id
            == u64::MAX {
            r == Err::<CreateStreamOutcome, ContractError>(ContractError::Overflow)
        } else {
            r matches Ok(o) && o.stream_id == last_stream_id + 1 && o.fee_message == (if params.stream_creation_fee.amount
                != 0 {
                Some(
                    send(
                        params.fee_collector,
                        params.stream_creation_fee.denom,
                        params.stream_creation_fee.amount,
                    ),
                )
            } else {
                None
            })
        },
{
    if frozen {
        return Err(ContractError::ContractIsFrozen);
    }
    if !contains_denom(&params.accepted_in_denoms, in_denom) {
        return Err(ContractError::InDenomIsNotAccepted);
    }
    if out_asset.amount == 0 {
        return Err(ContractError::ZeroOutSupply);
    }
    let mut expected: Vec<Coin> = Vec::new();
    expected.push(
        Coin {
            denom: params.stream_creation_fee.denom.clone(),
            amount: params.stream_creation_fee.amount,
        },
    );
    expected.push(Coin { denom: out_asset.denom.clone(), amount: out_asset.amount });
    assert(expected@ =~= creation_funds(*params, *out_asset));
    match check_payment(funds, &expected) {
        Ok(()) => {},
        Err(e) => return Err(ContractError::CustomPayment(e)),
    }
    if last_stream_id == u64::MAX {
        return Err(ContractError::Overflow);
    }
    let stream_id = last_stream_id + 1;
    let fee_message = if params.stream_creation_fee.amount != 0 {
        Some(
            BankSend {
                to_address: params.fee_collector.clone(),
                denom: params.stream_creation_fee.denom.clone(),
                amount: params.stream_creation_fee.amount,
            },
        )
    } else {
        None
    };
    Ok(CreateStreamOutcome { stream_id, fee_message })
}

/// Updates the controller settings that are given; only the protocol admin may. An exit fee
/// above one is refused.
#[allow(clippy::too_many_arguments)]
pub fn execute_update_params(
    params: &mut Params,
    sender: &String,
    min_waiting_duration: Option<u64>,
    min_bootstrapping_duration: Option<u64>,
    min_stream_duration: Option<u64>,
    stream_creation_fee: Option<Coin>,
    fee_collector: Option<String>,
    accepted_in_denoms: Option<Vec<String>>,
    exit_fee_percent: Option<Decimal>,
) -> (r: Result<(), ContractError>)
    ensures
        sender@ != old(params).protocol_admin@ ==> r == Err::<(), ContractError>(
            ContractError::Unauthorized,
        ) && *final(params) == *old(params),
        sender@ == old(params).protocol_admin@ && (exit_fee_percent matches Some(f) && f.atomics
            > scale()) ==> r == Err::<(), ContractError>(ContractError::InvalidExitFeePercent)
            && *final(params) == *old(params),
        sender@ == old(params).protocol_admin@ && !(exit_fee_percent matches Some(f) && f.atomics
            > scale()) ==> r == Ok::<(), ContractError>(()) && *final(params) == (Params {
            stream_creation_fee: match stream_creation_fee {
                Some(v) => v,
                None => old(params).stream_creation_fee,
            },
            exit_fee_percent: match exit_fee_percent {
                Some(v) => v,
                None => old(params).exit_fee_percent,
            },
            fee_collector: match fee_collector {
                Some(v) => v,
                None => old(params).fee_collector,
            },
            accepted_in_denoms: match accepted_in_denoms {
                Some(v) => v,
                None => old(params).accepted_in_denoms,
            },
            min_waiting_duration: match min_waiting_duration {
                Some(v) => v,
                None => old(params).min_waiting_duration,
            },
            min_bootstrapping_duration: match min_bootstrapping_duration {
                Some(v) => v,
                None => old(params).min_bootstrapping_duration,
            },
            min_stream_duration: match min_stream_duration {
                Some(v) => v,
                None => old(params).min_stream_duration,
            },
            ..*old(params)
        }),
{
    if *sender != params.protocol_admin {
        return Err(ContractError::Unauthorized);
    }
    if let Some(f) = exit_fee_percent {
        if f.atomics > crate::math::DECIMAL_FRACTIONAL {
            return Err(ContractError::InvalidExitFeePercent);
        }
    }
    if let Some(v) = stream_creation_fee {
        params.stream_creation_fee = v;
    }
    if let Some(v) = exit_fee_percent {
        params.exit_fee_percent = v;
    }
    if let Some(v) = fee_collector {
        params.fee_collector = v;
    }
    if let Some(v) = accepted_in_denoms {
        params.accepted_in_denoms = v;
    }
    if let Some(v) = min_waiting_duration {
        params.min_waiting_duration = v;
    }
    if let Some(v) = min_bootstrapping_duration {
        params.min_bootstrapping_duration = v;
    }
    if let Some(v) = min_stream_duration {
        params.min_stream_duration = v;
    }
    Ok(())
}

/// Freezes the controller (no stream can be created); only the protocol admin may. Returns the
/// new freeze state.
pub fn execute_freeze(params: &Params, sender: &String) -> (r: Result<bool, ContractError>)
    ensures
        sender@ != params.protocol_admin@ ==> r == Err::<bool, ContractError>(
            ContractError::Unauthorized,
        ),
        sender@ == params.protocol_admin@ ==> r == Ok::<bool, ContractError>(true),
{
    if *sender != params.protocol_admin {
        return Err(ContractError::Unauthorized);
    }
    Ok(true)
}

/// Unfreezes the controller; only the protocol admin may. Returns the new freeze state.
pub fn execute_unfreeze(params: &Params, sender: &String) -> (r: Result<bool, ContractError>)
    ensures
        sender@ != params.protocol_admin@ ==> r == Err::<bool, ContractError>(
            ContractError::Unauthorized,
        ),
        sender@ == params.protocol_admin@ ==> r == Ok::<bool, ContractError>(false),
{
    if *sender != params.protocol_admin {
        return Err(ContractError::Unauthorized);
    }
    Ok(false)
}

/// Read-only requests to the stream controller.
#[derive(Clone, Debug, PartialEq, Eq)]
pub enum QueryMsg {
    Params,
    Freezestate,
    LastStreamId,
    ListStreams { start_after: Option<u64>, limit: Option<u32> },
}

/// A stream registered by the controller: its identifier and its contract's address.
#[derive(Clone, Debug, PartialEq, Eq)]
pub struct StreamResponse {
    pub id: u64,
    pub address: String,
}

#[derive(Clone, Debug, PartialEq, Eq)]
pub struct StreamsResponse {
    pub streams: Vec<StreamResponse>,
}

} // verus!
