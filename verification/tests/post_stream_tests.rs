use streamswap::error::ContractError;
use streamswap::lifecycle::{VestingConfig, VestingSchedule};
use streamswap::post_stream::{build_create_initial_position_msg, vesting_operations, CreatePositionMsg};
use streamswap::state::Coin;

#[test]
fn test_build_create_initial_pool_position_msg() {
    let pool_id = 1;
    let treasury = "treasury_address";
    let stream_in_denom = "in_denom";
    let in_clp: u128 = 1000;
    let stream_out_asset_denom = "out_denom";
    let pool_out_amount_clp: u128 = 2000;

    let result = build_create_initial_position_msg(
        pool_id,
        treasury.to_string(),
        stream_in_denom.to_string(),
        in_clp,
        stream_out_asset_denom.to_string(),
        pool_out_amount_clp,
    );

    let expected = CreatePositionMsg {
        pool_id,
        sender: treasury.to_string(),
        lower_tick: 0,
        upper_tick: i64::MAX,
        tokens_provided: vec![
            Coin { denom: stream_out_asset_denom.to_string(), amount: pool_out_amount_clp },
            Coin { denom: stream_in_denom.to_string(), amount: in_clp },
        ],
        token_min_amount0: 0,
        token_min_amount1: 0,
    };

    assert_eq!(result, expected);
}

fn config() -> VestingConfig {
    VestingConfig {
        schedule: VestingSchedule::SaturatingLinear,
        vesting_duration_seconds: 3600,
        unbonding_duration_seconds: 60,
    }
}

#[test]
fn vesting_needs_a_salt() {
    let res = vesting_operations(
        &"stream".to_string(),
        &"alice".to_string(),
        None,
        5,
        7,
        100,
        "out".to_string(),
        config(),
    );
    assert_eq!(res, Err(ContractError::InvalidSalt));
}

#[test]
fn vesting_plan_names_the_stream_and_the_recipient() {
    let plan = vesting_operations(
        &"stream".to_string(),
        &"alice".to_string(),
        Some(vec![1, 2, 3]),
        5,
        7,
        100,
        "out".to_string(),
        config(),
    )
    .unwrap();
    assert_eq!(plan.title, "Stream addr stream released to alice");
    assert_eq!(plan.label, "out-alice");
    assert_eq!(plan.code_id, 7);
    assert_eq!(plan.recipient, "alice");
    assert_eq!(plan.total, 100);
    assert_eq!(plan.start_time, 5);
    assert_eq!(plan.salt, vec![1, 2, 3]);
    assert_eq!(plan.funds, Coin { denom: "out".to_string(), amount: 100 });
    assert_eq!(plan.config, config());
}
