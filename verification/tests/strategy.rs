use step_by_step::asset::AssetInfo;
use step_by_step::contract::execute_strategy;
use step_by_step::error::ContractError;
use step_by_step::msg::{ExecuteMsg, StrategyStep};
use step_by_step::msgs::liquidity_pool::LiquidityPoolSwapMsg;
use step_by_step::msgs::market::MarketSwapMsg;
use step_by_step::operations::StrategyStepOperation;
use step_by_step::response::PlanMsg;

fn native(denom: &str) -> AssetInfo {
    AssetInfo::NativeToken {
        denom: denom.to_string(),
    }
}

fn market_step(from: &str, to: &str) -> StrategyStep {
    StrategyStep {
        from_asset: native(from),
        to_asset: native(to),
        operation: StrategyStepOperation::MarketSwapOperation {
            msg: MarketSwapMsg {},
        },
    }
}

fn pool_step(from: &str, to: &str) -> StrategyStep {
    StrategyStep {
        from_asset: native(from),
        to_asset: native(to),
        operation: StrategyStepOperation::LiquidityPoolSwapOperation {
            msg: LiquidityPoolSwapMsg {
                factory_addr: "factory".to_string(),
                belief_price: None,
                max_spread: None,
            },
        },
    }
}

#[test]
fn empty_steps_rejected() {
    let err = execute_strategy(
        &"self".to_string(),
        &"alice".to_string(),
        Vec::new(),
        10,
        0,
    )
    .unwrap_err();
    assert_eq!(err, ContractError::EmptySteps);
}

#[test]
fn plan_emits_steps_in_order_then_finalize() {
    let steps = vec![
        market_step("uluna", "uusd"),
        pool_step("uusd", "ukrw"),
    ];
    let res = execute_strategy(
        &"self".to_string(),
        &"alice".to_string(),
        steps.clone(),
        40,
        777,
    )
    .unwrap();
    assert_eq!(res.messages.len(), 3);
    assert!(res.attributes.is_empty());
    assert_eq!(
        res.messages[0],
        PlanMsg::ExecuteSelf {
            contract_addr: "self".to_string(),
            msg: ExecuteMsg::ExecuteStrategyStep {
                step: market_step("uluna", "uusd"),
                to: None,
            },
        }
    );
    assert_eq!(
        res.messages[1],
        PlanMsg::ExecuteSelf {
            contract_addr: "self".to_string(),
            msg: ExecuteMsg::ExecuteStrategyStep {
                step: pool_step("uusd", "ukrw"),
                to: Some("alice".to_string()),
            },
        }
    );
    assert_eq!(
        res.messages[2],
        PlanMsg::ExecuteSelf {
            contract_addr: "self".to_string(),
            msg: ExecuteMsg::FinalizeStrategy {
                receiver: "alice".to_string(),
                asset_info: native("ukrw"),
                initial_balance: 777,
                minimum_receive: 40,
            },
        }
    );
}

#[test]
fn reordered_steps_keep_count_and_finalize_tail() {
    let forward = vec![market_step("uluna", "uusd"), market_step("ukrw", "umnt")];
    let backward = vec![market_step("ukrw", "umnt"), market_step("uluna", "uusd")];
    let res_forward = execute_strategy(
        &"self".to_string(),
        &"alice".to_string(),
        forward,
        1,
        5,
    )
    .unwrap();
    let res_backward = execute_strategy(
        &"self".to_string(),
        &"alice".to_string(),
        backward,
        1,
        5,
    )
    .unwrap();
    assert_eq!(res_forward.messages.len(), res_backward.messages.len());
    assert!(matches!(
        res_backward.messages.last().unwrap(),
        PlanMsg::ExecuteSelf {
            msg: ExecuteMsg::FinalizeStrategy { .. },
            ..
        }
    ));
}

#[test]
fn snapshot_is_the_balance_given_at_plan_time() {
    let steps = vec![market_step("uluna", "uusd")];
    let res = execute_strategy(
        &"self".to_string(),
        &"bob".to_string(),
        steps,
        1,
        123456,
    )
    .unwrap();
    match res.messages.last().unwrap() {
        PlanMsg::ExecuteSelf {
            msg: ExecuteMsg::FinalizeStrategy {
                initial_balance, ..
            },
            ..
        } => assert_eq!(*initial_balance, 123456),
        other => panic!("expected a finalize message, got {:?}", other),
    }
}

#[test]
fn single_step_routes_to_requester() {
    let steps = vec![market_step("uluna", "uusd")];
    let res = execute_strategy(&"self".to_string(), &"carol".to_string(), steps, 1, 0)
        .unwrap();
    assert_eq!(res.messages.len(), 2);
    match &res.messages[0] {
        PlanMsg::ExecuteSelf {
            msg: ExecuteMsg::ExecuteStrategyStep { to, .. },
            ..
        } => assert_eq!(to.as_deref(), Some("carol")),
        other => panic!("expected a step message, got {:?}", other),
    }
}

#[test]
fn round_trip_still_defers_to_finalize() {
    // Input asset equals output asset and the bound is far above anything
    // held: the plan is still emitted in full, and only the finalize message
    // will judge the bound.
    let steps = vec![market_step("uluna", "uusd"), market_step("uusd", "uluna")];
    let res = execute_strategy(
        &"self".to_string(),
        &"alice".to_string(),
        steps,
        40,
        888,
    )
    .unwrap();
    assert_eq!(res.messages.len(), 3);
    assert_eq!(
        res.messages[2],
        PlanMsg::ExecuteSelf {
            contract_addr: "self".to_string(),
            msg: ExecuteMsg::FinalizeStrategy {
                receiver: "alice".to_string(),
                asset_info: native("uluna"),
                initial_balance: 888,
                minimum_receive: 40,
            },
        }
    );
}

#[test]
fn step_getters_return_the_assets() {
    let step = market_step("uluna", "uusd");
    assert_eq!(step.get_from_asset(), native("uluna"));
    assert_eq!(step.get_to_asset(), native("uusd"));
}

#[test]
fn asset_info_equal_is_structural() {
    let token = AssetInfo::Token {
        contract_addr: "uluna".to_string(),
    };
    assert!(native("uluna").equal(&native("uluna")));
    assert!(!native("uluna").equal(&native("uusd")));
    assert!(!native("uluna").equal(&token));
    assert!(token.equal(&AssetInfo::Token {
        contract_addr: "uluna".to_string()
    }));
}
