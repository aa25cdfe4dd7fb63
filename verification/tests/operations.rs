use step_by_step::asset::{Asset, AssetInfo};
use step_by_step::contract::execute_step;
use step_by_step::error::ContractError;
use step_by_step::msg::StrategyStep;
use step_by_step::msgs::liquidity_pool::LiquidityPoolSwapMsg;
use step_by_step::msgs::market::MarketSwapMsg;
use step_by_step::operations::StrategyStepOperation;
use step_by_step::response::PlanMsg;

fn native(denom: &str) -> AssetInfo {
    AssetInfo::NativeToken {
        denom: denom.to_string(),
    }
}

fn token(addr: &str) -> AssetInfo {
    AssetInfo::Token {
        contract_addr: addr.to_string(),
    }
}

fn native_asset(denom: &str, amount: u128) -> Asset {
    Asset {
        info: native(denom),
        amount,
    }
}

fn pool_op(belief_price: Option<u128>, max_spread: Option<u128>) -> LiquidityPoolSwapMsg {
    LiquidityPoolSwapMsg {
        factory_addr: "factory".to_string(),
        belief_price,
        max_spread,
    }
}

#[test]
fn market_swap_rejects_token_offer() {
    let err = MarketSwapMsg {}
        .create_execution_message(
            Asset {
                info: token("tok"),
                amount: 100,
            },
            native("uusd"),
            None,
            0,
        )
        .unwrap_err();
    assert_eq!(err, ContractError::UnsupportedAsset);
}

#[test]
fn market_swap_rejects_token_ask() {
    let err = MarketSwapMsg {}
        .create_execution_message(native_asset("uluna", 100), token("tok"), None, 0)
        .unwrap_err();
    assert_eq!(err, ContractError::UnsupportedAsset);
}

#[test]
fn market_swap_without_target_offers_full_amount() {
    let msg = MarketSwapMsg {}
        .create_execution_message(native_asset("uluna", 1000), native("uusd"), None, 7)
        .unwrap();
    assert_eq!(
        msg,
        PlanMsg::MarketSwap {
            offer_denom: "uluna".to_string(),
            offer_amount: 1000,
            ask_denom: "uusd".to_string(),
        }
    );
}

#[test]
fn market_swap_with_target_deducts_tax() {
    let msg = MarketSwapMsg {}
        .create_execution_message(
            native_asset("uluna", 1000),
            native("uusd"),
            Some("alice".to_string()),
            7,
        )
        .unwrap();
    assert_eq!(
        msg,
        PlanMsg::MarketSwapSend {
            to: "alice".to_string(),
            offer_denom: "uluna".to_string(),
            offer_amount: 993,
            ask_denom: "uusd".to_string(),
        }
    );
}

#[test]
fn market_swap_tax_above_amount_underflows() {
    let err = MarketSwapMsg {}
        .create_execution_message(
            native_asset("uluna", 5),
            native("uusd"),
            Some("alice".to_string()),
            6,
        )
        .unwrap_err();
    assert_eq!(
        err,
        ContractError::Underflow {
            minuend: 5,
            subtrahend: 6,
        }
    );
}

#[test]
fn pool_swap_native_offer_deducts_tax() {
    let msg = pool_op(Some(31415), Some(500))
        .create_execution_message(
            native_asset("uluna", 1000),
            Some("alice".to_string()),
            &"pool".to_string(),
            7,
        )
        .unwrap();
    assert_eq!(
        msg,
        PlanMsg::PoolSwap {
            pool_addr: "pool".to_string(),
            offer_denom: "uluna".to_string(),
            offer_amount: 993,
            belief_price: Some(31415),
            max_spread: Some(500),
            to: Some("alice".to_string()),
        }
    );
}

#[test]
fn pool_swap_tax_above_amount_underflows() {
    let err = pool_op(None, None)
        .create_execution_message(native_asset("uluna", 3), None, &"pool".to_string(), 4)
        .unwrap_err();
    assert_eq!(
        err,
        ContractError::Underflow {
            minuend: 3,
            subtrahend: 4,
        }
    );
}

#[test]
fn pool_swap_token_offer_rides_in_token_send() {
    let msg = pool_op(None, Some(100))
        .create_execution_message(
            Asset {
                info: token("tok"),
                amount: 250,
            },
            None,
            &"pool".to_string(),
            99,
        )
        .unwrap();
    // A token offer is never taxed; the full amount moves to the pool.
    assert_eq!(
        msg,
        PlanMsg::TokenPoolSwap {
            token_addr: "tok".to_string(),
            pool_addr: "pool".to_string(),
            amount: 250,
            belief_price: None,
            max_spread: Some(100),
            to: None,
        }
    );
}

#[test]
fn execute_step_refuses_foreign_caller() {
    let step = StrategyStep {
        from_asset: native("uluna"),
        to_asset: native("uusd"),
        operation: StrategyStepOperation::MarketSwapOperation {
            msg: MarketSwapMsg {},
        },
    };
    let err = execute_step(
        &"self".to_string(),
        &"mallory".to_string(),
        step,
        None,
        100,
        &"pool".to_string(),
        0,
    )
    .unwrap_err();
    assert_eq!(
        err,
        ContractError::Unauthorized {
            expected: "self".to_string(),
            caller: "mallory".to_string(),
        }
    );
}

#[test]
fn execute_step_trades_the_live_balance() {
    // The hop offers whatever the contract really holds of the input asset,
    // handed in here as the live balance 42.
    let step = StrategyStep {
        from_asset: native("uluna"),
        to_asset: native("uusd"),
        operation: StrategyStepOperation::MarketSwapOperation {
            msg: MarketSwapMsg {},
        },
    };
    let res = execute_step(
        &"self".to_string(),
        &"self".to_string(),
        step,
        None,
        42,
        &"pool".to_string(),
        0,
    )
    .unwrap();
    assert!(res.attributes.is_empty());
    assert_eq!(
        res.messages,
        vec![PlanMsg::MarketSwap {
            offer_denom: "uluna".to_string(),
            offer_amount: 42,
            ask_denom: "uusd".to_string(),
        }]
    );
}

#[test]
fn execute_step_dispatches_to_pool_operation() {
    let step = StrategyStep {
        from_asset: native("uluna"),
        to_asset: native("uusd"),
        operation: StrategyStepOperation::LiquidityPoolSwapOperation {
            msg: pool_op(None, None),
        },
    };
    let res = execute_step(
        &"self".to_string(),
        &"self".to_string(),
        step,
        Some("alice".to_string()),
        500,
        &"pool".to_string(),
        3,
    )
    .unwrap();
    assert_eq!(
        res.messages,
        vec![PlanMsg::PoolSwap {
            pool_addr: "pool".to_string(),
            offer_denom: "uluna".to_string(),
            offer_amount: 497,
            belief_price: None,
            max_spread: None,
            to: Some("alice".to_string()),
        }]
    );
}

#[test]
fn execute_step_surfaces_operation_errors() {
    let step = StrategyStep {
        from_asset: token("tok"),
        to_asset: native("uusd"),
        operation: StrategyStepOperation::MarketSwapOperation {
            msg: MarketSwapMsg {},
        },
    };
    let err = execute_step(
        &"self".to_string(),
        &"self".to_string(),
        step,
        None,
        100,
        &"pool".to_string(),
        0,
    )
    .unwrap_err();
    assert_eq!(err, ContractError::UnsupportedAsset);
}
