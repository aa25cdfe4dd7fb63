//! Polymorphic operation dispatch: the closed set of swap-operation
//! variants. Adding an operation means adding a variant and its own message
//! builder; the orchestrator never changes.

use vstd::prelude::*;

use crate::asset::{Asset, AssetInfo, AssetInfoV, AssetV};
use crate::error::{ContractError, ContractErrorV};
use crate::msgs::liquidity_pool::{LiquidityPoolSwapMsg, LiquidityPoolSwapMsgV};
use crate::msgs::market::{MarketSwapMsg, MarketSwapMsgV};
use crate::response::{plan_result_view, PlanMsg, PlanMsgV};

verus! {

/// One swap operation, with its operation-specific configuration.
#[derive(Debug, PartialEq)]
pub enum StrategyStepOperation {
    LiquidityPoolSwapOperation { msg: LiquidityPoolSwapMsg },
    MarketSwapOperation { msg: MarketSwapMsg },
}

/// Ghost model of [`StrategyStepOperation`].
#[verifier::ext_equal]
pub enum StrategyStepOperationV {
    LiquidityPoolSwapOperation { msg: LiquidityPoolSwapMsgV },
    MarketSwapOperation { msg: MarketSwapMsgV },
}

impl View for StrategyStepOperation {
    type V = StrategyStepOperationV;

    open spec fn view(&self) -> StrategyStepOperationV {
        match self {
            StrategyStepOperation::LiquidityPoolSwapOperation { msg } => (
            StrategyStepOperationV::LiquidityPoolSwapOperation { msg: msg@ }),
            StrategyStepOperation::MarketSwapOperation { msg } => (
            StrategyStepOperationV::MarketSwapOperation { msg: msg@ }),
        }
    }
}

impl DeepView for StrategyStepOperation {
    type V = StrategyStepOperationV;

    open spec fn deep_view(&self) -> StrategyStepOperationV {
        self.view()
    }
}

impl Clone for StrategyStepOperation {
    fn clone(&self) -> (r: Self)
        ensures
            r == *self,
    {
        match self {
            StrategyStepOperation::LiquidityPoolSwapOperation { msg } => (
            StrategyStepOperation::LiquidityPoolSwapOperation { msg: msg.clone() }),
            StrategyStepOperation::MarketSwapOperation { msg } => (
            StrategyStepOperation::MarketSwapOperation { msg: msg.clone() }),
        }
    }
}

/// The message an operation produces for a given offer, asked asset, routing
/// target, resolved pool address and transfer tax: the dispatch over the
/// variant tag.
pub open spec fn operation_outcome(
    op: StrategyStepOperationV,
    offer: AssetV,
    ask: AssetInfoV,
    to: Option<Seq<char>>,
    pair_addr: Seq<char>,
    tax: u128,
) -> Result<PlanMsgV, ContractErrorV> {
    match op {
        StrategyStepOperationV::LiquidityPoolSwapOperation { msg } => (
        crate::msgs::liquidity_pool::liquidity_pool_outcome(msg, offer, to, pair_addr, tax)),
        StrategyStepOperationV::MarketSwapOperation { msg: _ } => (
        crate::msgs::market::market_swap_outcome(offer, ask, to, tax)),
    }
}

impl StrategyStepOperation {
    /// Build the single outbound execution message of this operation.
    /// `pair_addr` is the pool address resolved for the traded pair; only a
    /// liquidity-pool swap reads it. `tax` is the transfer tax computed on
    /// the offered amount; a swap that moves native coins deducts it.
    pub fn create_execution_message(
        &self,
        offer_asset: Asset,
        ask_asset_info: AssetInfo,
        to: Option<String>,
        pair_addr: &String,
        tax: u128,
    ) -> (r: Result<PlanMsg, ContractError>)
        ensures
            plan_result_view(r) == operation_outcome(
                self@,
                offer_asset@,
                ask_asset_info@,
                to.deep_view(),
                pair_addr@,
                tax,
            ),
    {
        match self {
            StrategyStepOperation::LiquidityPoolSwapOperation { msg } => msg.create_execution_message(
                offer_asset,
                to,
                pair_addr,
                tax,
            ),
            StrategyStepOperation::MarketSwapOperation { msg } => msg.create_execution_message(
                offer_asset,
                ask_asset_info,
                to,
                tax,
            ),
        }
    }
}

} // verus!
