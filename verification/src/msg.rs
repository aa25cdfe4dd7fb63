//! The message shapes of the contract: the user-facing strategy request, the
//! two internal self-call-gated continuations, and the query interface.

use vstd::prelude::*;

use crate::asset::{AssetInfo, AssetInfoV};
use crate::operations::{StrategyStepOperation, StrategyStepOperationV};

verus! {

/// Instantiation parameters: the commission, in whole percent.
#[derive(Debug, PartialEq)]
pub struct InstantiateMsg {
    pub comission: i16,
}

/// One hop of a strategy: convert `from_asset` into `to_asset` using
/// `operation`.
#[derive(Debug, PartialEq)]
pub struct StrategyStep {
    pub from_asset: AssetInfo,
    pub to_asset: AssetInfo,
    pub operation: StrategyStepOperation,
}

/// Ghost model of [`StrategyStep`].
#[verifier::ext_equal]
pub struct StrategyStepV {
    pub from_asset: AssetInfoV,
    pub to_asset: AssetInfoV,
    pub operation: StrategyStepOperationV,
}

impl View for StrategyStep {
    type V = StrategyStepV;

    open spec fn view(&self) -> StrategyStepV {
        StrategyStepV {
            from_asset: self.from_asset@,
            to_asset: self.to_asset@,
            operation: self.operation@,
        }
    }
}

impl DeepView for StrategyStep {
    type V = StrategyStepV;

    open spec fn deep_view(&self) -> StrategyStepV {
        self.view()
    }
}

impl Clone for StrategyStep {
    fn clone(&self) -> (r: Self)
        ensures
            r == *self,
    {
        StrategyStep {
            from_asset: self.from_asset.clone(),
            to_asset: self.to_asset.clone(),
            operation: self.operation.clone(),
        }
    }
}

impl StrategyStep {
    pub fn get_from_asset(&self) -> (r: AssetInfo)
        ensures
            r == self.from_asset,
    {
        self.from_asset.clone()
    }

    pub fn get_to_asset(&self) -> (r: AssetInfo)
        ensures
            r == self.to_asset,
    {
        self.to_asset.clone()
    }
}

/// The execute interface of the contract. The step and finalize variants are
/// internal continuations: they are accepted only from the contract's own
/// address.
#[derive(Debug, PartialEq)]
pub enum ExecuteMsg {
    /// The user-facing entry: run the given steps in order and demand at
    /// least `minimum_receive` of the last step's output asset.
    ExecuteStrategy { steps: Vec<StrategyStep>, minimum_receive: u128 },
    /// Internal use only: run one step, routing the proceeds to `to`, or
    /// keeping them on the contract when `to` is absent.
    ExecuteStrategyStep { step: StrategyStep, to: Option<String> },
    /// Internal use only: compare the receiver's balance of `asset_info`
    /// against the snapshot taken at plan-build time.
    FinalizeStrategy {
        receiver: String,
        asset_info: AssetInfo,
        initial_balance: u128,
        minimum_receive: u128,
    },
}

/// Ghost model of [`ExecuteMsg`].
#[verifier::ext_equal]
pub enum ExecuteMsgV {
    ExecuteStrategy { steps: Seq<StrategyStepV>, minimum_receive: u128 },
    ExecuteStrategyStep { step: StrategyStepV, to: Option<Seq<char>> },
    FinalizeStrategy {
        receiver: Seq<char>,
        asset_info: AssetInfoV,
        initial_balance: u128,
        minimum_receive: u128,
    },
}

impl View for ExecuteMsg {
    type V = ExecuteMsgV;

    open spec fn view(&self) -> ExecuteMsgV {
        match self {
            ExecuteMsg::ExecuteStrategy { steps, minimum_receive } => (
            ExecuteMsgV::ExecuteStrategy {
                steps: steps.deep_view(),
                minimum_receive: *minimum_receive,
            }),
            ExecuteMsg::ExecuteStrategyStep { step, to } => (ExecuteMsgV::ExecuteStrategyStep {
                step: step@,
                to: to.deep_view(),
            }),
            ExecuteMsg::FinalizeStrategy {
                receiver,
                asset_info,
                initial_balance,
                minimum_receive,
            } => (ExecuteMsgV::FinalizeStrategy {
                receiver: receiver@,
                asset_info: asset_info@,
                initial_balance: *initial_balance,
                minimum_receive: *minimum_receive,
            }),
        }
    }
}

impl DeepView for ExecuteMsg {
    type V = ExecuteMsgV;

    open spec fn deep_view(&self) -> ExecuteMsgV {
        self.view()
    }
}

/// The strategy request as it arrives inside a token-transfer hook: the token
/// contract reports a transfer and hands over this embedded instruction.
#[derive(Debug, PartialEq)]
pub enum Cw20HookMsg {
    ExecuteStrategy { steps: Vec<StrategyStep>, minimum_receive: u128 },
}

/// The query interface of the contract.
#[derive(Debug, PartialEq)]
pub enum QueryMsg {
    Config {},
}

/// The answer to [`QueryMsg::Config`].
#[derive(Debug, PartialEq)]
pub struct ConfigResponse {
    pub comission: i16,
}

} // verus!
