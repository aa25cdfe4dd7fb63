//! The liquidity-pool swap: a trade against a pool contract resolved from a
//! factory registry. A native offer funds the pool call directly, after the
//! transfer tax is deducted; a contract-token offer must travel as a token
//! transfer with the swap instruction attached.

use vstd::prelude::*;

use crate::asset::{Asset, AssetInfo, AssetInfoV, AssetV};
use crate::error::{ContractError, ContractErrorV};
use crate::response::{plan_result_view, PlanMsg, PlanMsgV};

verus! {

/// Configuration of a liquidity-pool swap: which factory resolves the pool,
/// and the optional pricing guards the pool itself enforces. The guards are
/// carried as the raw values of the host's fixed-point decimal and passed
/// through unmodified.
#[derive(Debug, PartialEq)]
pub struct LiquidityPoolSwapMsg {
    pub factory_addr: String,
    pub belief_price: Option<u128>,
    pub max_spread: Option<u128>,
}

/// Ghost model of [`LiquidityPoolSwapMsg`].
#[verifier::ext_equal]
pub struct LiquidityPoolSwapMsgV {
    pub factory_addr: Seq<char>,
    pub belief_price: Option<u128>,
    pub max_spread: Option<u128>,
}

impl View for LiquidityPoolSwapMsg {
    type V = LiquidityPoolSwapMsgV;

    open spec fn view(&self) -> LiquidityPoolSwapMsgV {
        LiquidityPoolSwapMsgV {
            factory_addr: self.factory_addr@,
            belief_price: self.belief_price,
            max_spread: self.max_spread,
        }
    }
}

impl DeepView for LiquidityPoolSwapMsg {
    type V = LiquidityPoolSwapMsgV;

    open spec fn deep_view(&self) -> LiquidityPoolSwapMsgV {
        self.view()
    }
}

impl Clone for LiquidityPoolSwapMsg {
    fn clone(&self) -> (r: Self)
        ensures
            r == *self,
    {
        LiquidityPoolSwapMsg {
            factory_addr: self.factory_addr.clone(),
            belief_price: self.belief_price,
            max_spread: self.max_spread,
        }
    }
}

/// The message a liquidity-pool swap produces, given the offer, the routing
/// target, the pool address the factory resolved for the asset pair, and the
/// transfer tax on the offered amount. A native offer funds the pool call
/// with the amount after tax, so the pool receives exactly what is sendable;
/// a contract-token offer moves through the token contract untaxed.
pub open spec fn liquidity_pool_outcome(
    msg: LiquidityPoolSwapMsgV,
    offer: AssetV,
    to: Option<Seq<char>>,
    pair_addr: Seq<char>,
    tax: u128,
) -> Result<PlanMsgV, ContractErrorV> {
    match offer.info {
        AssetInfoV::NativeToken { denom } => if tax <= offer.amount {
            Ok(
                PlanMsgV::PoolSwap {
                    pool_addr: pair_addr,
                    offer_denom: denom,
                    offer_amount: (offer.amount - tax) as u128,
                    belief_price: msg.belief_price,
                    max_spread: msg.max_spread,
                    to,
                },
            )
        } else {
            Err(ContractErrorV::Underflow { minuend: offer.amount, subtrahend: tax })
        },
        AssetInfoV::Token { contract_addr } => Ok(
            PlanMsgV::TokenPoolSwap {
                token_addr: contract_addr,
                pool_addr: pair_addr,
                amount: offer.amount,
                belief_price: msg.belief_price,
                max_spread: msg.max_spread,
                to,
            },
        ),
    }
}

impl LiquidityPoolSwapMsg {
    /// Build the single outbound pool-swap message. `pair_addr` is the pool
    /// contract the factory registry resolved for the traded pair.
    pub fn create_execution_message(
        &self,
        offer_asset: Asset,
        to: Option<String>,
        pair_addr: &String,
        tax: u128,
    ) -> (r: Result<PlanMsg, ContractError>)
        ensures
            plan_result_view(r) == liquidity_pool_outcome(
                self@,
                offer_asset@,
                to.deep_view(),
                pair_addr@,
                tax,
            ),
    {
        let Asset { info, amount } = offer_asset;
        match info {
            AssetInfo::NativeToken { denom } => {
                // The coins funding the pool call are a native transfer, so
                // the tax is deducted first: the pool receives exactly the
                // sendable amount.
                if tax <= amount {
                    Ok(
                        PlanMsg::PoolSwap {
                            pool_addr: pair_addr.clone(),
                            offer_denom: denom,
                            offer_amount: amount - tax,
                            belief_price: self.belief_price,
                            max_spread: self.max_spread,
                            to,
                        },
                    )
                } else {
                    Err(ContractError::Underflow { minuend: amount, subtrahend: tax })
                }
            },
            AssetInfo::Token { contract_addr } => {
                // Token movement needs the token contract's own
                // authorization: the swap instruction rides along as the
                // payload of a token send to the pool.
                Ok(
                    PlanMsg::TokenPoolSwap {
                        token_addr: contract_addr,
                        pool_addr: pair_addr.clone(),
                        amount,
                        belief_price: self.belief_price,
                        max_spread: self.max_spread,
                        to,
                    },
                )
            },
        }
    }
}

/// For a native offer of amount `A` with transfer tax `T`, the pool-bound
/// swap message offers exactly `A - T`, never `A`.
pub proof fn lemma_tax_deducted(
    msg: LiquidityPoolSwapMsgV,
    offer: AssetV,
    to: Option<Seq<char>>,
    pair_addr: Seq<char>,
    tax: u128,
)
    requires
        offer.info is NativeToken,
        tax <= offer.amount,
    ensures
        liquidity_pool_outcome(msg, offer, to, pair_addr, tax) matches Ok(m)
            && m->PoolSwap_offer_amount == offer.amount - tax,
{
}

} // verus!
