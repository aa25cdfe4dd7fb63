//! The market swap: a native-to-native exchange on the chain's own market.
//! Contract tokens are not supported on either side.

use vstd::prelude::*;

use crate::asset::{Asset, AssetInfo, AssetInfoV, AssetV};
use crate::error::{ContractError, ContractErrorV};
use crate::response::{plan_result_view, PlanMsg, PlanMsgV};

verus! {

/// A market swap carries no configuration of its own.
#[derive(Debug, PartialEq)]
pub struct MarketSwapMsg {}

/// Ghost model of [`MarketSwapMsg`].
pub struct MarketSwapMsgV {}

impl View for MarketSwapMsg {
    type V = MarketSwapMsgV;

    open spec fn view(&self) -> MarketSwapMsgV {
        MarketSwapMsgV {}
    }
}

impl DeepView for MarketSwapMsg {
    type V = MarketSwapMsgV;

    open spec fn deep_view(&self) -> MarketSwapMsgV {
        self.view()
    }
}

impl Clone for MarketSwapMsg {
    fn clone(&self) -> (r: Self)
        ensures
            r == *self,
    {
        MarketSwapMsg {  }
    }
}

/// The message a market swap produces, given the offer, the asked asset, the
/// routing target, and the transfer tax on the offered amount. A contract
/// token on either side is unsupported. When the proceeds go directly to a
/// target, the tax is deducted from the offer first, since that send is a
/// native transfer; when they stay with the caller, the full amount is
/// offered.
pub open spec fn market_swap_outcome(
    offer: AssetV,
    ask: AssetInfoV,
    to: Option<Seq<char>>,
    tax: u128,
) -> Result<PlanMsgV, ContractErrorV> {
    if offer.info is Token || ask is Token {
        Err(ContractErrorV::UnsupportedAsset)
    } else {
        match to {
            Some(target) => if tax <= offer.amount {
                Ok(
                    PlanMsgV::MarketSwapSend {
                        to: target,
                        offer_denom: offer.info->denom,
                        offer_amount: (offer.amount - tax) as u128,
                        ask_denom: ask->denom,
                    },
                )
            } else {
                Err(ContractErrorV::Underflow { minuend: offer.amount, subtrahend: tax })
            },
            None => Ok(
                PlanMsgV::MarketSwap {
                    offer_denom: offer.info->denom,
                    offer_amount: offer.amount,
                    ask_denom: ask->denom,
                },
            ),
        }
    }
}

impl MarketSwapMsg {
    /// Build the single outbound market-swap message.
    pub fn create_execution_message(
        &self,
        offer_asset: Asset,
        ask_asset_info: AssetInfo,
        to: Option<String>,
        tax: u128,
    ) -> (r: Result<PlanMsg, ContractError>)
        ensures
            plan_result_view(r) == market_swap_outcome(
                offer_asset@,
                ask_asset_info@,
                to.deep_view(),
                tax,
            ),
    {
        let Asset { info, amount } = offer_asset;
        let offer_denom = match info {
            AssetInfo::NativeToken { denom } => denom,
            AssetInfo::Token { .. } => {
                return Err(ContractError::UnsupportedAsset);
            },
        };
        let ask_denom = match ask_asset_info {
            AssetInfo::NativeToken { denom } => denom,
            AssetInfo::Token { .. } => {
                return Err(ContractError::UnsupportedAsset);
            },
        };
        match to {
            Some(target) => {
                // The proceeds are sent onwards in the same breath, and that
                // native transfer is taxed: offer only what remains sendable.
                if tax <= amount {
                    Ok(
                        PlanMsg::MarketSwapSend {
                            to: target,
                            offer_denom,
                            offer_amount: amount - tax,
                            ask_denom,
                        },
                    )
                } else {
                    Err(ContractError::Underflow { minuend: amount, subtrahend: tax })
                }
            },
            None => Ok(PlanMsg::MarketSwap { offer_denom, offer_amount: amount, ask_denom }),
        }
    }
}

/// A market swap offered or asked a contract token always fails as
/// unsupported and emits no message, whatever the amounts, the routing or
/// the tax.
pub proof fn lemma_market_rejects_tokens(
    offer: AssetV,
    ask: AssetInfoV,
    to: Option<Seq<char>>,
    tax: u128,
)
    requires
        offer.info is Token || ask is Token,
    ensures
        market_swap_outcome(offer, ask, to, tax) == Err::<PlanMsgV, ContractErrorV>(
            ContractErrorV::UnsupportedAsset,
        ),
{
}

/// When a market swap forwards its proceeds to a target, the offered amount
/// is the given amount less the transfer tax, never the full amount.
pub proof fn lemma_market_send_deducts_tax(
    offer: AssetV,
    ask: AssetInfoV,
    target: Seq<char>,
    tax: u128,
)
    requires
        offer.info is NativeToken,
        ask is NativeToken,
        tax <= offer.amount,
    ensures
        market_swap_outcome(offer, ask, Some(target), tax) matches Ok(m)
            && m->MarketSwapSend_offer_amount == offer.amount - tax,
{
}

} // verus!
