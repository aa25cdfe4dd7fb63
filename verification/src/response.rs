//! What a handler hands back to the host: an ordered batch of outbound
//! messages, executed by the host strictly in this order as one all-or-nothing
//! unit, plus audit attributes. Messages are held as the plain values the
//! host needs; the unverified shell turns them into the host's wire form.

use vstd::prelude::*;

use crate::error::{ContractError, ContractErrorV};
use crate::msg::{ExecuteMsg, ExecuteMsgV};

verus! {

/// One outbound message of an execution plan.
#[allow(inconsistent_fields)]
#[derive(Debug, PartialEq)]
pub enum PlanMsg {
    /// A continuation addressed to the orchestrating contract itself,
    /// carrying one of the internal [`ExecuteMsg`] variants.
    ExecuteSelf { contract_addr: String, msg: ExecuteMsg },
    /// A swap on a liquidity pool, funded with native coins of
    /// `offer_denom`. `belief_price` and `max_spread` are pricing guards the
    /// pool understands, passed through unmodified as the raw values of the
    /// host's fixed-point decimal.
    PoolSwap {
        pool_addr: String,
        offer_denom: String,
        offer_amount: u128,
        belief_price: Option<u128>,
        max_spread: Option<u128>,
        to: Option<String>,
    },
    /// A swap on a liquidity pool paid in a contract token: the token
    /// contract is told to move `amount` to the pool, with the swap
    /// instruction embedded as the transfer's payload, because token movement
    /// needs the token contract's own authorization.
    TokenPoolSwap {
        token_addr: String,
        pool_addr: String,
        amount: u128,
        belief_price: Option<u128>,
        max_spread: Option<u128>,
        to: Option<String>,
    },
    /// A native market swap whose proceeds stay with the caller.
    MarketSwap { offer_denom: String, offer_amount: u128, ask_denom: String },
    /// A native market swap whose proceeds go directly to `to`.
    MarketSwapSend { to: String, offer_denom: String, offer_amount: u128, ask_denom: String },
}

/// Ghost model of [`PlanMsg`].
#[verifier::ext_equal]
#[allow(inconsistent_fields)]
pub enum PlanMsgV {
    ExecuteSelf { contract_addr: Seq<char>, msg: ExecuteMsgV },
    PoolSwap {
        pool_addr: Seq<char>,
        offer_denom: Seq<char>,
        offer_amount: u128,
        belief_price: Option<u128>,
        max_spread: Option<u128>,
        to: Option<Seq<char>>,
    },
    TokenPoolSwap {
        token_addr: Seq<char>,
        pool_addr: Seq<char>,
        amount: u128,
        belief_price: Option<u128>,
        max_spread: Option<u128>,
        to: Option<Seq<char>>,
    },
    MarketSwap { offer_denom: Seq<char>, offer_amount: u128, ask_denom: Seq<char> },
    MarketSwapSend {
        to: Seq<char>,
        offer_denom: Seq<char>,
        offer_amount: u128,
        ask_denom: Seq<char>,
    },
}

impl View for PlanMsg {
    type V = PlanMsgV;

    open spec fn view(&self) -> PlanMsgV {
        match self {
            PlanMsg::ExecuteSelf { contract_addr, msg } => (PlanMsgV::ExecuteSelf {
                contract_addr: contract_addr@,
                msg: msg@,
            }),
            PlanMsg::PoolSwap {
                pool_addr,
                offer_denom,
                offer_amount,
                belief_price,
                max_spread,
                to,
            } => (PlanMsgV::PoolSwap {
                pool_addr: pool_addr@,
                offer_denom: offer_denom@,
                offer_amount: *offer_amount,
                belief_price: *belief_price,
                max_spread: *max_spread,
                to: to.deep_view(),
            }),
            PlanMsg::TokenPoolSwap {
                token_addr,
                pool_addr,
                amount,
                belief_price,
                max_spread,
                to,
            } => (PlanMsgV::TokenPoolSwap {
                token_addr: token_addr@,
                pool_addr: pool_addr@,
                amount: *amount,
                belief_price: *belief_price,
                max_spread: *max_spread,
                to: to.deep_view(),
            }),
            PlanMsg::MarketSwap { offer_denom, offer_amount, ask_denom } => (PlanMsgV::MarketSwap {
                offer_denom: offer_denom@,
                offer_amount: *offer_amount,
                ask_denom: ask_denom@,
            }),
            PlanMsg::MarketSwapSend { to, offer_denom, offer_amount, ask_denom } => (
            PlanMsgV::MarketSwapSend {
                to: to@,
                offer_denom: offer_denom@,
                offer_amount: *offer_amount,
                ask_denom: ask_denom@,
            }),
        }
    }
}

impl DeepView for PlanMsg {
    type V = PlanMsgV;

    open spec fn deep_view(&self) -> PlanMsgV {
        self.view()
    }
}

/// The value of an audit attribute: an amount, or a printable name.
#[derive(Debug, PartialEq)]
pub enum AttributeValue {
    Amount(u128),
    Text(String),
}

/// Ghost model of [`AttributeValue`].
#[verifier::ext_equal]
pub enum AttributeValueV {
    Amount(u128),
    Text(Seq<char>),
}

impl View for AttributeValue {
    type V = AttributeValueV;

    open spec fn view(&self) -> AttributeValueV {
        match self {
            AttributeValue::Amount(a) => AttributeValueV::Amount(*a),
            AttributeValue::Text(t) => AttributeValueV::Text(t@),
        }
    }
}

impl DeepView for AttributeValue {
    type V = AttributeValueV;

    open spec fn deep_view(&self) -> AttributeValueV {
        self.view()
    }
}

/// One audit attribute, recorded for external diagnosis.
#[derive(Debug, PartialEq)]
pub struct Attribute {
    pub key: String,
    pub value: AttributeValue,
}

/// Ghost model of [`Attribute`].
#[verifier::ext_equal]
pub struct AttributeV {
    pub key: Seq<char>,
    pub value: AttributeValueV,
}

impl View for Attribute {
    type V = AttributeV;

    open spec fn view(&self) -> AttributeV {
        AttributeV { key: self.key@, value: self.value@ }
    }
}

impl DeepView for Attribute {
    type V = AttributeV;

    open spec fn deep_view(&self) -> AttributeV {
        self.view()
    }
}

/// What a successful handler returns: outbound messages, in the exact order
/// the host must run them, and audit attributes.
#[derive(Debug, PartialEq)]
pub struct Response {
    pub messages: Vec<PlanMsg>,
    pub attributes: Vec<Attribute>,
}

/// Ghost model of [`Response`].
#[verifier::ext_equal]
pub struct ResponseV {
    pub messages: Seq<PlanMsgV>,
    pub attributes: Seq<AttributeV>,
}

impl View for Response {
    type V = ResponseV;

    open spec fn view(&self) -> ResponseV {
        ResponseV { messages: self.messages.deep_view(), attributes: self.attributes.deep_view() }
    }
}

impl DeepView for Response {
    type V = ResponseV;

    open spec fn deep_view(&self) -> ResponseV {
        self.view()
    }
}

/// The ghost model of a handler's result.
pub open spec fn response_result_view(r: Result<Response, ContractError>) -> Result<
    ResponseV,
    ContractErrorV,
> {
    match r {
        Ok(resp) => Ok(resp@),
        Err(e) => Err(e@),
    }
}

/// The ghost model of a message builder's result.
pub open spec fn plan_result_view(r: Result<PlanMsg, ContractError>) -> Result<
    PlanMsgV,
    ContractErrorV,
> {
    match r {
        Ok(m) => Ok(m@),
        Err(e) => Err(e@),
    }
}

} // verus!
