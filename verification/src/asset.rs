//! The asset abstraction: an asset is either the chain's native currency,
//! identified by its denomination, or a token administered by a separate
//! contract, identified by that contract's address.

use vstd::prelude::*;

verus! {

/// Identifies an asset on the host chain.
#[derive(Debug, PartialEq)]
pub enum AssetInfo {
    NativeToken { denom: String },
    Token { contract_addr: String },
}

/// Ghost model of [`AssetInfo`]: the identifying string as a character sequence.
#[verifier::ext_equal]
pub enum AssetInfoV {
    NativeToken { denom: Seq<char> },
    Token { contract_addr: Seq<char> },
}

impl View for AssetInfo {
    type V = AssetInfoV;

    open spec fn view(&self) -> AssetInfoV {
        match self {
            AssetInfo::NativeToken { denom } => AssetInfoV::NativeToken { denom: denom@ },
            AssetInfo::Token { contract_addr } => AssetInfoV::Token {
                contract_addr: contract_addr@,
            },
        }
    }
}

impl DeepView for AssetInfo {
    type V = AssetInfoV;

    open spec fn deep_view(&self) -> AssetInfoV {
        self.view()
    }
}

impl Clone for AssetInfo {
    fn clone(&self) -> (r: Self)
        ensures
            r == *self,
    {
        match self {
            AssetInfo::NativeToken { denom } => AssetInfo::NativeToken { denom: denom.clone() },
            AssetInfo::Token { contract_addr } => AssetInfo::Token {
                contract_addr: contract_addr.clone(),
            },
        }
    }
}

/// The identifying string of an asset: the denomination of a native asset,
/// the administering contract's address of a token.
pub open spec fn asset_label(info: AssetInfoV) -> Seq<char> {
    match info {
        AssetInfoV::NativeToken { denom } => denom,
        AssetInfoV::Token { contract_addr } => contract_addr,
    }
}

impl AssetInfo {
    /// Structural equality: same variant and same identifying field.
    pub fn equal(&self, other: &AssetInfo) -> (r: bool)
        ensures
            r == (self@ == other@),
    {
        match (self, other) {
            (AssetInfo::NativeToken { denom: a }, AssetInfo::NativeToken { denom: b }) => *a
                == *b,
            (AssetInfo::Token { contract_addr: a }, AssetInfo::Token { contract_addr: b }) => *a
                == *b,
            _ => false,
        }
    }

    /// The identifying string, for audit attributes.
    pub fn label(&self) -> (r: String)
        ensures
            r@ == asset_label(self@),
    {
        match self {
            AssetInfo::NativeToken { denom } => denom.clone(),
            AssetInfo::Token { contract_addr } => contract_addr.clone(),
        }
    }
}

/// An asset paired with an amount of it. Amounts are unsigned; subtracting
/// them is always a checked operation that fails on underflow.
#[derive(Debug, PartialEq)]
pub struct Asset {
    pub info: AssetInfo,
    pub amount: u128,
}

/// Ghost model of [`Asset`].
#[verifier::ext_equal]
pub struct AssetV {
    pub info: AssetInfoV,
    pub amount: u128,
}

impl View for Asset {
    type V = AssetV;

    open spec fn view(&self) -> AssetV {
        AssetV { info: self.info@, amount: self.amount }
    }
}

impl DeepView for Asset {
    type V = AssetV;

    open spec fn deep_view(&self) -> AssetV {
        self.view()
    }
}

} // verus!
