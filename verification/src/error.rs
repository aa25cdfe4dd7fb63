//! The failure taxonomy of the orchestrator. Every error is terminal for the
//! whole multi-step attempt: the host reverts the entire unit, so none is
//! retried or locally recovered. Each variant carries the offending values.

use vstd::prelude::*;

verus! {

/// Why a handler refused to act.
#[derive(Debug, PartialEq)]
pub enum ContractError {
    /// A strategy must contain at least one step.
    EmptySteps,
    /// The commission must lie between 0 and 100 inclusive.
    InvalidCommission { comission: i16 },
    /// An internal handler was invoked by an address other than the
    /// contract's own.
    Unauthorized { expected: String, caller: String },
    /// A checked subtraction of amounts underflowed: `subtrahend` exceeded
    /// `minuend`.
    Underflow { minuend: u128, subtrahend: u128 },
    /// The amount received fell short of the agreed minimum.
    AssertionFailed { minimum_receive: u128, amount: u128 },
    /// A market swap was offered or asked a contract token; only native
    /// assets trade on the market.
    UnsupportedAsset,
}

/// Ghost model of [`ContractError`].
#[verifier::ext_equal]
pub enum ContractErrorV {
    EmptySteps,
    InvalidCommission { comission: i16 },
    Unauthorized { expected: Seq<char>, caller: Seq<char> },
    Underflow { minuend: u128, subtrahend: u128 },
    AssertionFailed { minimum_receive: u128, amount: u128 },
    UnsupportedAsset,
}

impl View for ContractError {
    type V = ContractErrorV;

    open spec fn view(&self) -> ContractErrorV {
        match self {
            ContractError::EmptySteps => ContractErrorV::EmptySteps,
            ContractError::InvalidCommission { comission } => (ContractErrorV::InvalidCommission {
                comission: *comission,
            }),
            ContractError::Unauthorized { expected, caller } => (ContractErrorV::Unauthorized {
                expected: expected@,
                caller: caller@,
            }),
            ContractError::Underflow { minuend, subtrahend } => (ContractErrorV::Underflow {
                minuend: *minuend,
                subtrahend: *subtrahend,
            }),
            ContractError::AssertionFailed { minimum_receive, amount } => (
            ContractErrorV::AssertionFailed {
                minimum_receive: *minimum_receive,
                amount: *amount,
            }),
            ContractError::UnsupportedAsset => ContractErrorV::UnsupportedAsset,
        }
    }
}

impl DeepView for ContractError {
    type V = ContractErrorV;

    open spec fn deep_view(&self) -> ContractErrorV {
        self.view()
    }
}

} // verus!
