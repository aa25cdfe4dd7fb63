//! The persisted configuration record: created once at instantiation, read
//! by the query handlers, never required by the orchestration core itself.

use vstd::prelude::*;

verus! {

/// The owner and commission recorded at instantiation.
#[derive(Debug, PartialEq)]
pub struct State {
    pub owner: String,
    pub comission: i16,
}

/// Ghost model of [`State`].
#[verifier::ext_equal]
pub struct StateV {
    pub owner: Seq<char>,
    pub comission: i16,
}

impl View for State {
    type V = StateV;

    open spec fn view(&self) -> StateV {
        StateV { owner: self.owner@, comission: self.comission }
    }
}

impl DeepView for State {
    type V = StateV;

    open spec fn deep_view(&self) -> StateV {
        self.view()
    }
}

} // verus!
