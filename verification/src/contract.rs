//! The orchestration core: instantiation, the strategy planner that turns a
//! list of steps into an ordered queue of self-addressed continuations plus
//! one trailing invariant check, the authorization-gated step executor, and
//! the finalizer that enforces the minimum-receive bound against the balance
//! snapshot taken at plan-build time.
//!
//! Every balance, resolved pool address and transfer tax a handler needs is
//! read from the chain by the unverified shell and handed in as a plain
//! value; the handlers here decide everything else.

use vstd::prelude::*;

use crate::asset::{asset_label, Asset, AssetInfoV, AssetV};
use crate::error::{ContractError, ContractErrorV};
use crate::msg::{
    ConfigResponse, ExecuteMsg, ExecuteMsgV, InstantiateMsg, QueryMsg, StrategyStep, StrategyStepV,
};
use crate::operations::operation_outcome;
use crate::response::{
    response_result_view, Attribute, AttributeV, AttributeValue, AttributeValueV, PlanMsg,
    PlanMsgV, Response, ResponseV,
};
use crate::state::{State, StateV};

verus! {

/// Whether a caller may run an internal handler: only the contract's own
/// address may, which is what makes forged continuations impossible.
pub open spec fn authorized(contract: Seq<char>, sender: Seq<char>) -> bool {
    contract == sender
}

/// A strategy is a round trip when its input asset equals its final output
/// asset.
pub open spec fn is_round_trip(steps: Seq<StrategyStepV>) -> bool
    recommends
        steps.len() > 0,
{
    steps.first().from_asset == steps.last().to_asset
}

/// The `i`-th continuation of a plan: a self-addressed message carrying the
/// `i`-th step. Only the last step routes its proceeds straight to the
/// requester; every earlier step leaves them on the contract for the next
/// hop.
pub open spec fn step_message(
    contract: Seq<char>,
    sender: Seq<char>,
    steps: Seq<StrategyStepV>,
    i: int,
) -> PlanMsgV
    recommends
        0 <= i < steps.len(),
{
    PlanMsgV::ExecuteSelf {
        contract_addr: contract,
        msg: ExecuteMsgV::ExecuteStrategyStep {
            step: steps[i],
            to: if i == steps.len() - 1 {
                Some(sender)
            } else {
                None
            },
        },
    }
}

/// The trailing message of every plan: a self-addressed instruction to
/// compare the requester's balance of the target asset against the snapshot
/// taken when the plan was built.
pub open spec fn finalize_message(
    contract: Seq<char>,
    sender: Seq<char>,
    target: AssetInfoV,
    snapshot: u128,
    minimum_receive: u128,
) -> PlanMsgV {
    PlanMsgV::ExecuteSelf {
        contract_addr: contract,
        msg: ExecuteMsgV::FinalizeStrategy {
            receiver: sender,
            asset_info: target,
            initial_balance: snapshot,
            minimum_receive,
        },
    }
}

/// The full plan for a strategy: one continuation per step, in the given
/// order, and the finalize message last.
pub open spec fn strategy_plan(
    contract: Seq<char>,
    sender: Seq<char>,
    steps: Seq<StrategyStepV>,
    minimum_receive: u128,
    snapshot: u128,
) -> Seq<PlanMsgV>
    recommends
        steps.len() > 0,
{
    Seq::new(
        steps.len() + 1,
        |i: int|
            if i < steps.len() {
                step_message(contract, sender, steps, i)
            } else {
                finalize_message(
                    contract,
                    sender,
                    steps.last().to_asset,
                    snapshot,
                    minimum_receive,
                )
            },
    )
}

/// What planning a strategy returns. `snapshot` is the requester's balance
/// of the output asset, read before any message is emitted. An empty
/// strategy fails validation; otherwise the plan is emitted with no
/// attributes. Nothing is settled at plan-build time — a round trip
/// included, since the live balance now says nothing about what the steps
/// will deliver: the bound is enforced only by the finalize message.
pub open spec fn strategy_outcome(
    contract: Seq<char>,
    sender: Seq<char>,
    steps: Seq<StrategyStepV>,
    minimum_receive: u128,
    snapshot: u128,
) -> Result<ResponseV, ContractErrorV> {
    if steps.len() == 0 {
        Err(ContractErrorV::EmptySteps)
    } else {
        Ok(
            ResponseV {
                messages: strategy_plan(contract, sender, steps, minimum_receive, snapshot),
                attributes: Seq::empty(),
            },
        )
    }
}

/// Decompose a strategy into its execution plan.
///
/// `contract_addr` is this contract's own address and `sender` the
/// requester. `receiver_target_balance` is the requester's balance of the
/// last step's output asset, read from the chain before this call, so the
/// snapshot predates every message of the plan. The minimum-receive bound is
/// deferred entirely to the finalize message — also for a round trip, whose
/// balance at plan-build time is not assumed current.
///
/// Steps are not required to chain (one step's output asset need not be the
/// next step's input asset): each hop trades whatever the contract then
/// holds of its own input asset, and the minimum-receive bound at the end is
/// the one guarantee given.
pub fn execute_strategy(
    contract_addr: &String,
    sender: &String,
    steps: Vec<StrategyStep>,
    minimum_receive: u128,
    receiver_target_balance: u128,
) -> (r: Result<Response, ContractError>)
    ensures
        response_result_view(r) == strategy_outcome(
            contract_addr@,
            sender@,
            steps.deep_view(),
            minimum_receive,
            receiver_target_balance,
        ),
{
    let steps_len = steps.len();
    if steps_len == 0 {
        return Err(ContractError::EmptySteps);
    }
    let target_asset_info = steps[steps_len - 1].to_asset.clone();
    let ghost stepsv = steps.deep_view();

    let mut messages: Vec<PlanMsg> = Vec::new();
    let mut i: usize = 0;
    while i < steps_len
        invariant
            i <= steps_len,
            steps_len == stepsv.len(),
            stepsv == steps.deep_view(),
            messages.deep_view().len() == i,
            forall|j: int|
                0 <= j < i ==> messages.deep_view()[j] == step_message(
                    contract_addr@,
                    sender@,
                    stepsv,
                    j,
                ),
        decreases steps_len - i,
    {
        let step = steps[i].clone();
        let to: Option<String> = if i == steps_len - 1 {
            Some(sender.clone())
        } else {
            None
        };
        let m = PlanMsg::ExecuteSelf {
            contract_addr: contract_addr.clone(),
            msg: ExecuteMsg::ExecuteStrategyStep { step, to },
        };
        let ghost prev = messages.deep_view();
        let ghost mv = m@;
        proof {
            assert(mv == step_message(contract_addr@, sender@, stepsv, i as int));
        }
        messages.push(m);
        proof {
            assert(messages.deep_view() =~= prev.push(mv));
        }
        i += 1;
    }
    let m = PlanMsg::ExecuteSelf {
        contract_addr: contract_addr.clone(),
        msg: ExecuteMsg::FinalizeStrategy {
            receiver: sender.clone(),
            asset_info: target_asset_info,
            initial_balance: receiver_target_balance,
            minimum_receive,
        },
    };
    let ghost prev = messages.deep_view();
    let ghost mv = m@;
    proof {
        assert(mv == finalize_message(
            contract_addr@,
            sender@,
            stepsv.last().to_asset,
            receiver_target_balance,
            minimum_receive,
        ));
    }
    messages.push(m);
    let resp = Response { messages, attributes: Vec::new() };
    proof {
        assert(resp@.messages =~= prev.push(mv));
        assert(resp@.messages =~= strategy_plan(
            contract_addr@,
            sender@,
            stepsv,
            minimum_receive,
            receiver_target_balance,
        ));
        assert(resp@.attributes =~= Seq::<AttributeV>::empty());
    }
    Ok(resp)
}

/// The authorization gate of the internal handlers: only the contract's own
/// address passes.
pub fn assert_self_call(contract_addr: &String, sender: &String) -> (r: Result<
    (),
    ContractError,
>)
    ensures
        r is Ok <==> authorized(contract_addr@, sender@),
        r matches Err(e) ==> e@ == (ContractErrorV::Unauthorized {
            expected: contract_addr@,
            caller: sender@,
        }),
{
    if *contract_addr == *sender {
        Ok(())
    } else {
        Err(
            ContractError::Unauthorized {
                expected: contract_addr.clone(),
                caller: sender.clone(),
            },
        )
    }
}

/// What executing one step returns: an authorization error for any caller
/// but the contract itself, otherwise the operation's single outbound
/// message. `from_balance` is the contract's live balance of the step's
/// input asset — the hop always trades what is really held, never an amount
/// embedded in a message.
pub open spec fn step_outcome(
    contract: Seq<char>,
    sender: Seq<char>,
    step: StrategyStepV,
    to: Option<Seq<char>>,
    from_balance: u128,
    pair_addr: Seq<char>,
    tax: u128,
) -> Result<ResponseV, ContractErrorV> {
    if !authorized(contract, sender) {
        Err(ContractErrorV::Unauthorized { expected: contract, caller: sender })
    } else {
        match operation_outcome(
            step.operation,
            AssetV { info: step.from_asset, amount: from_balance },
            step.to_asset,
            to,
            pair_addr,
            tax,
        ) {
            Ok(m) => Ok(ResponseV { messages: seq![m], attributes: Seq::empty() }),
            Err(e) => Err(e),
        }
    }
}

/// Run one step of a strategy: read access to the live balance, the resolved
/// pool address and the tax came from the chain; the step's operation builds
/// the one outbound message.
pub fn execute_step(
    contract_addr: &String,
    sender: &String,
    step: StrategyStep,
    to: Option<String>,
    from_balance: u128,
    pair_addr: &String,
    tax: u128,
) -> (r: Result<Response, ContractError>)
    ensures
        response_result_view(r) == step_outcome(
            contract_addr@,
            sender@,
            step@,
            to.deep_view(),
            from_balance,
            pair_addr@,
            tax,
        ),
{
    match assert_self_call(contract_addr, sender) {
        Ok(_) => {},
        Err(e) => {
            return Err(e);
        },
    }
    let StrategyStep { from_asset, to_asset, operation } = step;
    let offer = Asset { info: from_asset, amount: from_balance };
    let m = match operation.create_execution_message(offer, to_asset, to, pair_addr, tax) {
        Ok(m) => m,
        Err(e) => {
            return Err(e);
        },
    };
    let ghost mv = m@;
    let mut messages: Vec<PlanMsg> = Vec::new();
    messages.push(m);
    let resp = Response { messages, attributes: Vec::new() };
    proof {
        assert(resp@.messages =~= seq![mv]);
        assert(resp@.attributes =~= Seq::<AttributeV>::empty());
    }
    Ok(resp)
}

/// The audit attributes of a successful finalize: the snapshot, the balance
/// found now, and the target asset's name.
pub open spec fn finalize_attributes(
    target: AssetInfoV,
    initial_balance: u128,
    current_balance: u128,
) -> Seq<AttributeV> {
    seq![
        AttributeV { key: "initial_balance"@, value: AttributeValueV::Amount(initial_balance) },
        AttributeV { key: "final_balance"@, value: AttributeValueV::Amount(current_balance) },
        AttributeV { key: "target_asset"@, value: AttributeValueV::Text(asset_label(target)) },
    ]
}

/// What finalizing returns: an authorization error for any caller but the
/// contract itself; an arithmetic error when the balance decreased below the
/// snapshot; an assertion error naming both compared values when the gain
/// falls short of the minimum; otherwise success with the audit attributes
/// and no further messages.
pub open spec fn finalize_outcome(
    contract: Seq<char>,
    sender: Seq<char>,
    target: AssetInfoV,
    initial_balance: u128,
    minimum_receive: u128,
    current_balance: u128,
) -> Result<ResponseV, ContractErrorV> {
    if !authorized(contract, sender) {
        Err(ContractErrorV::Unauthorized { expected: contract, caller: sender })
    } else if current_balance < initial_balance {
        Err(ContractErrorV::Underflow { minuend: current_balance, subtrahend: initial_balance })
    } else if current_balance - initial_balance < minimum_receive {
        Err(
            ContractErrorV::AssertionFailed {
                minimum_receive,
                amount: (current_balance - initial_balance) as u128,
            },
        )
    } else {
        Ok(
            ResponseV {
                messages: Seq::empty(),
                attributes: finalize_attributes(target, initial_balance, current_balance),
            },
        )
    }
}

/// Enforce the minimum-receive bound: the swap amount is the checked
/// difference between the balance found now and the snapshot recorded at
/// plan-build time.
pub fn finalize_strategy(
    contract_addr: &String,
    sender: &String,
    target_asset_info: crate::asset::AssetInfo,
    initial_balance: u128,
    minimum_receive: u128,
    current_balance: u128,
) -> (r: Result<Response, ContractError>)
    ensures
        response_result_view(r) == finalize_outcome(
            contract_addr@,
            sender@,
            target_asset_info@,
            initial_balance,
            minimum_receive,
            current_balance,
        ),
{
    match assert_self_call(contract_addr, sender) {
        Ok(_) => {},
        Err(e) => {
            return Err(e);
        },
    }
    if current_balance < initial_balance {
        return Err(
            ContractError::Underflow { minuend: current_balance, subtrahend: initial_balance },
        );
    }
    let swap_amount = current_balance - initial_balance;
    if swap_amount < minimum_receive {
        return Err(ContractError::AssertionFailed { minimum_receive, amount: swap_amount });
    }
    let mut attributes: Vec<Attribute> = Vec::new();
    attributes.push(
        Attribute {
            key: "initial_balance".to_owned(),
            value: AttributeValue::Amount(initial_balance),
        },
    );
    attributes.push(
        Attribute {
            key: "final_balance".to_owned(),
            value: AttributeValue::Amount(current_balance),
        },
    );
    attributes.push(
        Attribute {
            key: "target_asset".to_owned(),
            value: AttributeValue::Text(target_asset_info.label()),
        },
    );
    let resp = Response { messages: Vec::new(), attributes };
    proof {
        assert(resp@.attributes =~= finalize_attributes(
            target_asset_info@,
            initial_balance,
            current_balance,
        ));
        assert(resp@.messages =~= Seq::<PlanMsgV>::empty());
    }
    Ok(resp)
}

/// The audit attributes of instantiation.
pub open spec fn instantiate_attributes(sender: Seq<char>) -> Seq<AttributeV> {
    seq![
        AttributeV { key: "method"@, value: AttributeValueV::Text("instantiate"@) },
        AttributeV { key: "owner"@, value: AttributeValueV::Text(sender) },
    ]
}

/// What instantiation returns: the commission must lie in 0..=100, and the
/// sender becomes the owner of the recorded state.
pub open spec fn instantiate_outcome(sender: Seq<char>, comission: i16) -> Result<
    (StateV, ResponseV),
    ContractErrorV,
> {
    if comission < 0 || comission > 100 {
        Err(ContractErrorV::InvalidCommission { comission })
    } else {
        Ok(
            (
                StateV { owner: sender, comission },
                ResponseV { messages: Seq::empty(), attributes: instantiate_attributes(sender) },
            ),
        )
    }
}

/// The ghost model of instantiation's result.
pub open spec fn instantiate_result_view(r: Result<(State, Response), ContractError>) -> Result<
    (StateV, ResponseV),
    ContractErrorV,
> {
    match r {
        Ok((state, resp)) => Ok((state@, resp@)),
        Err(e) => Err(e@),
    }
}

/// Create the configuration record; the caller persists it.
pub fn instantiate(sender: String, msg: InstantiateMsg) -> (r: Result<
    (State, Response),
    ContractError,
>)
    ensures
        instantiate_result_view(r) == instantiate_outcome(sender@, msg.comission),
{
    if msg.comission < 0 || msg.comission > 100 {
        return Err(ContractError::InvalidCommission { comission: msg.comission });
    }
    let state = State { owner: sender.clone(), comission: msg.comission };
    let mut attributes: Vec<Attribute> = Vec::new();
    attributes.push(
        Attribute { key: "method".to_owned(), value: AttributeValue::Text("instantiate".to_owned()) },
    );
    attributes.push(Attribute { key: "owner".to_owned(), value: AttributeValue::Text(sender) });
    let resp = Response { messages: Vec::new(), attributes };
    proof {
        assert(resp@.attributes =~= instantiate_attributes(state@.owner));
        assert(resp@.messages =~= Seq::<PlanMsgV>::empty());
    }
    Ok((state, resp))
}

/// Answer the configuration query from the recorded state.
pub fn query_config(state: &State) -> (r: ConfigResponse)
    ensures
        r.comission == state.comission,
{
    ConfigResponse { comission: state.comission }
}

/// The query dispatch: every query is answered from the recorded state.
pub fn query(state: &State, msg: QueryMsg) -> (r: ConfigResponse)
    ensures
        r.comission == state.comission,
{
    match msg {
        QueryMsg::Config {  } => query_config(state),
    }
}

/// A strategy with no steps always fails validation, whatever the balances
/// and the bound, and no message is emitted.
pub proof fn lemma_empty_strategy_rejected(
    contract: Seq<char>,
    sender: Seq<char>,
    minimum_receive: u128,
    snapshot: u128,
)
    ensures
        strategy_outcome(contract, sender, Seq::empty(), minimum_receive, snapshot)
            == Err::<ResponseV, ContractErrorV>(ContractErrorV::EmptySteps),
{
}

/// Every non-empty strategy of `N` steps yields a plan of exactly `N + 1`
/// messages: the steps in their given order, each as a self-addressed
/// continuation, and the finalize message in the tail position.
pub proof fn lemma_plan_shape(
    contract: Seq<char>,
    sender: Seq<char>,
    steps: Seq<StrategyStepV>,
    minimum_receive: u128,
    snapshot: u128,
)
    requires
        steps.len() > 0,
    ensures
        strategy_outcome(contract, sender, steps, minimum_receive, snapshot) is Ok,
        ({
            let msgs = strategy_outcome(
                contract,
                sender,
                steps,
                minimum_receive,
                snapshot,
            )->Ok_0.messages;
            &&& msgs.len() == steps.len() + 1
            &&& forall|i: int|
                0 <= i < steps.len() ==> msgs[i] == step_message(contract, sender, steps, i)
            &&& msgs.last() == finalize_message(
                contract,
                sender,
                steps.last().to_asset,
                snapshot,
                minimum_receive,
            )
        }),
{
}

/// Reordering the steps of a non-empty strategy changes only the composed
/// swap path: both orders are planned, the message count stays the same,
/// and the finalize message keeps the tail position.
pub proof fn lemma_reorder_keeps_shape(
    contract: Seq<char>,
    sender: Seq<char>,
    steps: Seq<StrategyStepV>,
    reordered: Seq<StrategyStepV>,
    minimum_receive: u128,
    snapshot: u128,
)
    requires
        reordered.to_multiset() == steps.to_multiset(),
        steps.len() > 0,
    ensures
        strategy_outcome(contract, sender, steps, minimum_receive, snapshot) is Ok,
        strategy_outcome(contract, sender, reordered, minimum_receive, snapshot) is Ok,
        ({
            let msgs = strategy_outcome(
                contract,
                sender,
                steps,
                minimum_receive,
                snapshot,
            )->Ok_0.messages;
            let reordered_msgs = strategy_outcome(
                contract,
                sender,
                reordered,
                minimum_receive,
                snapshot,
            )->Ok_0.messages;
            &&& reordered_msgs.len() == msgs.len()
            &&& reordered_msgs.last() == finalize_message(
                contract,
                sender,
                reordered.last().to_asset,
                snapshot,
                minimum_receive,
            )
        }),
{
    steps.to_multiset_ensures();
    reordered.to_multiset_ensures();
}

/// The internal handlers refuse every caller but the contract itself with
/// an authorization error, regardless of the payload.
pub proof fn lemma_self_authorization(
    contract: Seq<char>,
    sender: Seq<char>,
    step: StrategyStepV,
    to: Option<Seq<char>>,
    from_balance: u128,
    pair_addr: Seq<char>,
    tax: u128,
    target: AssetInfoV,
    initial_balance: u128,
    minimum_receive: u128,
    current_balance: u128,
)
    requires
        contract != sender,
    ensures
        step_outcome(contract, sender, step, to, from_balance, pair_addr, tax) == Err::<
            ResponseV,
            ContractErrorV,
        >(ContractErrorV::Unauthorized { expected: contract, caller: sender }),
        finalize_outcome(contract, sender, target, initial_balance, minimum_receive, current_balance)
            == Err::<ResponseV, ContractErrorV>(
            ContractErrorV::Unauthorized { expected: contract, caller: sender },
        ),
{
}

/// The finalize message of an accepted plan carries exactly the snapshot the
/// planner was given — the balance read before any step message was
/// dispatched, not at any later point.
pub proof fn lemma_snapshot_recorded(
    contract: Seq<char>,
    sender: Seq<char>,
    steps: Seq<StrategyStepV>,
    minimum_receive: u128,
    snapshot: u128,
)
    requires
        steps.len() > 0,
    ensures
        ({
            let msgs = strategy_outcome(
                contract,
                sender,
                steps,
                minimum_receive,
                snapshot,
            )->Ok_0.messages;
            msgs.last() matches PlanMsgV::ExecuteSelf {
                msg: ExecuteMsgV::FinalizeStrategy { initial_balance: recorded, .. },
                ..
            } && recorded == snapshot
        }),
{
}

/// Finalize succeeds exactly when the balance found now exceeds the snapshot
/// by at least the agreed minimum.
pub proof fn lemma_minimum_receive_enforced(
    contract: Seq<char>,
    target: AssetInfoV,
    initial_balance: u128,
    minimum_receive: u128,
    current_balance: u128,
)
    ensures
        finalize_outcome(contract, contract, target, initial_balance, minimum_receive, current_balance)
            is Ok <==> initial_balance <= current_balance && current_balance - initial_balance
            >= minimum_receive,
{
}

/// A balance that decreased below the snapshot is an arithmetic error, never
/// a wrapped amount.
pub proof fn lemma_underflow_guard(
    contract: Seq<char>,
    target: AssetInfoV,
    initial_balance: u128,
    minimum_receive: u128,
    current_balance: u128,
)
    requires
        current_balance < initial_balance,
    ensures
        finalize_outcome(contract, contract, target, initial_balance, minimum_receive, current_balance)
            == Err::<ResponseV, ContractErrorV>(
            ContractErrorV::Underflow { minuend: current_balance, subtrahend: initial_balance },
        ),
{
}

/// A round-trip strategy is never settled at plan-build time: it yields a
/// plan like any other non-empty strategy, ending in the same finalize
/// message — same snapshot, same bound — so the minimum-receive check runs
/// through the same snapshot/finalize mechanism as everywhere else.
pub proof fn lemma_round_trip_defers(
    contract: Seq<char>,
    sender: Seq<char>,
    steps: Seq<StrategyStepV>,
    minimum_receive: u128,
    snapshot: u128,
)
    requires
        steps.len() > 0,
        is_round_trip(steps),
    ensures
        strategy_outcome(contract, sender, steps, minimum_receive, snapshot) is Ok,
        strategy_outcome(
            contract,
            sender,
            steps,
            minimum_receive,
            snapshot,
        )->Ok_0.messages.last() == finalize_message(
            contract,
            sender,
            steps.last().to_asset,
            snapshot,
            minimum_receive,
        ),
{
}

} // verus!
