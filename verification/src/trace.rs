use vstd::prelude::*;
use crate::engine::{decided, Outcome, Plan, XlmCallOption};
use crate::errors::OptionError;
use crate::ledger::{net_flow, Account, Principal};

verus! {

/// One call on the invocation surface, with its arguments.
#[derive(Clone, Copy, Debug, PartialEq, Eq)]
pub enum Operation {
    /// Offer the option; with an oracle it is oracle-settled.
    Create {
        seller: Principal,
        base_token: Principal,
        quote_token: Principal,
        oracle: Option<Principal>,
    },
    /// Buy the option.
    Purchase { buyer: Principal },
    /// Pay the strike for the collateral.
    Exercise { caller: Principal, authenticated: bool },
    /// Return the collateral to the seller.
    Expire,
    /// Post the settlement price.
    UpdatePrice { caller: Principal, authenticated: bool, price: i128 },
    /// Settle by the posted price.
    Claim,
}

impl Operation {
    /// Whether the operation is one of the three that settle the option.
    pub open spec fn settles(self) -> bool {
        self is Exercise || self is Expire || self is Claim
    }
}

/// What the engine decides when `op` is called on `state` at time `now`.
pub open spec fn step(state: XlmCallOption, op: Operation, now: u64) -> Result<Plan, OptionError> {
    match op {
        Operation::Create { seller, base_token, quote_token, oracle } => state.create_spec(
            seller,
            base_token,
            quote_token,
            oracle,
        ),
        Operation::Purchase { buyer } => state.purchase_spec(buyer, now),
        Operation::Exercise { caller, authenticated } => state.exercise_spec(
            caller,
            authenticated,
            now,
        ),
        Operation::Expire => state.expire_spec(now),
        Operation::UpdatePrice { caller, authenticated, price } => state.update_price_spec(
            caller,
            authenticated,
            price,
        ),
        Operation::Claim => state.claim_spec(now),
    }
}

/// Decides one operation: the single entry point behind the invocation
/// surface.
pub fn apply(state: &XlmCallOption, op: Operation, now: u64) -> (r: Result<Outcome, OptionError>)
    ensures
        decided(r) == step(*state, op, now),
{
    match op {
        Operation::Create { seller, base_token, quote_token, oracle } => match oracle {
            None => state.sell_option(seller, base_token, quote_token),
            Some(o) => state.init(seller, base_token, quote_token, o),
        },
        Operation::Purchase { buyer } => state.purchase_option(buyer, now),
        Operation::Exercise { caller, authenticated } => state.exercise(caller, authenticated, now),
        Operation::Expire => state.expire(now),
        Operation::UpdatePrice { caller, authenticated, price } => state.update_price(
            caller,
            authenticated,
            price,
        ),
        Operation::Claim => state.claim(now),
    }
}

/// One call as the host saw it end: the operation, the clock, and whether the
/// token ledgers carried out every movement that the engine ordered.
pub struct Attempt {
    pub op: Operation,
    pub now: u64,
    pub movements_done: bool,
}

/// An instance together with what its history has made of the engine's
/// custody: the engine's balance of the base asset and whether a settlement
/// has run. Only the movements that the engine orders change that balance.
pub struct Custody {
    pub state: XlmCallOption,
    pub engine_base: int,
    pub settled: bool,
}

/// The custody before anything has happened: a fresh instance and an engine
/// that holds nothing.
pub open spec fn genesis() -> Custody {
    Custody { state: XlmCallOption::fresh(), engine_base: 0, settled: false }
}

/// The custody after one attempt. A refused operation, or one whose
/// movements the ledgers rejected, changes nothing; a completed one commits
/// the next state and moves the engine's base balance by the net flow of its
/// movements.
pub open spec fn advance(c: Custody, a: Attempt) -> Custody {
    match step(c.state, a.op, a.now) {
        Ok(plan) => Custody {
            state: c.state.commit_spec(plan, a.movements_done),
            engine_base: if a.movements_done && plan.next.base_token is Some {
                c.engine_base + net_flow(plan.movements, plan.next.base_token->0, Account::Engine)
            } else {
                c.engine_base
            },
            settled: c.settled || (a.movements_done && a.op.settles()),
        },
        Err(_) => c,
    }
}

/// The custody after a whole trace of attempts, from the beginning.
pub open spec fn run(trace: Seq<Attempt>) -> Custody
    decreases trace.len(),
{
    if trace.len() == 0 {
        genesis()
    } else {
        advance(run(trace.drop_last()), trace.last())
    }
}

} // verus!
