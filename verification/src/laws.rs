use vstd::prelude::*;
use crate::engine::{lock_collateral, pay_seller, release_collateral, Plan, XlmCallOption};
use crate::errors::OptionError;
use crate::ledger::{net_flow, net_flow_of_one, net_flow_of_two, Account, Principal};
use crate::terms::{CASH_DIFF, COLLATERAL_BASE, EXPIRY, PREMIUM};
use crate::trace::{advance, genesis, run, step, Attempt, Custody, Operation};

verus! {

/// No operation that succeeds on an instance with a seller changes the
/// seller, the two tokens or the oracle: what creation stored stays.
pub proof fn seller_is_never_overwritten(state: XlmCallOption, op: Operation, now: u64)
    requires
        state.seller is Some,
        step(state, op, now) is Ok,
    ensures
        !(op is Create),
        step(state, op, now)->Ok_0.next.seller == state.seller,
        step(state, op, now)->Ok_0.next.base_token == state.base_token,
        step(state, op, now)->Ok_0.next.quote_token == state.quote_token,
        step(state, op, now)->Ok_0.next.oracle == state.oracle,
{
}

/// While the option is purchased, no operation that succeeds changes the
/// buyer, and no second purchase succeeds.
pub proof fn buyer_is_fixed_while_purchased(state: XlmCallOption, op: Operation, now: u64)
    requires
        state.purchased,
        step(state, op, now) is Ok,
    ensures
        !(op is Purchase),
        step(state, op, now)->Ok_0.next.buyer == state.buyer,
{
}

/// After a settlement, whichever of the three ran, the option is not
/// purchased.
pub proof fn settlement_clears_purchased(state: XlmCallOption, op: Operation, now: u64)
    requires
        op.settles(),
        step(state, op, now) is Ok,
    ensures
        !step(state, op, now)->Ok_0.next.purchased,
{
}

/// A transition that succeeds on a well-formed state leaves a well-formed
/// state.
pub proof fn transition_keeps_well_formed(state: XlmCallOption, op: Operation, now: u64)
    requires
        state.well_formed(),
        step(state, op, now) is Ok,
    ensures
        step(state, op, now)->Ok_0.next.well_formed(),
{
}

/// No read fails on what the state machine guarantees. On a well-formed
/// instance that has a seller, a stored value is found missing only where an
/// instance without an oracle is asked for a price, or a purchased option is
/// claimed before any price was posted.
pub proof fn guaranteed_values_are_found(state: XlmCallOption, op: Operation, now: u64)
    requires
        state.well_formed(),
        state.seller is Some,
        step(state, op, now) == Err::<Plan, OptionError>(OptionError::MissingState),
    ensures
        (op is UpdatePrice && state.oracle is None) || (op is Claim && state.purchased
            && state.price is None),
{
}

/// What holds of the custody at every point of every trace.
pub open spec fn custody_holds(c: Custody) -> bool {
    &&& c.state.well_formed()
    &&& c.state.seller is None ==> c.engine_base == 0
    &&& c.state.seller is Some && !c.settled ==> c.engine_base == COLLATERAL_BASE
}

/// One attempt keeps what holds of the custody.
pub proof fn advance_keeps_custody(c: Custody, a: Attempt)
    requires
        custody_holds(c),
    ensures
        custody_holds(advance(c, a)),
{
    match a.op {
        Operation::Create { seller, base_token, .. } => {
            net_flow_of_one(lock_collateral(base_token, seller), base_token, Account::Engine);
        },
        Operation::Purchase { buyer } => {
            if c.state.created() {
                net_flow_of_one(
                    pay_seller(c.state.quote_token->0, buyer, c.state.seller->0, PREMIUM),
                    c.state.base_token->0,
                    Account::Engine,
                );
            }
        },
        _ => {},
    }
}

/// Collateral custody. After any trace of attempts on a fresh instance, the
/// engine's balance of the base asset is zero while no seller is stored, and
/// is exactly the collateral while a seller is stored and no settlement has
/// run.
pub proof fn collateral_custody(trace: Seq<Attempt>)
    ensures
        run(trace).state.well_formed(),
        run(trace).state.seller is None ==> run(trace).engine_base == 0,
        run(trace).state.seller is Some && !run(trace).settled ==> run(trace).engine_base
            == COLLATERAL_BASE,
    decreases trace.len(),
{
    if trace.len() == 0 {
        assert(run(trace) == genesis());
    } else {
        collateral_custody(trace.drop_last());
        advance_keeps_custody(run(trace.drop_last()), trace.last());
    }
}

/// The seller is stored at most once. At all points of a trace from the
/// first at which a seller is stored, the stored seller is the same.
pub proof fn seller_is_set_once(trace: Seq<Attempt>, earlier: int)
    requires
        0 <= earlier <= trace.len(),
        run(trace.take(earlier)).state.seller is Some,
    ensures
        run(trace).state.seller == run(trace.take(earlier)).state.seller,
    decreases trace.len(),
{
    if earlier == trace.len() {
        assert(trace.take(earlier) =~= trace);
    } else {
        let before = trace.drop_last();
        assert(before.take(earlier) =~= trace.take(earlier));
        seller_is_set_once(before, earlier);
        let c = run(before);
        let a = trace.last();
        if step(c.state, a.op, a.now) is Ok {
            seller_is_never_overwritten(c.state, a.op, a.now);
        }
    }
}

/// Quote flows of a claim. Where the base and quote assets differ, a claim
/// moves no quote asset into or out of the pair of seller and buyer taken
/// together. Out of the money or unsold, it moves none at all.
pub proof fn claim_conserves_quote(state: XlmCallOption, now: u64)
    requires
        state.claim_spec(now) is Ok,
        state.base_token != state.quote_token,
    ensures
        ({
            let moved = state.claim_spec(now)->Ok_0.movements;
            let quote = state.quote_token->0;
            let seller = Account::Holder(state.seller->0);
            &&& !state.in_the_money() ==> net_flow(moved, quote, seller) == 0
            &&& !state.in_the_money() ==> forall|who: Account| net_flow(moved, quote, who) == 0
            &&& state.in_the_money() ==> net_flow(moved, quote, seller) + net_flow(
                moved,
                quote,
                Account::Holder(state.buyer->0),
            ) == 0
        }),
{
    let quote = state.quote_token->0;
    let base = state.base_token->0;
    let seller = state.seller->0;
    if state.in_the_money() {
        let buyer = state.buyer->0;
        net_flow_of_two(
            pay_seller(quote, buyer, seller, CASH_DIFF),
            release_collateral(base, buyer),
            quote,
            Account::Holder(seller),
        );
        net_flow_of_two(
            pay_seller(quote, buyer, seller, CASH_DIFF),
            release_collateral(base, buyer),
            quote,
            Account::Holder(buyer),
        );
    } else {
        assert forall|who: Account|
            net_flow(state.claim_spec(now)->Ok_0.movements, quote, who) == 0 by {
            net_flow_of_one(release_collateral(base, seller), quote, who);
        }
    }
}

/// The cash leg of a claim in the money. Where the base and quote assets
/// differ and seller and buyer are two principals, the seller's quote
/// balance rises by the strike less the premium and the buyer's falls by the
/// same.
pub proof fn claim_in_the_money_pays_cash_diff(state: XlmCallOption, now: u64)
    requires
        state.claim_spec(now) is Ok,
        state.in_the_money(),
        state.base_token != state.quote_token,
        state.seller != state.buyer,
    ensures
        net_flow(
            state.claim_spec(now)->Ok_0.movements,
            state.quote_token->0,
            Account::Holder(state.seller->0),
        ) == CASH_DIFF,
        net_flow(
            state.claim_spec(now)->Ok_0.movements,
            state.quote_token->0,
            Account::Holder(state.buyer->0),
        ) == -CASH_DIFF,
{
    let quote = state.quote_token->0;
    let base = state.base_token->0;
    let seller = state.seller->0;
    let buyer = state.buyer->0;
    net_flow_of_two(
        pay_seller(quote, buyer, seller, CASH_DIFF),
        release_collateral(base, buyer),
        quote,
        Account::Holder(seller),
    );
    net_flow_of_two(
        pay_seller(quote, buyer, seller, CASH_DIFF),
        release_collateral(base, buyer),
        quote,
        Account::Holder(buyer),
    );
}

/// A completed settlement leaves the custody with an option that is not
/// purchased, and marks it settled.
pub proof fn completed_settlement_clears_purchased(c: Custody, a: Attempt)
    requires
        a.op.settles(),
        a.movements_done,
        step(c.state, a.op, a.now) is Ok,
    ensures
        !advance(c, a).state.purchased,
        advance(c, a).settled,
{
    settlement_clears_purchased(c.state, a.op, a.now);
}

/// An attempt that the engine refused, or whose movements the ledgers
/// rejected, leaves the custody as it was.
pub proof fn failed_attempt_changes_nothing(c: Custody, a: Attempt)
    requires
        step(c.state, a.op, a.now) is Err || !a.movements_done,
    ensures
        advance(c, a) == c,
{
}

/// The buyer over a trace. If the option is purchased at every point of a
/// trace from an earlier one on, the buyer at the end is the buyer at that
/// earlier point.
pub proof fn buyer_is_fixed_over_a_trace(trace: Seq<Attempt>, earlier: int)
    requires
        0 <= earlier <= trace.len(),
        forall|k: int| earlier <= k <= trace.len() ==> (#[trigger] run(trace.take(k))).state.purchased,
    ensures
        run(trace).state.buyer == run(trace.take(earlier)).state.buyer,
    decreases trace.len(),
{
    if earlier == trace.len() {
        assert(trace.take(earlier) =~= trace);
    } else {
        let before = trace.drop_last();
        assert(before.take(earlier) =~= trace.take(earlier));
        assert forall|k: int| earlier <= k <= before.len() implies (#[trigger] run(
            before.take(k),
        )).state.purchased by {
            assert(before.take(k) =~= trace.take(k));
        }
        buyer_is_fixed_over_a_trace(before, earlier);
        assert(before.take(before.len() as int) =~= before);
        let c = run(before);
        let a = trace.last();
        if step(c.state, a.op, a.now) is Ok {
            buyer_is_fixed_while_purchased(c.state, a.op, a.now);
        }
    }
}

/// The boundary is the only branch on the clock. From the boundary on,
/// nothing can be bought or exercised; up to and including it, nothing can
/// expire or be claimed; posting a price never looks at the clock.
pub proof fn boundary_parts_the_operations(state: XlmCallOption, op: Operation, now: u64)
    ensures
        now >= EXPIRY && (op is Purchase || op is Exercise) ==> step(state, op, now) is Err,
        now <= EXPIRY && (op is Expire || op is Claim) ==> step(state, op, now) is Err,
        op is Create || op is UpdatePrice ==> step(state, op, now) == step(state, op, 0),
{
}

/// The engine never orders an empty movement: every amount is positive.
pub proof fn ordered_amounts_are_positive(state: XlmCallOption, op: Operation, now: u64, i: int)
    requires
        step(state, op, now) is Ok,
        0 <= i < step(state, op, now)->Ok_0.movements.len(),
    ensures
        step(state, op, now)->Ok_0.movements[i].amount() > 0,
{
}

/// Conservation. A transition that succeeds creates and destroys nothing:
/// in every token, what the engine, the seller and the buyer hold between
/// them is the same after its movements as before. (Seller and buyer are
/// taken to be two principals; one who is both would be counted twice.)
pub proof fn transition_conserves_assets(
    state: XlmCallOption,
    op: Operation,
    now: u64,
    token: Principal,
)
    requires
        step(state, op, now) is Ok,
        step(state, op, now)->Ok_0.next.seller != step(state, op, now)->Ok_0.next.buyer,
    ensures
        ({
            let plan = step(state, op, now)->Ok_0;
            let with_seller = net_flow(plan.movements, token, Account::Engine) + net_flow(
                plan.movements,
                token,
                Account::Holder(plan.next.seller->0),
            );
            &&& plan.next.buyer is Some ==> with_seller + net_flow(
                plan.movements,
                token,
                Account::Holder(plan.next.buyer->0),
            ) == 0
            &&& plan.next.buyer is None ==> with_seller == 0
        }),
{
    let plan = step(state, op, now)->Ok_0;
    let engine = Account::Engine;
    let seller = Account::Holder(plan.next.seller->0);
    let buyer = Account::Holder(plan.next.buyer->0);
    if plan.movements.len() == 1 {
        assert(plan.movements =~= seq![plan.movements[0]]);
        net_flow_of_one(plan.movements[0], token, engine);
        net_flow_of_one(plan.movements[0], token, seller);
        net_flow_of_one(plan.movements[0], token, buyer);
    } else if plan.movements.len() == 2 {
        assert(plan.movements =~= seq![plan.movements[0], plan.movements[1]]);
        net_flow_of_two(plan.movements[0], plan.movements[1], token, engine);
        net_flow_of_two(plan.movements[0], plan.movements[1], token, seller);
        net_flow_of_two(plan.movements[0], plan.movements[1], token, buyer);
    }
}

} // verus!
