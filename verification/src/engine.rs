use vstd::prelude::*;
use crate::errors::OptionError;
use crate::ledger::{Account, Movement, Principal};
use crate::terms::{CASH_DIFF, COLLATERAL_BASE, EXPIRY, PREMIUM, STRIKE};

verus! {

/// The stored state of one option instance. A value that was never stored
/// is `None`; `purchased` reads `false` until the option is bought.
#[derive(Clone, Copy, Debug, PartialEq, Eq)]
pub struct XlmCallOption {
    /// Who locked the collateral. Set once, at creation.
    pub seller: Option<Principal>,
    /// Who bought the option.
    pub buyer: Option<Principal>,
    /// Who may post the settlement price; only an oracle-settled instance has one.
    pub oracle: Option<Principal>,
    /// The ledger of the asset held as collateral.
    pub base_token: Option<Principal>,
    /// The ledger of the asset in which premium and strike are paid.
    pub quote_token: Option<Principal>,
    /// `true` from purchase to settlement.
    pub purchased: bool,
    /// The latest settlement price posted by the oracle.
    pub price: Option<i128>,
}

/// What a transition decides: the state to commit and the movements to carry
/// out first, in order.
pub struct Plan {
    pub next: XlmCallOption,
    pub movements: Seq<Movement>,
}

/// A decided transition, handed to the host: it carries the movements out
/// and, if every one succeeds, commits `next`.
#[derive(Debug, PartialEq, Eq)]
pub struct Outcome {
    pub next: XlmCallOption,
    pub movements: Vec<Movement>,
}

impl View for Outcome {
    type V = Plan;

    open spec fn view(&self) -> Plan {
        Plan { next: self.next, movements: self.movements@ }
    }
}

/// A transition's result as the contracts speak of it.
pub open spec fn decided(r: Result<Outcome, OptionError>) -> Result<Plan, OptionError> {
    match r {
        Ok(o) => Ok(o@),
        Err(e) => Err(e),
    }
}

/// The movement that takes the collateral from the seller into custody.
pub open spec fn lock_collateral(base_token: Principal, seller: Principal) -> Movement {
    Movement::TransferFrom {
        token: base_token,
        owner: seller,
        to: Account::Engine,
        amount: COLLATERAL_BASE,
    }
}

/// The movement that hands the collateral out of custody.
pub open spec fn release_collateral(base_token: Principal, to: Principal) -> Movement {
    Movement::Transfer { token: base_token, to: Account::Holder(to), amount: COLLATERAL_BASE }
}

/// The movement by which the buyer pays the seller in the quote asset.
pub open spec fn pay_seller(
    quote_token: Principal,
    buyer: Principal,
    seller: Principal,
    amount: i128,
) -> Movement {
    Movement::TransferFrom {
        token: quote_token,
        owner: buyer,
        to: Account::Holder(seller),
        amount,
    }
}

impl XlmCallOption {
    /// The state of an instance on which nothing has happened.
    pub open spec fn fresh() -> Self {
        XlmCallOption {
            seller: None,
            buyer: None,
            oracle: None,
            base_token: None,
            quote_token: None,
            purchased: false,
            price: None,
        }
    }

    /// Whether the values written at creation are all there.
    pub open spec fn created(self) -> bool {
        self.seller is Some && self.base_token is Some && self.quote_token is Some
    }

    /// Whether the stored values hang together as the transitions leave
    /// them: without a seller nothing is stored; with one, both tokens are; a
    /// purchased option has a buyer; a price was posted by an oracle.
    pub open spec fn well_formed(self) -> bool {
        &&& self.seller is None ==> self == Self::fresh()
        &&& self.seller is Some ==> self.created()
        &&& self.purchased ==> self.buyer is Some
        &&& self.price is Some ==> self.oracle is Some
    }

    /// The state after settlement: only the lifecycle flag is reset.
    pub open spec fn settled(self) -> Self {
        XlmCallOption { purchased: false, ..self }
    }

    /// Creation: refused once a seller is stored; else the parameters are
    /// stored, the lifecycle flag is cleared and the collateral is pulled from
    /// the seller. Buyer and price are not touched.
    pub open spec fn create_spec(
        self,
        seller: Principal,
        base_token: Principal,
        quote_token: Principal,
        oracle: Option<Principal>,
    ) -> Result<Plan, OptionError> {
        if self.seller is Some {
            Err(OptionError::AlreadyInitialized)
        } else {
            Ok(
                Plan {
                    next: XlmCallOption {
                        seller: Some(seller),
                        oracle,
                        base_token: Some(base_token),
                        quote_token: Some(quote_token),
                        purchased: false,
                        ..self
                    },
                    movements: seq![lock_collateral(base_token, seller)],
                },
            )
        }
    }

    /// Purchase: open while the option is unsold and the clock is before the
    /// boundary; the premium goes straight to the seller.
    pub open spec fn purchase_spec(self, buyer: Principal, now: u64) -> Result<
        Plan,
        OptionError,
    > {
        if !self.created() {
            Err(OptionError::MissingState)
        } else if self.purchased {
            Err(OptionError::AlreadyPurchased)
        } else if now >= EXPIRY {
            Err(OptionError::Expired)
        } else {
            Ok(
                Plan {
                    next: XlmCallOption { buyer: Some(buyer), purchased: true, ..self },
                    movements: seq![
                        pay_seller(self.quote_token->0, buyer, self.seller->0, PREMIUM),
                    ],
                },
            )
        }
    }

    /// Exercise: the authenticated buyer, before the boundary, pays the strike
    /// and receives the collateral.
    pub open spec fn exercise_spec(self, caller: Principal, authenticated: bool, now: u64) -> Result<
        Plan,
        OptionError,
    > {
        if !authenticated {
            Err(OptionError::Authorization)
        } else if now >= EXPIRY {
            Err(OptionError::Expired)
        } else if !self.created() {
            Err(OptionError::MissingState)
        } else if !self.purchased {
            Err(OptionError::NotPurchased)
        } else if self.buyer is None {
            Err(OptionError::MissingState)
        } else if self.buyer->0 != caller {
            Err(OptionError::WrongCaller)
        } else {
            Ok(
                Plan {
                    next: self.settled(),
                    movements: seq![
                        pay_seller(self.quote_token->0, caller, self.seller->0, STRIKE),
                        release_collateral(self.base_token->0, caller),
                    ],
                },
            )
        }
    }

    /// Expiry: once the boundary is passed the collateral returns to the
    /// seller, whether or not the option was sold.
    pub open spec fn expire_spec(self, now: u64) -> Result<Plan, OptionError> {
        if now <= EXPIRY {
            Err(OptionError::NotYetExpired)
        } else if !self.created() {
            Err(OptionError::MissingState)
        } else {
            Ok(
                Plan {
                    next: self.settled(),
                    movements: seq![release_collateral(self.base_token->0, self.seller->0)],
                },
            )
        }
    }

    /// Price posting: only the stored oracle, authenticated, may overwrite the
    /// price; no clock is consulted and nothing moves.
    pub open spec fn update_price_spec(
        self,
        caller: Principal,
        authenticated: bool,
        price: i128,
    ) -> Result<Plan, OptionError> {
        if self.oracle is None {
            Err(OptionError::MissingState)
        } else if !authenticated || self.oracle->0 != caller {
            Err(OptionError::Authorization)
        } else {
            Ok(
                Plan {
                    next: XlmCallOption { price: Some(price), ..self },
                    movements: Seq::empty(),
                },
            )
        }
    }

    /// Whether a claim settles in the money: the option was bought and the
    /// posted price is not below the strike.
    pub open spec fn in_the_money(self) -> bool {
        self.purchased && self.price is Some && self.price->0 >= STRIKE
    }

    /// Claim: once the boundary is passed, an unsold or out-of-the-money
    /// option returns the collateral to the seller; an in-the-money one moves
    /// the strike less the premium to the seller and the collateral to the
    /// buyer. A bought option without a posted price cannot be claimed.
    pub open spec fn claim_spec(self, now: u64) -> Result<Plan, OptionError> {
        if now <= EXPIRY {
            Err(OptionError::NotYetExpired)
        } else if !self.created() {
            Err(OptionError::MissingState)
        } else if self.purchased && (self.price is None || self.buyer is None) {
            Err(OptionError::MissingState)
        } else if self.in_the_money() {
            Ok(
                Plan {
                    next: self.settled(),
                    movements: seq![
                        pay_seller(
                            self.quote_token->0,
                            self.buyer->0,
                            self.seller->0,
                            CASH_DIFF,
                        ),
                        release_collateral(self.base_token->0, self.buyer->0),
                    ],
                },
            )
        } else {
            Ok(
                Plan {
                    next: self.settled(),
                    movements: seq![release_collateral(self.base_token->0, self.seller->0)],
                },
            )
        }
    }

    /// What the host's report on the movements makes of a decided transition:
    /// the next state if all were carried out, else the state as it was.
    pub open spec fn commit_spec(self, plan: Plan, movements_done: bool) -> Self {
        if movements_done {
            plan.next
        } else {
            self
        }
    }
}

/// Builds the movement that takes the collateral into custody.
fn lock(base_token: Principal, seller: Principal) -> (m: Movement)
    ensures
        m == lock_collateral(base_token, seller),
{
    Movement::TransferFrom {
        token: base_token,
        owner: seller,
        to: Account::Engine,
        amount: COLLATERAL_BASE,
    }
}

/// Builds the movement that hands the collateral out of custody.
fn release(base_token: Principal, to: Principal) -> (m: Movement)
    ensures
        m == release_collateral(base_token, to),
{
    Movement::Transfer { token: base_token, to: Account::Holder(to), amount: COLLATERAL_BASE }
}

/// Builds a payment from the buyer to the seller.
fn pay(quote_token: Principal, buyer: Principal, seller: Principal, amount: i128) -> (m: Movement)
    ensures
        m == pay_seller(quote_token, buyer, seller, amount),
{
    Movement::TransferFrom {
        token: quote_token,
        owner: buyer,
        to: Account::Holder(seller),
        amount,
    }
}

/// A settlement of one movement.
fn settle_with_one(state: &XlmCallOption, m: Movement) -> (o: Outcome)
    ensures
        o@ == (Plan { next: state.settled(), movements: seq![m] }),
{
    let mut movements: Vec<Movement> = Vec::new();
    movements.push(m);
    let o = Outcome { next: XlmCallOption { purchased: false, ..*state }, movements };
    assert(o@.movements =~= seq![m]);
    o
}

/// A settlement of two movements, in this order.
fn settle_with_two(state: &XlmCallOption, first: Movement, second: Movement) -> (o: Outcome)
    ensures
        o@ == (Plan { next: state.settled(), movements: seq![first, second] }),
{
    let mut movements: Vec<Movement> = Vec::new();
    movements.push(first);
    movements.push(second);
    let o = Outcome { next: XlmCallOption { purchased: false, ..*state }, movements };
    assert(o@.movements =~= seq![first, second]);
    o
}

impl XlmCallOption {
    /// An instance on which nothing has happened.
    pub fn new() -> (s: Self)
        ensures
            s == Self::fresh(),
    {
        XlmCallOption {
            seller: None,
            buyer: None,
            oracle: None,
            base_token: None,
            quote_token: None,
            purchased: false,
            price: None,
        }
    }

    /// Creates the option, with or without an oracle.
    fn create(
        &self,
        seller: Principal,
        base_token: Principal,
        quote_token: Principal,
        oracle: Option<Principal>,
    ) -> (r: Result<Outcome, OptionError>)
        ensures
            decided(r) == self.create_spec(seller, base_token, quote_token, oracle),
    {
        if self.seller.is_some() {
            return Err(OptionError::AlreadyInitialized);
        }
        let mut movements: Vec<Movement> = Vec::new();
        movements.push(lock(base_token, seller));
        let o = Outcome {
            next: XlmCallOption {
                seller: Some(seller),
                oracle,
                base_token: Some(base_token),
                quote_token: Some(quote_token),
                purchased: false,
                ..*self
            },
            movements,
        };
        assert(o@.movements =~= seq![lock_collateral(base_token, seller)]);
        Ok(o)
    }

    /// Offers a buyer-exercised option: `seller` locks the collateral of
    /// `xlm`; premium and strike will be paid in `usdc`.
    pub fn sell_option(&self, seller: Principal, xlm: Principal, usdc: Principal) -> (r: Result<
        Outcome,
        OptionError,
    >)
        ensures
            decided(r) == self.create_spec(seller, xlm, usdc, None),
    {
        self.create(seller, xlm, usdc, None)
    }

    /// Offers an oracle-settled option: as `sell_option`, and `oracle` is the
    /// one principal that may post the settlement price.
    pub fn init(
        &self,
        seller: Principal,
        base_token: Principal,
        quote_token: Principal,
        oracle: Principal,
    ) -> (r: Result<Outcome, OptionError>)
        ensures
            decided(r) == self.create_spec(seller, base_token, quote_token, Some(oracle)),
    {
        self.create(seller, base_token, quote_token, Some(oracle))
    }

    /// Sells the option to `buyer` at time `now`.
    pub fn purchase_option(&self, buyer: Principal, now: u64) -> (r: Result<Outcome, OptionError>)
        ensures
            decided(r) == self.purchase_spec(buyer, now),
    {
        match (self.seller, self.base_token, self.quote_token) {
            (Some(seller), Some(_), Some(quote_token)) => {
                if self.purchased {
                    Err(OptionError::AlreadyPurchased)
                } else if now >= EXPIRY {
                    Err(OptionError::Expired)
                } else {
                    let mut movements: Vec<Movement> = Vec::new();
                    movements.push(pay(quote_token, buyer, seller, PREMIUM));
                    let o = Outcome {
                        next: XlmCallOption { buyer: Some(buyer), purchased: true, ..*self },
                        movements,
                    };
                    assert(o@.movements =~= seq![pay_seller(quote_token, buyer, seller, PREMIUM)]);
                    Ok(o)
                }
            },
            _ => Err(OptionError::MissingState),
        }
    }

    /// Settles a buyer-exercised option at the buyer's call. `authenticated`
    /// says whether the host has verified that `exerciser` makes the call.
    pub fn exercise(&self, exerciser: Principal, authenticated: bool, now: u64) -> (r: Result<
        Outcome,
        OptionError,
    >)
        ensures
            decided(r) == self.exercise_spec(exerciser, authenticated, now),
    {
        if !authenticated {
            return Err(OptionError::Authorization);
        }
        if now >= EXPIRY {
            return Err(OptionError::Expired);
        }
        match (self.seller, self.base_token, self.quote_token) {
            (Some(seller), Some(base_token), Some(quote_token)) => {
                if !self.purchased {
                    return Err(OptionError::NotPurchased);
                }
                match self.buyer {
                    None => Err(OptionError::MissingState),
                    Some(buyer) => {
                        if buyer != exerciser {
                            Err(OptionError::WrongCaller)
                        } else {
                            Ok(
                                settle_with_two(
                                    self,
                                    pay(quote_token, exerciser, seller, STRIKE),
                                    release(base_token, exerciser),
                                ),
                            )
                        }
                    },
                }
            },
            _ => Err(OptionError::MissingState),
        }
    }

    /// Returns the collateral to the seller after the boundary.
    pub fn expire(&self, now: u64) -> (r: Result<Outcome, OptionError>)
        ensures
            decided(r) == self.expire_spec(now),
    {
        if now <= EXPIRY {
            return Err(OptionError::NotYetExpired);
        }
        match (self.seller, self.base_token, self.quote_token) {
            (Some(seller), Some(base_token), Some(_)) => Ok(
                settle_with_one(self, release(base_token, seller)),
            ),
            _ => Err(OptionError::MissingState),
        }
    }

    /// Records the settlement price that the oracle posts. `authenticated`
    /// says whether the host has verified that `oracle_caller` makes the call.
    pub fn update_price(&self, oracle_caller: Principal, authenticated: bool, price: i128) -> (r:
        Result<Outcome, OptionError>)
        ensures
            decided(r) == self.update_price_spec(oracle_caller, authenticated, price),
    {
        match self.oracle {
            None => Err(OptionError::MissingState),
            Some(oracle) => {
                if !authenticated || oracle != oracle_caller {
                    Err(OptionError::Authorization)
                } else {
                    let o = Outcome {
                        next: XlmCallOption { price: Some(price), ..*self },
                        movements: Vec::new(),
                    };
                    assert(o@.movements =~= Seq::<Movement>::empty());
                    Ok(o)
                }
            },
        }
    }

    /// Settles an oracle-settled option after the boundary, by the posted
    /// price. Anyone may call it.
    pub fn claim(&self, now: u64) -> (r: Result<Outcome, OptionError>)
        ensures
            decided(r) == self.claim_spec(now),
    {
        if now <= EXPIRY {
            return Err(OptionError::NotYetExpired);
        }
        match (self.seller, self.base_token, self.quote_token) {
            (Some(seller), Some(base_token), Some(quote_token)) => {
                if !self.purchased {
                    return Ok(settle_with_one(self, release(base_token, seller)));
                }
                match (self.price, self.buyer) {
                    (Some(price), Some(buyer)) => {
                        if price < STRIKE {
                            Ok(settle_with_one(self, release(base_token, seller)))
                        } else {
                            Ok(
                                settle_with_two(
                                    self,
                                    pay(quote_token, buyer, seller, CASH_DIFF),
                                    release(base_token, buyer),
                                ),
                            )
                        }
                    },
                    _ => Err(OptionError::MissingState),
                }
            },
            _ => Err(OptionError::MissingState),
        }
    }

    /// Ends a decided transition. If the host carried out every movement, the
    /// next state is stored; if the ledger rejected one, nothing is.
    pub fn commit(&mut self, outcome: &Outcome, movements_done: bool) -> (r: Result<
        (),
        OptionError,
    >)
        ensures
            *final(self) == old(self).commit_spec(outcome@, movements_done),
            movements_done ==> r is Ok,
            !movements_done ==> r == Err::<(), OptionError>(OptionError::External),
    {
        if movements_done {
            *self = outcome.next;
            Ok(())
        } else {
            Err(OptionError::External)
        }
    }
}

} // verus!
