use vstd::prelude::*;

verus! {

/// Identity of a participant or of a token ledger: the 32-byte key of an
/// account or the 32-byte identifier of a contract, held as two halves.
#[derive(Clone, Copy, Debug, PartialEq, Eq, Structural)]
pub struct Principal {
    /// `true` for a contract, `false` for an account.
    pub contract: bool,
    /// The first sixteen bytes, big-endian.
    pub hi: u128,
    /// The last sixteen bytes, big-endian.
    pub lo: u128,
}

/// A balance that a movement can debit or credit: the engine's own, or that
/// of a participant. The host puts its own address for `Engine`; a `Holder`
/// is taken to be someone other than the engine.
#[derive(Clone, Copy, Debug, PartialEq, Eq, Structural)]
pub enum Account {
    /// The engine itself, which holds the collateral in custody.
    Engine,
    /// A participant outside the engine.
    Holder(Principal),
}

/// One instruction for the token adapter. The engine emits these in the order
/// in which they are to be carried out; all of one transition succeed or none.
#[derive(Clone, Copy, Debug, PartialEq, Eq, Structural)]
pub enum Movement {
    /// The engine pays `amount` of `token` from its own balance.
    Transfer { token: Principal, to: Account, amount: i128 },
    /// The engine, as spender, moves `amount` of `token` from `owner`, who has
    /// granted it an allowance.
    TransferFrom { token: Principal, owner: Principal, to: Account, amount: i128 },
}

impl Movement {
    /// The ledger on which the movement takes place.
    pub open spec fn token(self) -> Principal {
        match self {
            Movement::Transfer { token, .. } => token,
            Movement::TransferFrom { token, .. } => token,
        }
    }

    /// The balance that is debited.
    pub open spec fn source(self) -> Account {
        match self {
            Movement::Transfer { .. } => Account::Engine,
            Movement::TransferFrom { owner, .. } => Account::Holder(owner),
        }
    }

    /// The balance that is credited.
    pub open spec fn destination(self) -> Account {
        match self {
            Movement::Transfer { to, .. } => to,
            Movement::TransferFrom { to, .. } => to,
        }
    }

    /// The number of minor units moved.
    pub open spec fn amount(self) -> int {
        match self {
            Movement::Transfer { amount, .. } => amount as int,
            Movement::TransferFrom { amount, .. } => amount as int,
        }
    }

    /// By how much the movement changes `account`'s balance of `token`.
    pub open spec fn effect_on(self, token: Principal, account: Account) -> int {
        if self.token() != token {
            0
        } else {
            (if self.destination() == account { self.amount() } else { 0 })
                - (if self.source() == account { self.amount() } else { 0 })
        }
    }
}

/// By how much a list of movements, all carried out, changes `account`'s
/// balance of `token`.
pub open spec fn net_flow(movements: Seq<Movement>, token: Principal, account: Account) -> int
    decreases movements.len(),
{
    if movements.len() == 0 {
        0
    } else {
        net_flow(movements.drop_last(), token, account)
            + movements.last().effect_on(token, account)
    }
}

/// A single movement changes a balance by its own effect.
pub proof fn net_flow_of_one(m: Movement, token: Principal, account: Account)
    ensures
        net_flow(seq![m], token, account) == m.effect_on(token, account),
{
    let s = seq![m];
    assert(s.drop_last() =~= Seq::<Movement>::empty());
    assert(s.last() == m);
    reveal_with_fuel(net_flow, 2);
}

/// Two movements change a balance by the sum of their effects.
pub proof fn net_flow_of_two(a: Movement, b: Movement, token: Principal, account: Account)
    ensures
        net_flow(seq![a, b], token, account) == a.effect_on(token, account) + b.effect_on(
            token,
            account,
        ),
{
    let s = seq![a, b];
    assert(s.drop_last() =~= seq![a]);
    assert(s.last() == b);
    net_flow_of_one(a, token, account);
}

/// Whether the balance change stays within the machine's range after each
/// movement of the list in turn.
pub open spec fn flows_fit(movements: Seq<Movement>, token: Principal, account: Account) -> bool {
    forall|k: int|
        0 <= k <= movements.len() ==> i128::MIN <= #[trigger] net_flow(
            movements.take(k),
            token,
            account,
        ) <= i128::MAX
}

impl Movement {
    /// By how much the movement changes `account`'s balance of `token`, added
    /// to `balance`; `None` where the sum leaves the machine's range.
    pub fn apply_to(&self, balance: i128, token: Principal, account: Account) -> (r: Option<i128>)
        ensures
            r is Some <==> i128::MIN <= balance + self.effect_on(token, account) <= i128::MAX,
            r matches Some(v) ==> v == balance + self.effect_on(token, account),
    {
        let (on, credited, debited, amount) = match *self {
            Movement::Transfer { token: t, to, amount } => (
                t == token,
                to == account,
                account == Account::Engine,
                amount,
            ),
            Movement::TransferFrom { token: t, owner, to, amount } => (
                t == token,
                to == account,
                account == Account::Holder(owner),
                amount,
            ),
        };
        if !on || credited == debited {
            Some(balance)
        } else if credited {
            balance.checked_add(amount)
        } else {
            balance.checked_sub(amount)
        }
    }
}

/// By how much the movements, all carried out in order, change `account`'s
/// balance of `token`; `None` where the running change leaves the machine's
/// range on the way.
pub fn net_change(movements: &Vec<Movement>, token: Principal, account: Account) -> (r: Option<
    i128,
>)
    ensures
        r is Some <==> flows_fit(movements@, token, account),
        r matches Some(v) ==> v == net_flow(movements@, token, account),
{
    let mut total: i128 = 0;
    let mut i: usize = 0;
    assert(movements@.take(0) =~= Seq::<Movement>::empty());
    while i < movements.len()
        invariant
            0 <= i <= movements.len(),
            total == net_flow(movements@.take(i as int), token, account),
            forall|k: int|
                0 <= k <= i ==> i128::MIN <= #[trigger] net_flow(
                    movements@.take(k),
                    token,
                    account,
                ) <= i128::MAX,
        decreases movements.len() - i,
    {
        proof {
            let upto = movements@.take(i + 1);
            assert(upto.drop_last() =~= movements@.take(i as int));
            assert(upto.last() == movements@[i as int]);
        }
        match movements[i].apply_to(total, token, account) {
            None => {
                assert(!(i128::MIN <= net_flow(movements@.take(i + 1), token, account)
                    <= i128::MAX));
                return None;
            },
            Some(v) => {
                total = v;
            },
        }
        i = i + 1;
    }
    assert(movements@.take(movements@.len() as int) =~= movements@);
    Some(total)
}

} // verus!
