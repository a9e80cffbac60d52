use sorocall::engine::{Outcome, XlmCallOption};
use sorocall::errors::OptionError;
use sorocall::ledger::{net_change, Account, Movement, Principal};
use sorocall::terms::{CASH_DIFF, COLLATERAL_BASE, EXPIRY, PREMIUM, STRIKE};

const S: Principal = Principal { contract: false, hi: 7, lo: 1 };
const B: Principal = Principal { contract: false, hi: 7, lo: 2 };
const B2: Principal = Principal { contract: false, hi: 7, lo: 3 };
const O: Principal = Principal { contract: false, hi: 7, lo: 4 };
const X: Principal = Principal { contract: true, hi: 9, lo: 1 };
const U: Principal = Principal { contract: true, hi: 9, lo: 2 };

/// Commits a decided transition as a host does after carrying out its
/// movements, and adds them to the history.
fn carry(state: &mut XlmCallOption, history: &mut Vec<Movement>, outcome: Outcome) {
    state.commit(&outcome, true).unwrap();
    history.extend(outcome.movements.iter().copied());
}

fn change(history: &Vec<Movement>, token: Principal, who: Principal) -> i128 {
    net_change(history, token, Account::Holder(who)).unwrap()
}

fn engine_change(history: &Vec<Movement>, token: Principal) -> i128 {
    net_change(history, token, Account::Engine).unwrap()
}

fn oracle_settled_and_bought(history: &mut Vec<Movement>) -> XlmCallOption {
    let mut option = XlmCallOption::new();
    let offered = option.init(S, X, U, O).unwrap();
    carry(&mut option, history, offered);
    let sold = option.purchase_option(B, EXPIRY - 1000).unwrap();
    carry(&mut option, history, sold);
    option
}

#[test]
fn create_then_expire_restores_the_seller() {
    let mut history = Vec::new();
    let mut option = XlmCallOption::new();
    let offered = option.sell_option(S, X, U).unwrap();
    assert_eq!(
        offered.movements,
        vec![Movement::TransferFrom { token: X, owner: S, to: Account::Engine, amount: 1 }]
    );
    carry(&mut option, &mut history, offered);
    assert_eq!(change(&history, X, S), -1);
    assert_eq!(engine_change(&history, X), 1);

    let expired = option.expire(EXPIRY + 1).unwrap();
    assert_eq!(
        expired.movements,
        vec![Movement::Transfer { token: X, to: Account::Holder(S), amount: 1 }]
    );
    carry(&mut option, &mut history, expired);
    assert_eq!(change(&history, X, S), 0);
    assert_eq!(engine_change(&history, X), 0);
    assert_eq!(change(&history, U, S), 0);
    assert_eq!(change(&history, U, B), 0);
    assert_eq!(engine_change(&history, U), 0);
    assert_eq!(option.purchased, false);
    assert_eq!(option.seller, Some(S));
}

#[test]
fn happy_exercise_pays_premium_and_strike() {
    let mut history = Vec::new();
    let mut option = XlmCallOption::new();
    let offered = option.sell_option(S, X, U).unwrap();
    carry(&mut option, &mut history, offered);

    let sold = option.purchase_option(B, EXPIRY - 1000).unwrap();
    assert_eq!(
        sold.movements,
        vec![Movement::TransferFrom { token: U, owner: B, to: Account::Holder(S), amount: 100_000 }]
    );
    carry(&mut option, &mut history, sold);
    assert_eq!(option.purchased, true);
    assert_eq!(option.buyer, Some(B));
    assert_eq!(change(&history, U, B), -100_000);

    let exercised = option.exercise(B, true, EXPIRY - 1).unwrap();
    assert_eq!(
        exercised.movements,
        vec![
            Movement::TransferFrom { token: U, owner: B, to: Account::Holder(S), amount: 500_000 },
            Movement::Transfer { token: X, to: Account::Holder(B), amount: 1 },
        ]
    );
    carry(&mut option, &mut history, exercised);
    assert_eq!(change(&history, U, B), -600_000);
    assert_eq!(change(&history, U, S), 600_000);
    assert_eq!(change(&history, X, B), 1);
    assert_eq!(change(&history, X, S), -1);
    assert_eq!(engine_change(&history, X), 0);
    assert_eq!(option.purchased, false);
}

#[test]
fn double_purchase_is_rejected() {
    let mut history = Vec::new();
    let mut option = XlmCallOption::new();
    let offered = option.sell_option(S, X, U).unwrap();
    carry(&mut option, &mut history, offered);
    let sold = option.purchase_option(B, 0).unwrap();
    carry(&mut option, &mut history, sold);
    assert_eq!(option.purchase_option(B2, 0), Err(OptionError::AlreadyPurchased));
    assert_eq!(option.purchase_option(B, 0), Err(OptionError::AlreadyPurchased));
    assert_eq!(option.buyer, Some(B));
}

#[test]
fn oracle_claim_out_of_the_money() {
    let mut history = Vec::new();
    let mut option = oracle_settled_and_bought(&mut history);
    let posted = option.update_price(O, true, 400_000).unwrap();
    assert!(posted.movements.is_empty());
    carry(&mut option, &mut history, posted);
    assert_eq!(option.price, Some(400_000));

    let claimed = option.claim(EXPIRY + 1).unwrap();
    assert_eq!(
        claimed.movements,
        vec![Movement::Transfer { token: X, to: Account::Holder(S), amount: 1 }]
    );
    assert_eq!(change(&claimed.movements, U, S) + change(&claimed.movements, U, B), 0);
    assert_eq!(change(&claimed.movements, U, S), 0);
    carry(&mut option, &mut history, claimed);
    assert_eq!(change(&history, X, S), 0);
    assert_eq!(change(&history, X, B), 0);
    assert_eq!(change(&history, U, S), 100_000);
    assert_eq!(change(&history, U, B), -100_000);
    assert_eq!(option.purchased, false);
}

#[test]
fn oracle_claim_in_the_money() {
    let mut history = Vec::new();
    let mut option = oracle_settled_and_bought(&mut history);
    let posted = option.update_price(O, true, 600_000).unwrap();
    carry(&mut option, &mut history, posted);

    let claimed = option.claim(EXPIRY + 1).unwrap();
    assert_eq!(
        claimed.movements,
        vec![
            Movement::TransferFrom { token: U, owner: B, to: Account::Holder(S), amount: 400_000 },
            Movement::Transfer { token: X, to: Account::Holder(B), amount: 1 },
        ]
    );
    assert_eq!(change(&claimed.movements, U, S), CASH_DIFF);
    assert_eq!(change(&claimed.movements, U, B), -CASH_DIFF);
    carry(&mut option, &mut history, claimed);
    assert_eq!(change(&history, U, S), 500_000);
    assert_eq!(change(&history, U, B), -500_000);
    assert_eq!(change(&history, X, S), -1);
    assert_eq!(change(&history, X, B), 1);
    assert_eq!(engine_change(&history, X), 0);
    assert_eq!(option.purchased, false);
}

#[test]
fn unauthorized_price_update_changes_nothing() {
    let mut history = Vec::new();
    let mut option = oracle_settled_and_bought(&mut history);
    let posted = option.update_price(O, true, 450_000).unwrap();
    carry(&mut option, &mut history, posted);
    let before = option;

    assert_eq!(option.update_price(B, true, 600_000), Err(OptionError::Authorization));
    assert_eq!(option.update_price(O, false, 600_000), Err(OptionError::Authorization));
    assert_eq!(option, before);
    assert_eq!(option.price, Some(450_000));
}

#[test]
fn the_last_posted_price_decides() {
    let mut history = Vec::new();
    let mut option = oracle_settled_and_bought(&mut history);
    let first = option.update_price(O, true, 900_000).unwrap();
    carry(&mut option, &mut history, first);
    let after_the_boundary = option.update_price(O, true, 499_999).unwrap();
    carry(&mut option, &mut history, after_the_boundary);
    let claimed = option.claim(EXPIRY + 5).unwrap();
    assert_eq!(
        claimed.movements,
        vec![Movement::Transfer { token: X, to: Account::Holder(S), amount: COLLATERAL_BASE }]
    );
}

#[test]
fn claim_at_the_strike_settles_in_the_money() {
    let mut history = Vec::new();
    let mut option = oracle_settled_and_bought(&mut history);
    let posted = option.update_price(O, true, STRIKE).unwrap();
    carry(&mut option, &mut history, posted);
    let claimed = option.claim(EXPIRY + 1).unwrap();
    assert_eq!(claimed.movements.len(), 2);
    assert_eq!(change(&claimed.movements, U, S), 400_000);
    assert_eq!(change(&claimed.movements, X, B), 1);
}

#[test]
fn claim_on_an_unsold_option_returns_the_collateral() {
    let mut history = Vec::new();
    let mut option = XlmCallOption::new();
    let offered = option.init(S, X, U, O).unwrap();
    carry(&mut option, &mut history, offered);
    let claimed = option.claim(EXPIRY + 1).unwrap();
    assert_eq!(
        claimed.movements,
        vec![Movement::Transfer { token: X, to: Account::Holder(S), amount: 1 }]
    );
    assert_eq!(claimed.next.purchased, false);
    assert_eq!(claimed.next.seller, Some(S));
}

#[test]
fn the_premium_goes_straight_to_the_seller() {
    let mut history = Vec::new();
    let _ = oracle_settled_and_bought(&mut history);
    assert_eq!(engine_change(&history, U), 0);
    assert_eq!(change(&history, U, S), PREMIUM);
    assert_eq!(engine_change(&history, X), COLLATERAL_BASE);
}
