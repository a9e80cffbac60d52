use sorocall::engine::XlmCallOption;
use sorocall::ledger::Principal;
use sorocall::terms::EXPIRY;

fn account(n: u128) -> Principal {
    Principal { contract: false, hi: 0, lo: n }
}

fn token(n: u128) -> Principal {
    Principal { contract: true, hi: 0, lo: n }
}

fn setup() -> (XlmCallOption, Principal, Principal, Principal, Principal) {
    let seller = account(1);
    let buyer = account(2);
    let usdc_id = token(10);
    let xlm_id = token(11);
    let mut client = XlmCallOption::new();
    let offered = client.sell_option(seller, xlm_id, usdc_id).unwrap();
    client.commit(&offered, true).unwrap();
    (client, seller, buyer, usdc_id, xlm_id)
}

fn purchase_option(client: &mut XlmCallOption, buyer: Principal, now: u64) {
    let sold = client.purchase_option(buyer, now).unwrap();
    client.commit(&sold, true).unwrap();
}

fn exercise(client: &mut XlmCallOption, exerciser: Principal, now: u64) {
    let settled = client.exercise(exerciser, true, now).unwrap();
    client.commit(&settled, true).unwrap();
}

#[test]
fn test_init() {
    let (client, seller, _buyer, usdc_id, xlm_id) = setup();
    assert_eq!(client.seller, Some(seller), "seller");
    assert_eq!(client.quote_token, Some(usdc_id), "usdc");
    assert_eq!(client.base_token, Some(xlm_id), "xlm");
}

#[test]
fn test_purchase_option() {
    let (mut client, _seller, buyer, _usdc_id, _xlm_id) = setup();
    purchase_option(&mut client, buyer, 0);
    assert_eq!(client.purchased, true, "purchased");
}

#[test]
#[should_panic]
fn test_double_purchase() {
    let (mut client, _seller, buyer, _usdc_id, _xlm_id) = setup();
    purchase_option(&mut client, buyer, 0);
    purchase_option(&mut client, buyer, 0);
}

#[test]
fn test_exercise() {
    let (mut client, _seller, buyer, _usdc_id, _xlm_id) = setup();
    purchase_option(&mut client, buyer, 0);
    exercise(&mut client, buyer, EXPIRY - 1);
    assert_eq!(client.purchased, false, "purchased");
}

#[test]
#[should_panic]
fn test_double_exercise() {
    let (mut client, _seller, buyer, _usdc_id, _xlm_id) = setup();
    purchase_option(&mut client, buyer, 0);
    exercise(&mut client, buyer, 0);
    exercise(&mut client, buyer, 0);
}

#[test]
fn test_expire() {
    let (mut client, _seller, buyer, _usdc_id, _xlm_id) = setup();
    purchase_option(&mut client, buyer, 0);
    let settled = client.expire(EXPIRY + 1).unwrap();
    client.commit(&settled, true).unwrap();
    assert_eq!(client.purchased, false, "purchased");
}
