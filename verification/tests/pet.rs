use pet_economy::coin::Coin;
use pet_economy::error::Error;
use pet_economy::pet::contract::{handle, init, query, query_all, try_feed, FOUR_HOURS};
use pet_economy::pet::msg::{FoodHandleMsg, HandleMsg, InitMsg, QueryMsg};

fn pet_init_msg() -> InitMsg {
    InitMsg {
        food_token_code_hash: "food-hash".to_owned(),
        food_token_addr: "food-token".to_owned(),
    }
}

fn food(amount: u128) -> Vec<Coin> {
    vec![Coin { denom: "FOOD".to_owned(), amount }]
}

const T0: u128 = 1_600_000_000_000;
const ONE_HOUR: u128 = 60 * 60 * 1000;

#[test]
fn init_starts_alive_with_full_window() {
    let s = init("owner".to_owned(), pet_init_msg(), T0);
    assert!(!s.starved);
    assert_eq!(s.owner, "owner");
    assert_eq!(s.full_until, T0 + FOUR_HOURS);
    assert_eq!(s.food_token_addr, "food-token");
    assert_eq!(s.food_token_code_hash, "food-hash");
}

#[test]
fn feed_lifecycle_scenario() {
    let owner = "O".to_owned();
    let mut s = init(owner.clone(), pet_init_msg(), T0);
    assert_eq!(s.full_until, T0 + FOUR_HOURS);

    // At T0 + 3h the window still stands: the feed succeeds, the window
    // is refreshed to T0 + 7h, and exactly one burn of the payment
    // amount is emitted.
    let r = try_feed(&mut s, &owner, &food(5), T0 + 3 * ONE_HOUR);
    let msgs = r.expect("feed within the window must succeed");
    assert_eq!(msgs.len(), 1);
    assert_eq!(msgs[0].dest_addr, "food-token");
    assert_eq!(msgs[0].dest_code_hash, "food-hash");
    match &msgs[0].msg {
        FoodHandleMsg::BurnFrom {
            owner: burned,
            amount,
            padding,
        } => {
            assert_eq!(burned, "O");
            assert_eq!(*amount, 5);
            assert!(padding.is_none());
        }
    }
    assert_eq!(s.full_until, T0 + 7 * ONE_HOUR);
    assert!(!s.starved);

    // At T0 + 8h the window (T0 + 7h) has lapsed: the feed is rejected
    // with EntityDied, starvation is recorded, nothing is emitted.
    let r = try_feed(&mut s, &owner, &food(5), T0 + 8 * ONE_HOUR);
    assert_eq!(r, Err(Error::EntityDied));
    assert!(s.starved);
    assert_eq!(s.full_until, T0 + 7 * ONE_HOUR);

    // Every further feed fails with EntityDead and mutates nothing.
    let before = s.clone();
    let r = try_feed(&mut s, &owner, &food(5), T0 + 9 * ONE_HOUR);
    assert_eq!(r, Err(Error::EntityDead));
    assert_eq!(s, before);
}

#[test]
fn feed_exactly_at_window_end_succeeds() {
    let owner = "O".to_owned();
    let mut s = init(owner.clone(), pet_init_msg(), T0);
    let r = try_feed(&mut s, &owner, &food(1), T0 + FOUR_HOURS);
    assert!(r.is_ok());
    assert_eq!(s.full_until, T0 + FOUR_HOURS + FOUR_HOURS);
}

#[test]
fn feed_rejects_non_owner_and_leaves_state_unchanged() {
    let owner = "O".to_owned();
    let stranger = "S".to_owned();
    let mut s = init(owner, pet_init_msg(), T0);
    let before = s.clone();
    let r = try_feed(&mut s, &stranger, &food(5), T0 + ONE_HOUR);
    assert_eq!(r, Err(Error::Unauthorized));
    assert_eq!(s, before);
    // The same holds long after the window lapsed: authorization is
    // checked before the deadline.
    let r = try_feed(&mut s, &stranger, &food(5), T0 + 100 * ONE_HOUR);
    assert_eq!(r, Err(Error::Unauthorized));
    assert_eq!(s, before);
}

#[test]
fn feed_rejects_missing_funds() {
    let owner = "O".to_owned();
    let mut s = init(owner.clone(), pet_init_msg(), T0);
    let r = try_feed(&mut s, &owner, &vec![], T0 + ONE_HOUR);
    assert_eq!(r, Err(Error::InvalidDenomination));
}

#[test]
fn feed_rejects_multiple_fund_entries() {
    let owner = "O".to_owned();
    let mut s = init(owner.clone(), pet_init_msg(), T0);
    let funds = vec![
        Coin {
            denom: "FOOD".to_owned(),
            amount: 1,
        },
        Coin {
            denom: "FOOD".to_owned(),
            amount: 1,
        },
    ];
    let r = try_feed(&mut s, &owner, &funds, T0 + ONE_HOUR);
    assert_eq!(r, Err(Error::InvalidDenomination));
}

#[test]
fn feed_rejects_wrong_denomination() {
    let owner = "O".to_owned();
    let mut s = init(owner.clone(), pet_init_msg(), T0);
    let funds = vec![Coin {
        denom: "SCRT".to_owned(),
        amount: 5,
    }];
    let r = try_feed(&mut s, &owner, &funds, T0 + ONE_HOUR);
    assert_eq!(r, Err(Error::InvalidDenomination));
}

#[test]
fn feed_rejects_zero_amount() {
    let owner = "O".to_owned();
    let mut s = init(owner.clone(), pet_init_msg(), T0);
    let r = try_feed(&mut s, &owner, &food(0), T0 + ONE_HOUR);
    assert_eq!(r, Err(Error::InvalidAmount));
}

#[test]
fn invalid_payment_is_reported_before_authorization() {
    let owner = "O".to_owned();
    let stranger = "S".to_owned();
    let mut s = init(owner, pet_init_msg(), T0);
    let r = try_feed(&mut s, &stranger, &food(0), T0 + ONE_HOUR);
    assert_eq!(r, Err(Error::InvalidAmount));
}

#[test]
fn handle_dispatches_feed() {
    let owner = "O".to_owned();
    let mut s = init(owner.clone(), pet_init_msg(), T0);
    let r = handle(&mut s, &owner, &food(2), T0 + ONE_HOUR, HandleMsg::Feed {});
    let msgs = r.expect("dispatched feed must succeed");
    assert_eq!(msgs.len(), 1);
    assert_eq!(s.full_until, T0 + ONE_HOUR + FOUR_HOURS);
}

#[test]
fn query_reports_alive_within_window_only() {
    let owner = "O".to_owned();
    let s = init(owner, pet_init_msg(), T0);
    assert!(query_all(&s, T0 + ONE_HOUR).is_alive);
    // The window bound is strict: exactly at full_until the entity no
    // longer counts as alive.
    assert!(!query_all(&s, T0 + FOUR_HOURS).is_alive);
    assert!(!query_all(&s, T0 + 5 * ONE_HOUR).is_alive);
    assert!(query(&s, T0 + ONE_HOUR, QueryMsg::Query {}).is_alive);
}

#[test]
fn query_reports_dead_once_starved() {
    let owner = "O".to_owned();
    let mut s = init(owner.clone(), pet_init_msg(), T0);
    let r = try_feed(&mut s, &owner, &food(1), T0 + 5 * ONE_HOUR);
    assert_eq!(r, Err(Error::EntityDied));
    assert!(!query_all(&s, T0).is_alive);
}
