use vstd::prelude::*;

use crate::coin::Coin;
use crate::envelope::Envelope;
use crate::error::Error;
use crate::pet::msg::{is_burn_from, FoodHandleMsg, HandleMsg, InitMsg, QueryMsg, QueryResponse};
use crate::pet::state::State;

verus! {

/// The grace period, in milliseconds: how long one feed keeps the entity
/// nourished.
pub const FOUR_HOURS: u128 = 4 * 60 * 60 * 1000;

/// The denomination of the food token that payments must be made in.
pub open spec fn food_denom() -> Seq<char> {
    "FOOD"@
}

/// The validation of the attached funds, in the order the checks run:
/// exactly one entry, of the food denomination, of at least one unit.
pub open spec fn payment_error(funds: Seq<Coin>) -> Option<Error> {
    if funds.len() != 1 {
        Some(Error::InvalidDenomination)
    } else if funds[0].denom@ != food_denom() {
        Some(Error::InvalidDenomination)
    } else if funds[0].amount < 1 {
        Some(Error::InvalidAmount)
    } else {
        None
    }
}

/// A feed succeeds exactly when the payment is valid, the entity has not
/// already starved, the caller is the owner, and the feeding window has
/// not lapsed.
pub open spec fn feed_ok(s: State, sender: Seq<char>, funds: Seq<Coin>, now: u128) -> bool {
    &&& payment_error(funds) is None
    &&& !s.starved
    &&& sender == s.owner@
    &&& s.full_until >= now
}

/// The error of a failed feed, determined by the order in which the
/// checks run: the payment is validated first, then the terminal state,
/// then authorization, and last the deadline.
pub open spec fn feed_err(s: State, sender: Seq<char>, funds: Seq<Coin>, now: u128) -> Error {
    match payment_error(funds) {
        Some(e) => e,
        None => if s.starved {
            Error::EntityDead
        } else if sender != s.owner@ {
            Error::Unauthorized
        } else {
            Error::EntityDied
        },
    }
}

/// The state after a feed call: untouched on rejection, starved forever
/// when the window had lapsed, refreshed to a full window otherwise.
pub open spec fn feed_next(s: State, sender: Seq<char>, funds: Seq<Coin>, now: u128) -> State {
    if payment_error(funds) is Some || s.starved || sender != s.owner@ {
        s
    } else if s.full_until < now {
        State { starved: true, ..s }
    } else {
        State { full_until: (now + FOUR_HOURS) as u128, ..s }
    }
}

/// Whether the entity is alive at the given time: not starved and still
/// within its feeding window.
pub open spec fn alive_at(s: State, now: u128) -> bool {
    !s.starved && s.full_until > now
}

/// Creates the pet state: alive, owned by the caller that constructed it,
/// and full for one grace period from now.
pub fn init(sender: String, msg: InitMsg, now: u128) -> (s: State)
    requires
        now + FOUR_HOURS <= u128::MAX,
    ensures
        s.owner == sender,
        s.food_token_code_hash == msg.food_token_code_hash,
        s.food_token_addr == msg.food_token_addr,
        s.full_until == now + FOUR_HOURS,
        !s.starved,
{
    State {
        starved: false,
        food_token_code_hash: msg.food_token_code_hash,
        food_token_addr: msg.food_token_addr,
        full_until: now + FOUR_HOURS,
        owner: sender,
    }
}

/// Feeds the pet. The whole call is one atomic step: it validates the
/// payment, the terminal state, the caller and the deadline against the
/// state it was handed, and either refreshes the window and emits exactly
/// one burn instruction for the payment amount, addressed to the bound
/// ledger, or fails without emitting anything. The first feed to arrive
/// after the window lapsed records the starvation and is itself rejected.
pub fn try_feed(state: &mut State, sender: &String, sent_funds: &Vec<Coin>, now: u128) -> (r: Result<
    Vec<Envelope<FoodHandleMsg>>,
    Error,
>)
    requires
        now + FOUR_HOURS <= u128::MAX,
    ensures
        *final(state) == feed_next(*old(state), sender@, sent_funds@, now),
        feed_ok(*old(state), sender@, sent_funds@, now) ==> (r matches Ok(msgs)
            && msgs@.len() == 1
            && is_burn_from(msgs@[0].msg, sender@, sent_funds@[0].amount)
            && msgs@[0].dest_addr == old(state).food_token_addr
            && msgs@[0].dest_code_hash == old(state).food_token_code_hash),
        !feed_ok(*old(state), sender@, sent_funds@, now) ==> (r matches Err(e) && e == feed_err(
            *old(state),
            sender@,
            sent_funds@,
            now,
        )),
{
    if sent_funds.len() != 1 {
        return Err(Error::InvalidDenomination);
    }
    let coin = &sent_funds[0];
    let expected: String = "FOOD".to_owned();
    if !(coin.denom == expected) {
        return Err(Error::InvalidDenomination);
    }
    if coin.amount < 1 {
        return Err(Error::InvalidAmount);
    }
    if state.starved {
        return Err(Error::EntityDead);
    }
    if !(*sender == state.owner) {
        return Err(Error::Unauthorized);
    }
    if state.full_until < now {
        state.starved = true;
        return Err(Error::EntityDied);
    }
    state.full_until = now + FOUR_HOURS;
    let burn = FoodHandleMsg::BurnFrom { owner: sender.clone(), amount: coin.amount, padding: None };
    Ok(vec![Envelope {
        dest_addr: state.food_token_addr.clone(),
        dest_code_hash: state.food_token_code_hash.clone(),
        msg: burn,
    }])
}

/// Dispatches an inbound state-changing call.
pub fn handle(
    state: &mut State,
    sender: &String,
    sent_funds: &Vec<Coin>,
    now: u128,
    msg: HandleMsg,
) -> (r: Result<Vec<Envelope<FoodHandleMsg>>, Error>)
    requires
        now + FOUR_HOURS <= u128::MAX,
    ensures
        *final(state) == feed_next(*old(state), sender@, sent_funds@, now),
        feed_ok(*old(state), sender@, sent_funds@, now) ==> (r matches Ok(msgs)
            && msgs@.len() == 1
            && is_burn_from(msgs@[0].msg, sender@, sent_funds@[0].amount)
            && msgs@[0].dest_addr == old(state).food_token_addr
            && msgs@[0].dest_code_hash == old(state).food_token_code_hash),
        !feed_ok(*old(state), sender@, sent_funds@, now) ==> (r matches Err(e) && e == feed_err(
            *old(state),
            sender@,
            sent_funds@,
            now,
        )),
{
    match msg {
        HandleMsg::Feed {} => try_feed(state, sender, sent_funds, now),
    }
}

/// Answers whether the entity is alive at the given time. Read-only and
/// side-effect-free.
pub fn query_all(state: &State, now: u128) -> (resp: QueryResponse)
    ensures
        resp.is_alive == alive_at(*state, now),
{
    QueryResponse { is_alive: !state.starved && state.full_until > now }
}

/// Dispatches an inbound read-only call.
pub fn query(state: &State, now: u128, msg: QueryMsg) -> (resp: QueryResponse)
    ensures
        resp.is_alive == alive_at(*state, now),
{
    match msg {
        QueryMsg::Query {} => query_all(state, now),
    }
}

} // verus!
