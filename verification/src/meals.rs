use vstd::prelude::*;

use crate::error::Error;
use crate::pet::contract::FOUR_HOURS;

verus! {

/// The discrete-meals pet record, a legacy shape of the lifecycle
/// participant for a smaller economy without a payment-based burn:
/// instead of a forward-looking window it remembers the time of the last
/// meal.
#[derive(Clone, Debug, PartialEq, Eq)]
pub struct MealState {
    pub owner: String,
    pub last_meal: u128,
    pub starved: bool,
}

/// Whether the last meal lies more than one grace period before `now`.
pub open spec fn meal_lapsed(s: MealState, now: u128) -> bool {
    s.last_meal + FOUR_HOURS < now
}

/// A discrete feed succeeds exactly when at least one meal is offered by
/// the owner to an entity that has neither starved nor outlived its
/// grace period.
pub open spec fn feed_meals_ok(s: MealState, sender: Seq<char>, meals: u128, now: u128) -> bool {
    &&& meals > 0
    &&& sender == s.owner@
    &&& !s.starved
    &&& !meal_lapsed(s, now)
}

/// The error of a failed discrete feed, by the order in which the checks
/// run: the meal count first, then authorization, then the terminal
/// state, and last the deadline.
pub open spec fn feed_meals_err(s: MealState, sender: Seq<char>, meals: u128, now: u128) -> Error {
    if meals == 0 {
        Error::NoMeals
    } else if sender != s.owner@ {
        Error::Unauthorized
    } else if s.starved {
        Error::EntityDead
    } else {
        Error::EntityDied
    }
}

/// The state after a discrete feed: starved forever when the grace
/// period had lapsed, untouched in every other case. In particular a
/// successful feed leaves `last_meal` as it is: this shape of the record
/// never advances its meal time, so every later call keeps measuring
/// from the same meal.
pub open spec fn feed_meals_next(s: MealState, sender: Seq<char>, meals: u128, now: u128) -> MealState {
    if meals > 0 && sender == s.owner@ && !s.starved && meal_lapsed(s, now) {
        MealState { starved: true, ..s }
    } else {
        s
    }
}

/// Creates the discrete-meals state: alive, owned by the caller, with
/// the construction time standing as the last meal.
pub fn init_meals(sender: String, now: u128) -> (s: MealState)
    ensures
        s.owner == sender,
        s.last_meal == now,
        !s.starved,
{
    MealState { owner: sender, last_meal: now, starved: false }
}

/// Answers whether the discrete-meals entity is alive. This shape of
/// the record keeps no forward-looking window, so it never definitively
/// answers "currently fed" — only that starvation has not been
/// recorded. Read-only and side-effect-free.
pub fn query_meals(state: &MealState) -> (alive: bool)
    ensures
        alive == !state.starved,
{
    !state.starved
}

/// Feeds the discrete-meals pet. No payment is involved and no message
/// is emitted; the call only checks the meal count, the caller and the
/// deadline, records starvation when the grace period has lapsed, and
/// otherwise succeeds without touching the record.
pub fn feed_meals(state: &mut MealState, sender: &String, meals: u128, now: u128) -> (r: Result<
    (),
    Error,
>)
    ensures
        *final(state) == feed_meals_next(*old(state), sender@, meals, now),
        feed_meals_ok(*old(state), sender@, meals, now) ==> r is Ok,
        !feed_meals_ok(*old(state), sender@, meals, now) ==> r == Err::<(), Error>(
            feed_meals_err(*old(state), sender@, meals, now),
        ),
{
    if meals == 0 {
        return Err(Error::NoMeals);
    }
    if !(*sender == state.owner) {
        return Err(Error::Unauthorized);
    }
    if state.starved {
        return Err(Error::EntityDead);
    }
    if now > FOUR_HOURS && state.last_meal < now - FOUR_HOURS {
        state.starved = true;
        return Err(Error::EntityDied);
    }
    Ok(())
}

} // verus!
