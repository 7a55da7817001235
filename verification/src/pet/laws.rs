use vstd::prelude::*;

use crate::coin::Coin;
use crate::error::Error;
use crate::pet::contract::{feed_err, feed_next, feed_ok, payment_error, FOUR_HOURS};
use crate::pet::state::{same_config, State};

verus! {

/// One feed call as the spec-level transition sees it: the caller, the
/// attached funds and the clock reading of the call.
pub struct FeedCall {
    pub sender: Seq<char>,
    pub funds: Seq<Coin>,
    pub now: u128,
}

/// The state left behind after running a sequence of feed calls from `s`.
pub open spec fn run_feeds(s: State, calls: Seq<FeedCall>) -> State
    decreases calls.len(),
{
    if calls.len() == 0 {
        s
    } else {
        run_feeds(feed_next(s, calls[0].sender, calls[0].funds, calls[0].now), calls.skip(1))
    }
}

/// Starvation is monotonic: no single feed transition ever clears
/// `starved`.
pub proof fn lemma_starved_monotone(s: State, sender: Seq<char>, funds: Seq<Coin>, now: u128)
    ensures
        s.starved ==> feed_next(s, sender, funds, now).starved,
{
}

/// The owner and the ledger binding are immutable: no feed transition
/// changes them.
pub proof fn lemma_config_immutable(s: State, sender: Seq<char>, funds: Seq<Coin>, now: u128)
    ensures
        same_config(feed_next(s, sender, funds, now), s),
{
}

/// Monotonic death: once the entity has starved, any sequence of further
/// feed calls leaves the state exactly as it is, none of them can
/// succeed, and every one of them whose payment is valid fails with
/// `EntityDead`.
pub proof fn lemma_monotonic_death(s: State, calls: Seq<FeedCall>)
    requires
        s.starved,
    ensures
        run_feeds(s, calls) == s,
        forall|c: FeedCall| !feed_ok(s, c.sender, c.funds, c.now),
        forall|c: FeedCall|
            payment_error(c.funds) is None ==> feed_err(s, c.sender, c.funds, c.now)
                == Error::EntityDead,
    decreases calls.len(),
{
    if calls.len() > 0 {
        assert(feed_next(s, calls[0].sender, calls[0].funds, calls[0].now) == s);
        lemma_monotonic_death(s, calls.skip(1));
    }
}

/// The feeding window never moves backwards while the entity lives. The
/// premise holds of every reachable state observed through a clock that
/// does not run backwards: a window is only ever set one grace period
/// ahead of some earlier clock reading.
pub proof fn lemma_window_never_decreases(s: State, sender: Seq<char>, funds: Seq<Coin>, now: u128)
    requires
        s.full_until <= now + FOUR_HOURS,
        now + FOUR_HOURS <= u128::MAX,
    ensures
        feed_next(s, sender, funds, now).full_until >= s.full_until,
{
}

/// Authorization: a caller other than the owner is rejected with
/// `Unauthorized` and the state is left unchanged, whatever the clock
/// reads. (An invalid payment or an already starved entity is reported
/// before the caller is even examined, so those inputs are excluded
/// here.)
pub proof fn lemma_unauthorized(s: State, sender: Seq<char>, funds: Seq<Coin>, now: u128)
    requires
        payment_error(funds) is None,
        !s.starved,
        sender != s.owner@,
    ensures
        !feed_ok(s, sender, funds, now),
        feed_err(s, sender, funds, now) == Error::Unauthorized,
        feed_next(s, sender, funds, now) == s,
{
}

/// Window refresh: a valid feed by the owner within the window refreshes
/// it to `now` plus the grace period; past the window it records the
/// starvation, freezes the window value, and the call fails with
/// `EntityDied`.
pub proof fn lemma_window_refresh(s: State, sender: Seq<char>, funds: Seq<Coin>, now: u128)
    requires
        payment_error(funds) is None,
        !s.starved,
        sender == s.owner@,
        now + FOUR_HOURS <= u128::MAX,
    ensures
        s.full_until >= now ==> {
            &&& feed_ok(s, sender, funds, now)
            &&& feed_next(s, sender, funds, now).full_until == now + FOUR_HOURS
            &&& !feed_next(s, sender, funds, now).starved
        },
        s.full_until < now ==> {
            &&& !feed_ok(s, sender, funds, now)
            &&& feed_err(s, sender, funds, now) == Error::EntityDied
            &&& feed_next(s, sender, funds, now).starved
            &&& feed_next(s, sender, funds, now).full_until == s.full_until
        },
{
}

} // verus!
