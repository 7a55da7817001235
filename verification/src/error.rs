use vstd::prelude::*;

verus! {

/// Caller-visible failures of the inbound calls. Every failure aborts the
/// whole call: no state mutation survives and no outbound message is
/// emitted.
#[derive(Clone, Copy, Debug, PartialEq, Eq, Structural)]
pub enum Error {
    /// The attached funds were not exactly one entry of the designated
    /// denomination.
    InvalidDenomination,
    /// The attached amount was below the minimum of one unit.
    InvalidAmount,
    /// The caller is not the owner of the entity.
    Unauthorized,
    /// The entity had already starved before this call.
    EntityDead,
    /// The feeding window had lapsed; this very call recorded the
    /// starvation and was itself rejected.
    EntityDied,
    /// A feed of zero meals.
    NoMeals,
    /// The counterpart binding was already set.
    AlreadyRegistered,
    /// The counterpart binding is not set yet.
    NotRegistered,
}

} // verus!
