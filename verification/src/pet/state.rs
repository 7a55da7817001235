use vstd::prelude::*;

verus! {

/// The single persisted record of the pet participant. `owner` and the
/// two ledger-binding fields are set at construction and never change;
/// `full_until` and `starved` are mutated only by the feed operation.
#[derive(Clone, Debug, PartialEq, Eq)]
pub struct State {
    pub owner: String,
    pub food_token_code_hash: String,
    pub food_token_addr: String,
    pub full_until: u128,
    pub starved: bool,
}

/// The construction-time configuration of a state: everything but the
/// feeding window and the starvation flag.
pub open spec fn same_config(a: State, b: State) -> bool {
    &&& a.owner == b.owner
    &&& a.food_token_code_hash == b.food_token_code_hash
    &&& a.food_token_addr == b.food_token_addr
}

} // verus!
