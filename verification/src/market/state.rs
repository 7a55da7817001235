use vstd::prelude::*;

verus! {

/// The single persisted record of the exchange participant: the binding
/// of the food token ledger, set once at construction and immutable
/// thereafter.
#[derive(Clone, Debug, PartialEq, Eq)]
pub struct State {
    pub food_token_code_hash: String,
    pub food_token_addr: String,
}

} // verus!
