use vstd::prelude::*;

verus! {

/// Construction parameters of the pet: the binding of the food token
/// ledger that feeds will be burned from.
#[derive(Clone, Debug, PartialEq, Eq)]
pub struct InitMsg {
    pub food_token_code_hash: String,
    pub food_token_addr: String,
}

/// Inbound state-changing calls of the pet.
#[derive(Clone, Copy, Debug, PartialEq, Eq, Structural)]
pub enum HandleMsg {
    Feed {},
}

/// Inbound read-only calls of the pet.
#[derive(Clone, Copy, Debug, PartialEq, Eq, Structural)]
pub enum QueryMsg {
    Query {},
}

/// The read-only answer: whether the entity is currently alive.
#[derive(Clone, Copy, Debug, PartialEq, Eq, Structural)]
pub struct QueryResponse {
    pub is_alive: bool,
}

/// Outbound instructions understood by the food token ledger.
#[derive(Clone, Debug, PartialEq, Eq)]
pub enum FoodHandleMsg {
    BurnFrom { owner: String, amount: u128, padding: Option<String> },
}

/// `m` instructs the ledger to burn `amount` tokens from `owner`.
pub open spec fn is_burn_from(m: FoodHandleMsg, owner: Seq<char>, amount: u128) -> bool {
    &&& m matches FoodHandleMsg::BurnFrom { owner: o, amount: a, padding: p }
    &&& o@ == owner
    &&& a == amount
    &&& p is None
}

} // verus!
