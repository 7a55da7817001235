use vstd::prelude::*;

verus! {

/// Construction parameters of the exchange: the binding of the food
/// token ledger that mint instructions will be addressed to.
#[derive(Clone, Debug, PartialEq, Eq)]
pub struct InitMsg {
    pub food_token_addr: String,
    pub food_token_code_hash: String,
}

/// Inbound state-changing calls of the exchange.
#[derive(Clone, Copy, Debug, PartialEq, Eq, Structural)]
pub enum HandleMsg {
    Buy {},
}

/// Outbound instructions understood by the food token ledger.
#[derive(Clone, Debug, PartialEq, Eq)]
pub enum FoodHandleMsg {
    Mint { recipient: String, amount: u128, padding: Option<String> },
    SetMinters { minters: Vec<String>, padding: Option<String> },
}

/// `m` instructs the ledger to mint `amount` tokens for `recipient`.
pub open spec fn is_mint(m: FoodHandleMsg, recipient: Seq<char>, amount: u128) -> bool {
    &&& m matches FoodHandleMsg::Mint { recipient: r, amount: a, padding: p }
    &&& r@ == recipient
    &&& a == amount
    &&& p is None
}

/// `m` instructs the ledger to accept `minter` as its one and only
/// minting authority.
pub open spec fn is_set_minters(m: FoodHandleMsg, minter: Seq<char>) -> bool {
    &&& m matches FoodHandleMsg::SetMinters { minters, padding }
    &&& minters@.len() == 1
    &&& minters@[0]@ == minter
    &&& padding is None
}

} // verus!
