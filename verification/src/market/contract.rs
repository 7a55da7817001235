use vstd::prelude::*;

use crate::coin::Coin;
use crate::envelope::Envelope;
use crate::error::Error;
use crate::market::msg::{is_mint, is_set_minters, FoodHandleMsg, HandleMsg, InitMsg};
use crate::market::state::State;

verus! {

/// The fixed conversion ratio: food tokens minted per unit of native
/// currency paid.
pub const RATIO: u128 = 100;

/// The denomination of the native currency that payments must be made
/// in.
pub open spec fn native_denom() -> Seq<char> {
    "SCRT"@
}

/// The validation of the attached payment: exactly one entry, of the
/// native denomination.
pub open spec fn buy_payment_error(funds: Seq<Coin>) -> Option<Error> {
    if funds.len() != 1 {
        Some(Error::InvalidDenomination)
    } else if funds[0].denom@ != native_denom() {
        Some(Error::InvalidDenomination)
    } else {
        None
    }
}

/// A buy succeeds exactly when the payment is valid.
pub open spec fn buy_ok(funds: Seq<Coin>) -> bool {
    buy_payment_error(funds) is None
}

/// Creates the exchange state bound to the food token ledger and emits
/// the one-time instruction registering this very exchange as the
/// token's sole minting authority.
pub fn init(contract_addr: String, msg: InitMsg) -> (r: (State, Vec<Envelope<FoodHandleMsg>>))
    ensures
        r.0.food_token_code_hash == msg.food_token_code_hash,
        r.0.food_token_addr == msg.food_token_addr,
        r.1@.len() == 1,
        is_set_minters(r.1@[0].msg, contract_addr@),
        r.1@[0].dest_addr == msg.food_token_addr,
        r.1@[0].dest_code_hash == msg.food_token_code_hash,
{
    let state = State {
        food_token_code_hash: msg.food_token_code_hash.clone(),
        food_token_addr: msg.food_token_addr.clone(),
    };
    let set_minters = FoodHandleMsg::SetMinters { minters: vec![contract_addr], padding: None };
    let out = Envelope {
        dest_addr: msg.food_token_addr,
        dest_code_hash: msg.food_token_code_hash,
        msg: set_minters,
    };
    (state, vec![out])
}

/// Buys food tokens: validates that the payment is a single entry of the
/// native currency and either emits exactly one mint instruction for the
/// caller, over `RATIO` tokens per unit paid and addressed to the bound
/// ledger, or fails before emitting anything. The exchange state itself
/// never changes.
pub fn try_buy(state: &State, sender: &String, sent_funds: &Vec<Coin>) -> (r: Result<
    Vec<Envelope<FoodHandleMsg>>,
    Error,
>)
    requires
        buy_ok(sent_funds@) ==> sent_funds@[0].amount * RATIO <= u128::MAX,
    ensures
        buy_ok(sent_funds@) ==> (r matches Ok(msgs)
            && msgs@.len() == 1
            && is_mint(msgs@[0].msg, sender@, (sent_funds@[0].amount * RATIO) as u128)
            && msgs@[0].dest_addr == state.food_token_addr
            && msgs@[0].dest_code_hash == state.food_token_code_hash),
        !buy_ok(sent_funds@) ==> (r matches Err(e) && buy_payment_error(sent_funds@) == Some(e)),
{
    if sent_funds.len() != 1 {
        return Err(Error::InvalidDenomination);
    }
    let coin = &sent_funds[0];
    let expected: String = "SCRT".to_owned();
    if !(coin.denom == expected) {
        return Err(Error::InvalidDenomination);
    }
    let amount = coin.amount * RATIO;
    let mint = FoodHandleMsg::Mint { recipient: sender.clone(), amount, padding: None };
    Ok(vec![Envelope {
        dest_addr: state.food_token_addr.clone(),
        dest_code_hash: state.food_token_code_hash.clone(),
        msg: mint,
    }])
}

/// Dispatches an inbound state-changing call.
pub fn handle(state: &State, sender: &String, sent_funds: &Vec<Coin>, msg: HandleMsg) -> (r: Result<
    Vec<Envelope<FoodHandleMsg>>,
    Error,
>)
    requires
        buy_ok(sent_funds@) ==> sent_funds@[0].amount * RATIO <= u128::MAX,
    ensures
        buy_ok(sent_funds@) ==> (r matches Ok(msgs)
            && msgs@.len() == 1
            && is_mint(msgs@[0].msg, sender@, (sent_funds@[0].amount * RATIO) as u128)
            && msgs@[0].dest_addr == state.food_token_addr
            && msgs@[0].dest_code_hash == state.food_token_code_hash),
        !buy_ok(sent_funds@) ==> (r matches Err(e) && buy_payment_error(sent_funds@) == Some(e)),
{
    match msg {
        HandleMsg::Buy {} => try_buy(state, sender, sent_funds),
    }
}

} // verus!
