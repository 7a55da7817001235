use vstd::prelude::*;

verus! {

/// One entry of the funds attached to an inbound call by the platform: a
/// denomination tag and an unsigned amount. The caller cannot forge these
/// independently of actually transferring the funds.
#[derive(Clone, Debug, PartialEq, Eq)]
pub struct Coin {
    pub denom: String,
    pub amount: u128,
}

} // verus!
