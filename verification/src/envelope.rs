use vstd::prelude::*;

verus! {

/// An outbound message queued for asynchronous, fire-and-forget delivery:
/// the payload together with the address and code identifier of the
/// participant it is addressed to. The sender never observes whether the
/// message ultimately succeeds.
#[derive(Clone, Debug, PartialEq, Eq)]
pub struct Envelope<M> {
    pub dest_addr: String,
    pub dest_code_hash: String,
    pub msg: M,
}

} // verus!
