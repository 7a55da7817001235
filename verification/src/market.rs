//! The exchange participant: converts the native currency into food
//! tokens at a fixed ratio by instructing the ledger to mint.

pub mod contract;
pub mod msg;
pub mod state;
