//! The pet lifecycle participant: a single entity kept alive by feeding it
//! food tokens, starving irreversibly when feeding lapses.

pub mod contract;
pub mod laws;
pub mod msg;
pub mod state;
