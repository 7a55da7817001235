//! A small message-driven ledger economy: an exchange that converts native
//! currency into a fungible food token at a fixed ratio, and a pet lifecycle
//! state machine that consumes that token to stay alive, starving
//! irreversibly when feeding lapses.
//!
//! Each participant is a pure state machine: every entry point takes the
//! current state and the externally supplied inputs (caller, attached funds,
//! clock reading) and returns the new state together with the outbound
//! ledger messages to emit. Persistence, message transport and the clock
//! live outside this crate.

pub mod coin;
pub mod envelope;
pub mod error;
pub mod market;
pub mod meals;
pub mod pet;
pub mod registry;
