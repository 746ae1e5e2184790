//! Event-sourced actors: an accumulator and an account ledger whose state
//! changes only through validated events, together with the naming and
//! delivery rules that place them on an actor runtime.

pub mod account_balance;
pub mod calculator;
pub mod naming;
pub mod runtime;
