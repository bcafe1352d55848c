//! A command-line client library for a banking API: the OAuth2
//! authorization-code flow, credential handling with at-most-once token
//! refresh, and the small amount of logic behind the data commands.
//!
//! Every decision is taken by verified code. Network, terminal and disk work
//! is left to the caller, which drives the state machines in [`auth`] and
//! [`session`] by handing back the outcome of each requested action.

pub mod auth;
pub mod callback;
pub mod cli;
pub mod session;
pub mod text;
pub mod report;
