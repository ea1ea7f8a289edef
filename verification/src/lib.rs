//! A verified model of a websocket-fed chain-state feed.
//!
//! The library normalizes raw subscription notifications (keyed-account
//! updates and slot lifecycle events) into a small uniform event model,
//! drives the session lifecycle of one transport connection as a state
//! machine, decides the unconditional reconnect policy, and provides the
//! decision logic of a bootstrap waiter that looks for the first new-bank
//! slot event.  The surrounding async transport and channel plumbing is
//! ordinary Rust around this library; everything here is verified.

pub mod account;
pub mod bootstrap;
pub mod chain;
pub mod session;
pub mod slot;
pub mod subscribe;
pub mod supervisor;
