//! Accounting and lifecycle engine of a remittance escrow.
//!
//! A sender deposits funds for a registered agent; the agent later settles the
//! remittance and receives the amount net of the platform fee, or the sender
//! cancels it and is refunded. Every operation is a transition of an explicit
//! [`engine::Contract`] value, and every effect on the outside world (a value
//! transfer, an audit event) is recorded in a [`host::Env`] for the caller to
//! carry out.
//!
//! The operations are proved to follow the state machine of [`model`], and
//! [`laws`] holds what is proved of that state machine: that a terminal
//! status is final, that no remittance is settled twice, and that the books
//! balance against the escrow.

pub mod errors;
pub mod fee;
pub mod types;
pub mod registry;
pub mod fee_ledger;
pub mod store;
pub mod host;
pub mod events;
pub mod model;
pub mod engine;
pub mod laws;
