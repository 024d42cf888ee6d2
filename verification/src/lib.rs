//! An on-ledger lottery: buyers pay a fixed ticket price into a pooled
//! account, an oracle designates a winning ticket index, and the winner and
//! the administrator later claim disjoint shares of the pool.
//!
//! The crate verifies the ledger/ticket state machine: how each purchase is
//! split into an escrow share and a payout share, how ticket indices are
//! assigned, and how every value-moving operation is gated by an
//! authorization check.

pub mod laws;
pub mod ledger;
