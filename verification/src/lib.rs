//! An escrow for the atomic swap of two token balances between two parties.
//!
//! The first party hands a token account to an authority that only this
//! program can sign for and records the amount it wants in return. The second
//! party pays that amount and receives what the account holds. Either the
//! whole swap happens or nothing does.
//!
//! The modules, leaf first:
//! - [`error`]: the failure kinds and their codes;
//! - [`identity`]: identities, and the authority derived for a program;
//! - [`wire`] and [`instruction`]: the bytes of an instruction;
//! - [`state`]: the persisted record of a trade;
//! - [`account`] and [`ledger`]: accounts as plain values, and the token
//!   ledger's three calls on them;
//! - [`processor`]: what Init and Exchange check and do;
//! - [`effects`] and [`laws`]: what the operations come to, and what holds
//!   of every instruction.

pub mod account;
pub mod effects;
pub mod error;
pub mod identity;
pub mod instruction;
pub mod laws;
pub mod ledger;
pub mod processor;
pub mod state;
pub mod wire;
