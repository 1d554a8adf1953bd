//! State-transition logic of a crowdfunding escrow.
//!
//! A campaign ("fundraiser") collects token contributions toward a target
//! amount within a fixed time window, tracks each contributor's running
//! total, and resolves at the end of the window either by having met its
//! target or by refunding contributors in full.
//!
//! The host ledger runtime, the token-transfer subsystem, the clock and
//! rent oracles, and raw account access are external collaborators: they
//! live outside this crate, which holds only the verified decision and
//! bookkeeping logic on plain values.

pub mod address;
pub mod campaign;
pub mod checker;
pub mod constants;
pub mod contribute;
pub mod error;
pub mod initialize;
pub mod instruction;
pub mod policy;
pub mod refund;
pub mod state;
