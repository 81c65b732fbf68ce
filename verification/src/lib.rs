//! A token-curated registry: listings join a shared registry through
//! stake-backed proposals, may be disputed through stake-backed challenges,
//! and disputes are settled by stake-weighted voting with proportional
//! reward redistribution to the winning side.
//!
//! The registry core is a sequential, deterministic state machine. The host
//! concerns that surround it on a chain — signature checking, persistent
//! storage, the block clock, event transport — stay outside: callers pass in
//! the current block height, an [`auth::Origin`] for the calling identity,
//! and a [`ledger::Ledger`] holding the reservable balances, and read emitted
//! events back from the state.

pub mod auth;
pub mod errors;
pub mod events;
pub mod ledger;
pub mod types;
pub mod state;
pub mod registry;
pub mod voting;
pub mod resolution;
pub mod expiry;
pub mod laws;
pub mod testing;
