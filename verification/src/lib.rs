//! A tiered commitment scheme: an administrator grants eligibility, and each
//! participant either takes a reduced payout at once or locks for a fixed time
//! and withdraws later, early for less or at maturity for more.
//!
//! `model` holds the data, `engine` the state machine of one participant,
//! `registry` the two tables, `state` and `trace` the contract as mathematics,
//! `contract` the entry points, `laws` what is proved of them across calls,
//! and `host` what is taken on trust from the Soroban SDK.

pub mod contract;
pub mod engine;
pub mod host;
pub mod laws;
pub mod model;
pub mod registry;
pub mod state;
pub mod trace;

pub use crate::contract::Commitment;
pub use crate::engine::{default_user, Phase};
pub use crate::model::{DataKey, Error, Tier, TierRow, UserRow, UserState};
pub use crate::registry::{TierRegistry, UserLedger};
