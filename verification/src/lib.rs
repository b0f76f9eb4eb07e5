//! Deterministic arithmetic quests: five sub-questions derived from a seed,
//! per-user progress, and a badge minted exactly once on completion.

pub mod codec;
pub mod contract;
pub mod digest;
pub mod engine;
pub mod error;
pub mod msg;
pub mod puzzle;
pub mod query;
pub mod state;
pub mod store;
