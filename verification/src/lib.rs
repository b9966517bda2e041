//! Policy core of a governance layer: who may influence protocol changes,
//! with how much weight, and whether their objection blocks a change.

pub mod audit;
pub mod backup;
pub mod collections;
pub mod config;
pub mod economic_nodes;
pub mod enforcement;
pub mod error;
pub mod github;
pub mod governance;
pub mod hashing;
pub mod ots;
pub mod text;
pub mod webhooks;
