//! Holding a merge back until the governance requirements are met.

pub mod decision_log;
pub mod merge_block;
