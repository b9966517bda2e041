//! Economic nodes: who they are, what qualifies them, how much their
//! voice weighs, and how their objections add up.

pub mod registry;
pub mod types;
pub mod veto;
pub mod weight;
