//! Governance parameters, their approval workflow, and the intake of
//! governance messages.

pub mod config_defaults;
pub mod config_reader;
pub mod config_registry;
pub mod config_value;
pub mod contributions;
pub mod merkle_veto;
pub mod message_dedup;
pub mod p2p_receiver;
pub mod phase_calculator;
pub mod vote_aggregator;
pub mod weight_calculator;
