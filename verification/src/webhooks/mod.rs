//! What the webhooks of the code host and of the node are answered.

pub mod block;
pub mod pull_request;
