//! Files and repositories on the code host.

pub mod client;
pub mod file_operations;
