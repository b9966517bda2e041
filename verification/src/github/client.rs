//! The access to the code host.

use vstd::prelude::*;
use vstd::string::*;

verus! {

/// What is needed to speak to the code host.
#[derive(Debug)]
pub struct GitHubClient {
    /// The number of the application.
    pub app_id: u64,
    /// The file that holds the key of the application.
    pub private_key_path: String,
}

impl GitHubClient {
    /// A client for an application.
    pub fn new(app_id: u64, private_key_path: String) -> (client: GitHubClient)
        ensures
            client.app_id == app_id,
            client.private_key_path == private_key_path,
    {
        GitHubClient { app_id, private_key_path }
    }
}

} // verus!
