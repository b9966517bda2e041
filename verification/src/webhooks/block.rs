//! The answer to the notification of a block.

use vstd::prelude::*;
use vstd::string::*;

verus! {

/// The answer to the notification of a block.
#[derive(Debug)]
pub struct BlockNotificationResponse {
    pub success: bool,
    pub message: String,
    pub contributions_found: usize,
}

/// The answer that every notification of a block gets: it was received,
/// and no contribution was looked for in it.
pub fn block_notification_response() -> (response: BlockNotificationResponse)
    ensures
        response.success,
        response.contributions_found == 0,
        response.message@
            == "Fee forwarding removed - block notification received but not processed"@,
{
    BlockNotificationResponse {
        success: true,
        message: "Fee forwarding removed - block notification received but not processed".to_owned(),
        contributions_found: 0,
    }
}

} // verus!
