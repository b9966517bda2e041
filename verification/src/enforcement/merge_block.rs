//! Whether a merge is held back, and why.
//!
//! In an emergency only the signatures count. Else the review period
//! must be over and the signatures must be there.

use vstd::prelude::*;
use vstd::string::*;
use crate::enforcement::decision_log::DecisionLogger;
use crate::error::GovernanceError;
use crate::github::client::GitHubClient;

verus! {

/// Whether a merge is held back.
pub open spec fn merge_blocked(review_period_met: bool, signatures_met: bool, emergency_mode: bool)
    -> bool {
    if emergency_mode {
        !signatures_met
    } else {
        !(review_period_met && signatures_met)
    }
}

/// Why a merge is held back, or that it is not.
pub open spec fn block_reason(review_period_met: bool, signatures_met: bool, emergency_mode: bool)
    -> Seq<char> {
    if emergency_mode {
        if !signatures_met {
            "Emergency mode: Signature threshold not met"@
        } else {
            "Emergency mode: All requirements met"@
        }
    } else if review_period_met && signatures_met {
        "All governance requirements met"@
    } else if !review_period_met && !signatures_met {
        "Governance requirements not met: "@ + "Review period requirement not met"@ + ", "@
            + "Signature threshold requirement not met"@
    } else if !review_period_met {
        "Governance requirements not met: "@ + "Review period requirement not met"@
    } else {
        "Governance requirements not met: "@ + "Signature threshold requirement not met"@
    }
}

/// The state of the status check for a merge.
pub open spec fn status_state(should_block: bool) -> Seq<char> {
    if should_block {
        "failure"@
    } else {
        "success"@
    }
}

/// The text of the status check for a merge.
pub open spec fn status_description(should_block: bool, reason: Seq<char>, dry_run: bool) -> Seq<
    char,
> {
    let plain = if should_block {
        "\u{274c} Merge blocked: "@ + reason
    } else {
        "\u{2705} Governance requirements met - merge allowed"@
    };
    if dry_run {
        "[DRY-RUN] "@ + plain
    } else {
        plain
    }
}

/// The status check that is posted for a merge.
#[derive(Debug)]
pub struct MergeStatus {
    /// `failure` or `success`.
    pub state: String,
    /// What is shown with the state.
    pub description: String,
    /// The name of the check.
    pub context: String,
}

/// Holds merges back.
pub struct MergeBlocker {
    /// The client that posts the status, where there is one.
    pub github_client: Option<GitHubClient>,
    /// The settings of the decision log.
    pub decision_logger: DecisionLogger,
}

impl MergeBlocker {
    /// A blocker with the given client and log settings.
    pub fn new(github_client: Option<GitHubClient>, decision_logger: DecisionLogger) -> (blocker:
        MergeBlocker)
        ensures
            blocker.github_client == github_client,
            blocker.decision_logger == decision_logger,
    {
        MergeBlocker { github_client, decision_logger }
    }

    /// Whether a merge is held back.
    pub fn should_block_merge(review_period_met: bool, signatures_met: bool, emergency_mode: bool)
        -> (result: Result<bool, GovernanceError>)
        ensures
            result == Ok::<bool, GovernanceError>(
                merge_blocked(review_period_met, signatures_met, emergency_mode),
            ),
    {
        if emergency_mode {
            Ok(!signatures_met)
        } else {
            let basic_requirements_met = review_period_met && signatures_met;
            Ok(!basic_requirements_met)
        }
    }

    /// Why a merge is held back, or that it is not.
    pub fn get_block_reason(review_period_met: bool, signatures_met: bool, emergency_mode: bool)
        -> (reason: String)
        ensures
            reason@ == block_reason(review_period_met, signatures_met, emergency_mode),
    {
        if emergency_mode {
            if !signatures_met {
                "Emergency mode: Signature threshold not met".to_owned()
            } else {
                "Emergency mode: All requirements met".to_owned()
            }
        } else if review_period_met && signatures_met {
            "All governance requirements met".to_owned()
        } else {
            let mut reason = "Governance requirements not met: ".to_owned();
            if !review_period_met {
                reason.append("Review period requirement not met");
                if !signatures_met {
                    reason.append(", ");
                }
            }
            if !signatures_met {
                reason.append("Signature threshold requirement not met");
            }
            reason
        }
    }

    /// The status check for a merge: its state, its text, with a mark in
    /// front where decisions are only reported, and its name.
    pub fn merge_status(&self, should_block: bool, reason: &str) -> (status: MergeStatus)
        ensures
            status.state@ == status_state(should_block),
            status.description@ == status_description(
                should_block,
                reason@,
                self.decision_logger.dry_run_mode,
            ),
            status.context@ == "governance/merge"@,
    {
        let state = if should_block {
            "failure"
        } else {
            "success"
        };
        let mut description = if self.decision_logger.dry_run_mode {
            "[DRY-RUN] ".to_owned()
        } else {
            String::new()
        };
        if should_block {
            description.append("\u{274c} Merge blocked: ");
            description.append(reason);
        } else {
            description.append("\u{2705} Governance requirements met - merge allowed");
        }
        MergeStatus {
            state: state.to_owned(),
            description,
            context: "governance/merge".to_owned(),
        }
    }
}

} // verus!
