//! The outcome of a vote on a proposal. Decisions are made by the
//! signatures of maintainers alone; zaps are counted for the record.

use vstd::prelude::*;
use crate::error::{config_error, GovernanceError};

verus! {

/// The votes that a tier asks for, nothing for a tier that does not
/// exist.
pub open spec fn tier_threshold(tier: u8) -> Option<u32> {
    if tier == 1 {
        Some(100u32)
    } else if tier == 2 {
        Some(500u32)
    } else if tier == 3 {
        Some(1_000u32)
    } else if tier == 4 {
        Some(2_500u32)
    } else if tier == 5 {
        Some(5_000u32)
    } else {
        None
    }
}

/// The weights by kind of signal.
#[derive(Debug, Clone, Copy)]
pub struct ParticipationVoteTotals {
    pub support_weight: u64,
    pub veto_weight: u64,
    pub abstain_weight: u64,
    pub total_count: u32,
}

/// The outcome of a vote on a proposal.
#[derive(Debug, Clone, Copy)]
pub struct ProposalVoteResult {
    pub pr_id: i32,
    pub tier: u8,
    pub threshold: u32,
    pub total_votes: u64,
    pub support_votes: u64,
    pub veto_votes: u64,
    pub abstain_votes: u64,
    pub zap_vote_count: u32,
    pub participation_vote_count: u32,
    pub threshold_met: bool,
    pub veto_blocks: bool,
}

/// Adds up the votes on proposals.
#[derive(Debug, Clone, Copy)]
pub struct VoteAggregator {}

impl VoteAggregator {
    /// An aggregator.
    pub fn new() -> VoteAggregator {
        VoteAggregator {  }
    }

    /// The votes that a tier asks for. A tier that does not exist is an
    /// error.
    pub fn get_threshold_for_tier(&self, tier: u8) -> (result: Result<u32, GovernanceError>)
        ensures
            match tier_threshold(tier) {
                Some(threshold) => result == Ok::<u32, GovernanceError>(threshold),
                None => result matches Err(e) && e is ConfigError,
            },
    {
        if tier == 1 {
            Ok(100)
        } else if tier == 2 {
            Ok(500)
        } else if tier == 3 {
            Ok(1_000)
        } else if tier == 4 {
            Ok(2_500)
        } else if tier == 5 {
            Ok(5_000)
        } else {
            Err(config_error("Invalid tier"))
        }
    }

    /// The outcome of the vote on a proposal, given the votes of the
    /// maintainers and the number of zap votes. All votes of maintainers
    /// are votes in support, nothing blocks, and the zap votes are
    /// counted without weighing. A tier that does not exist is an error.
    pub fn aggregate_proposal_votes(
        &self,
        pr_id: i32,
        tier: u8,
        maintainer_votes: u64,
        zap_vote_count: u32,
    ) -> (result: Result<ProposalVoteResult, GovernanceError>)
        ensures
            match tier_threshold(tier) {
                Some(threshold) => result matches Ok(outcome) && outcome == (ProposalVoteResult {
                    pr_id,
                    tier,
                    threshold,
                    total_votes: maintainer_votes,
                    support_votes: maintainer_votes,
                    veto_votes: 0,
                    abstain_votes: 0,
                    zap_vote_count,
                    participation_vote_count: 0,
                    threshold_met: maintainer_votes >= threshold,
                    veto_blocks: false,
                }),
                None => result matches Err(e) && e is ConfigError,
            },
    {
        let threshold = match self.get_threshold_for_tier(tier) {
            Ok(t) => t,
            Err(e) => {
                return Err(e);
            },
        };
        Ok(
            ProposalVoteResult {
                pr_id,
                tier,
                threshold,
                total_votes: maintainer_votes,
                support_votes: maintainer_votes,
                veto_votes: 0,
                abstain_votes: 0,
                zap_vote_count,
                participation_vote_count: 0,
                threshold_met: maintainer_votes >= threshold as u64,
                veto_blocks: false,
            },
        )
    }
}

} // verus!
