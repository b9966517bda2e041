//! The data of economic nodes.
//!
//! Bitcoin amounts are in satoshis. Percentages, weights and dollar
//! amounts are fixed-point numbers in hundred-millionths.

use vstd::prelude::*;
use vstd::string::*;
use crate::text::str_equal;

verus! {

/// The kind of an economic node.
#[derive(Debug, Clone, Copy, PartialEq, Eq, Structural)]
pub enum NodeType {
    MiningPool,
    Exchange,
    Custodian,
    MajorHolder,
    CommonsContributor,
}

/// The least measures that a kind of node must show.
#[derive(Debug, Clone, Copy)]
pub struct QualificationThresholds {
    /// The least share of the network's hashpower, in fixed-point percent.
    pub minimum_hashpower_percent: Option<u64>,
    /// The least holdings, in satoshis.
    pub minimum_holdings_btc: Option<u64>,
    /// The least trading volume, in satoshis.
    pub minimum_volume_btc: Option<u64>,
}

impl NodeType {
    /// The name under which the kind is stored.
    pub open spec fn name(self) -> Seq<char> {
        match self {
            NodeType::MiningPool => "mining_pool"@,
            NodeType::Exchange => "exchange"@,
            NodeType::Custodian => "custodian"@,
            NodeType::MajorHolder => "major_holder"@,
            NodeType::CommonsContributor => "commons_contributor"@,
        }
    }

    /// The kind stored under a name.
    pub open spec fn from_name(s: Seq<char>) -> Option<NodeType> {
        if s == "mining_pool"@ {
            Some(NodeType::MiningPool)
        } else if s == "exchange"@ {
            Some(NodeType::Exchange)
        } else if s == "custodian"@ {
            Some(NodeType::Custodian)
        } else if s == "major_holder"@ {
            Some(NodeType::MajorHolder)
        } else if s == "commons_contributor"@ {
            Some(NodeType::CommonsContributor)
        } else {
            None
        }
    }

    /// The least measures of a kind: one percent of the hashpower for a
    /// mining pool; ten thousand bitcoin and a volume of a hundred bitcoin
    /// for an exchange; ten thousand bitcoin for a custodian; five
    /// thousand bitcoin for a major holder; none of these for a community
    /// contributor, who qualifies by contributions.
    pub open spec fn thresholds(self) -> QualificationThresholds {
        match self {
            NodeType::MiningPool => QualificationThresholds {
                minimum_hashpower_percent: Some(100_000_000),
                minimum_holdings_btc: None,
                minimum_volume_btc: None,
            },
            NodeType::Exchange => QualificationThresholds {
                minimum_hashpower_percent: None,
                minimum_holdings_btc: Some(1_000_000_000_000),
                minimum_volume_btc: Some(10_000_000_000),
            },
            NodeType::Custodian => QualificationThresholds {
                minimum_hashpower_percent: None,
                minimum_holdings_btc: Some(1_000_000_000_000),
                minimum_volume_btc: None,
            },
            NodeType::MajorHolder => QualificationThresholds {
                minimum_hashpower_percent: None,
                minimum_holdings_btc: Some(500_000_000_000),
                minimum_volume_btc: None,
            },
            NodeType::CommonsContributor => QualificationThresholds {
                minimum_hashpower_percent: None,
                minimum_holdings_btc: None,
                minimum_volume_btc: None,
            },
        }
    }

    /// The name under which the kind is stored. Reading the name back
    /// gives the kind.
    pub fn as_str(&self) -> (s: &'static str)
        ensures
            s@ == self.name(),
            NodeType::from_name(s@) == Some(*self),
    {
        proof {
            reveal_strlit("mining_pool");
            reveal_strlit("exchange");
            reveal_strlit("custodian");
            reveal_strlit("major_holder");
            reveal_strlit("commons_contributor");
            assert("mining_pool"@.len() == 11);
            assert("exchange"@.len() == 8);
            assert("custodian"@.len() == 9);
        }
        match self {
            NodeType::MiningPool => "mining_pool",
            NodeType::Exchange => "exchange",
            NodeType::Custodian => "custodian",
            NodeType::MajorHolder => "major_holder",
            NodeType::CommonsContributor => "commons_contributor",
        }
    }

    /// The kind stored under a name, nothing for an unknown name.
    pub fn from_str(s: &str) -> (t: Option<NodeType>)
        ensures
            t == NodeType::from_name(s@),
    {
        if str_equal(s, "mining_pool") {
            Some(NodeType::MiningPool)
        } else if str_equal(s, "exchange") {
            Some(NodeType::Exchange)
        } else if str_equal(s, "custodian") {
            Some(NodeType::Custodian)
        } else if str_equal(s, "major_holder") {
            Some(NodeType::MajorHolder)
        } else if str_equal(s, "commons_contributor") {
            Some(NodeType::CommonsContributor)
        } else {
            None
        }
    }

    /// The least measures of the kind.
    pub fn qualification_thresholds(&self) -> (thresholds: QualificationThresholds)
        ensures
            thresholds == self.thresholds(),
    {
        match self {
            NodeType::MiningPool => QualificationThresholds {
                minimum_hashpower_percent: Some(100_000_000),
                minimum_holdings_btc: None,
                minimum_volume_btc: None,
            },
            NodeType::Exchange => QualificationThresholds {
                minimum_hashpower_percent: None,
                minimum_holdings_btc: Some(1_000_000_000_000),
                minimum_volume_btc: Some(10_000_000_000),
            },
            NodeType::Custodian => QualificationThresholds {
                minimum_hashpower_percent: None,
                minimum_holdings_btc: Some(1_000_000_000_000),
                minimum_volume_btc: None,
            },
            NodeType::MajorHolder => QualificationThresholds {
                minimum_hashpower_percent: None,
                minimum_holdings_btc: Some(500_000_000_000),
                minimum_volume_btc: None,
            },
            NodeType::CommonsContributor => QualificationThresholds {
                minimum_hashpower_percent: None,
                minimum_holdings_btc: None,
                minimum_volume_btc: None,
            },
        }
    }
}

/// Where a node stands.
#[derive(Debug, Clone, Copy, PartialEq, Eq, Structural)]
pub enum NodeStatus {
    /// Registered, and waiting for its proof of control to be accepted.
    Pending,
    /// Registered and counted.
    Active,
    /// Set aside for a time.
    Suspended,
    /// Set aside for good. A revoked node stays in the registry.
    Revoked,
}

impl NodeStatus {
    /// The name under which the status is stored.
    pub open spec fn name(self) -> Seq<char> {
        match self {
            NodeStatus::Pending => "pending"@,
            NodeStatus::Active => "active"@,
            NodeStatus::Suspended => "suspended"@,
            NodeStatus::Revoked => "revoked"@,
        }
    }

    /// The status stored under a name.
    pub open spec fn from_name(s: Seq<char>) -> Option<NodeStatus> {
        if s == "pending"@ {
            Some(NodeStatus::Pending)
        } else if s == "active"@ {
            Some(NodeStatus::Active)
        } else if s == "suspended"@ {
            Some(NodeStatus::Suspended)
        } else if s == "revoked"@ {
            Some(NodeStatus::Revoked)
        } else {
            None
        }
    }

    /// The name under which the status is stored. Reading the name back
    /// gives the status.
    pub fn as_str(&self) -> (s: &'static str)
        ensures
            s@ == self.name(),
            NodeStatus::from_name(s@) == Some(*self),
    {
        proof {
            reveal_strlit("pending");
            reveal_strlit("active");
            reveal_strlit("suspended");
            reveal_strlit("revoked");
            assert("active"@.len() == 6);
            assert("pending"@[0] == 'p' && "revoked"@[0] == 'r');
        }
        match self {
            NodeStatus::Pending => "pending",
            NodeStatus::Active => "active",
            NodeStatus::Suspended => "suspended",
            NodeStatus::Revoked => "revoked",
        }
    }

    /// The status stored under a name, nothing for an unknown name.
    pub fn from_str(s: &str) -> (t: Option<NodeStatus>)
        ensures
            t == NodeStatus::from_name(s@),
    {
        if str_equal(s, "pending") {
            Some(NodeStatus::Pending)
        } else if str_equal(s, "active") {
            Some(NodeStatus::Active)
        } else if str_equal(s, "suspended") {
            Some(NodeStatus::Suspended)
        } else if str_equal(s, "revoked") {
            Some(NodeStatus::Revoked)
        } else {
            None
        }
    }
}

/// What a node says about a pending change.
#[derive(Debug, Clone, Copy, PartialEq, Eq, Structural)]
pub enum SignalType {
    Veto,
    Support,
    Abstain,
}

impl SignalType {
    /// The name under which the signal is stored.
    pub open spec fn name(self) -> Seq<char> {
        match self {
            SignalType::Veto => "veto"@,
            SignalType::Support => "support"@,
            SignalType::Abstain => "abstain"@,
        }
    }

    /// The signal stored under a name.
    pub open spec fn from_name(s: Seq<char>) -> Option<SignalType> {
        if s == "veto"@ {
            Some(SignalType::Veto)
        } else if s == "support"@ {
            Some(SignalType::Support)
        } else if s == "abstain"@ {
            Some(SignalType::Abstain)
        } else {
            None
        }
    }

    /// The name under which the signal is stored. Reading the name back
    /// gives the signal.
    pub fn as_str(&self) -> (s: &'static str)
        ensures
            s@ == self.name(),
            SignalType::from_name(s@) == Some(*self),
    {
        proof {
            reveal_strlit("veto");
            reveal_strlit("support");
            reveal_strlit("abstain");
            assert("support"@[0] == 's' && "abstain"@[0] == 'a');
        }
        match self {
            SignalType::Veto => "veto",
            SignalType::Support => "support",
            SignalType::Abstain => "abstain",
        }
    }

    /// The signal stored under a name, nothing for an unknown name.
    pub fn from_str(s: &str) -> (t: Option<SignalType>)
        ensures
            t == SignalType::from_name(s@),
    {
        if str_equal(s, "veto") {
            Some(SignalType::Veto)
        } else if str_equal(s, "support") {
            Some(SignalType::Support)
        } else if str_equal(s, "abstain") {
            Some(SignalType::Abstain)
        } else {
            None
        }
    }
}

/// Evidence of a mining pool's share of the hashpower.
#[derive(Debug)]
pub struct HashpowerProof {
    /// References to the blocks that the pool claims to have mined.
    pub blocks_mined: Vec<String>,
    pub time_period_days: u32,
    pub total_network_blocks: u32,
    /// The share of the network's hashpower, in fixed-point percent.
    pub percentage: u64,
}

/// Evidence of holdings, with a signature that shows control of them.
#[derive(Debug)]
pub struct HoldingsProof {
    /// The addresses that hold the coins.
    pub addresses: Vec<String>,
    /// The holdings, in satoshis.
    pub total_btc: u64,
    /// The signature over the challenge made of the public key and the
    /// addresses.
    pub signature_challenge: String,
}

/// Evidence of trading volume.
#[derive(Debug)]
pub struct VolumeProof {
    /// The volume of a day, in satoshis.
    pub daily_volume_btc: u64,
    /// The volume of a month, in satoshis.
    pub monthly_volume_btc: u64,
    pub transaction_hashes: Vec<String>,
}

/// Evidence of merge-mining revenue.
#[derive(Debug)]
pub struct MergeMiningProof {
    /// The revenue, in satoshis.
    pub total_revenue_btc: u64,
    pub period_days: u32,
    pub blocks_mined: Vec<String>,
}

/// Evidence of forwarded fees.
#[derive(Debug)]
pub struct FeeForwardingProof {
    /// The forwarded fees, in satoshis.
    pub total_fees_forwarded_btc: u64,
    pub period_days: u32,
    pub blocks_with_forwarding: Vec<String>,
}

/// Evidence of Lightning zaps.
#[derive(Debug)]
pub struct ZapProof {
    /// The zaps, in satoshis.
    pub total_zaps_btc: u64,
    pub period_days: u32,
    pub zap_events: Vec<String>,
}

/// Evidence of marketplace sales.
#[derive(Debug)]
pub struct MarketplaceSalesProof {
    /// The sales, in satoshis.
    pub total_sales_btc: u64,
    pub period_days: u32,
    pub module_payments: Vec<String>,
}

/// Evidence of sales in dollars, for the treasury or for services.
#[derive(Debug)]
pub struct DollarSalesProof {
    /// The sales, in hundred-millionths of a dollar.
    pub total_sales_usd: u64,
    pub period_days: u32,
}

/// The evidence of a community contributor: any of these.
#[derive(Debug)]
pub struct CommonsContributorProof {
    pub merge_mining_proof: Option<MergeMiningProof>,
    pub fee_forwarding_proof: Option<FeeForwardingProof>,
    pub zap_proof: Option<ZapProof>,
    pub marketplace_sales_proof: Option<MarketplaceSalesProof>,
    pub treasury_sales_proof: Option<DollarSalesProof>,
    pub service_sales_proof: Option<DollarSalesProof>,
}

/// How to reach the entity behind a node.
#[derive(Debug)]
pub struct ContactInfo {
    pub entity_name: String,
    pub contact_email: String,
    pub website: Option<String>,
    pub github_username: Option<String>,
}

/// The evidence that justifies a registration.
#[derive(Debug)]
pub struct QualificationProof {
    pub node_type: NodeType,
    pub hashpower_proof: Option<HashpowerProof>,
    pub holdings_proof: Option<HoldingsProof>,
    pub volume_proof: Option<VolumeProof>,
    pub commons_contributor_proof: Option<CommonsContributorProof>,
    pub contact_info: ContactInfo,
}

/// A registered node.
#[derive(Debug)]
pub struct EconomicNode {
    pub id: i32,
    pub node_type: NodeType,
    pub entity_name: String,
    pub public_key: String,
    /// The evidence given at registration, kept for review.
    pub qualification_data: QualificationProof,
    /// The weight of the node's voice, in hundred-millionths.
    pub weight: u64,
    pub status: NodeStatus,
    pub registered_at: i64,
    /// When the proof of control was accepted.
    pub verified_at: Option<i64>,
    pub last_verified_at: Option<i64>,
    pub created_by: Option<String>,
    pub notes: String,
}

/// One signal of a node about a pending change.
#[derive(Debug)]
pub struct VetoSignal {
    pub id: i32,
    pub pr_id: i32,
    pub node_id: i32,
    pub signal_type: SignalType,
    pub signature: String,
    pub rationale: String,
    pub timestamp: i64,
    /// The key under which the signal is published, where the node signs
    /// with a derived key and not with the key of its registration.
    pub voting_key: Option<String>,
}

/// How the objections against a pending change add up.
#[derive(Debug, Clone, Copy)]
pub struct VetoThreshold {
    /// The objecting share of the mining weight, in fixed-point percent.
    pub mining_veto_percent: u64,
    /// The objecting share of the economic weight, in fixed-point percent.
    pub economic_veto_percent: u64,
    /// The share of the mining weight that blocks, in fixed-point percent.
    pub mining_threshold_percent: i64,
    /// The share of the economic weight that blocks, in fixed-point
    /// percent.
    pub economic_threshold_percent: i64,
    /// Whether the objections block the change.
    pub veto_active: bool,
}

} // verus!
