//! Thresholds for community contributors as the file-based configuration
//! gives them. Bitcoin amounts are in satoshis; weights and factors are
//! fixed-point numbers in hundred-millionths.

use vstd::prelude::*;
use vstd::string::*;

verus! {

/// The threshold for one kind of contribution.
#[derive(Debug, Clone, Copy)]
pub struct ContributionThreshold {
    /// Whether this kind of contribution counts towards qualification.
    pub enabled: bool,
    /// The least total that qualifies, in satoshis.
    pub minimum_contribution_btc: u64,
}

/// The threshold for marketplace sales.
#[derive(Debug, Clone, Copy)]
pub struct MarketplaceThreshold {
    /// Whether marketplace sales count towards qualification.
    pub enabled: bool,
    /// The least total that qualifies, in satoshis.
    pub minimum_contribution_btc: u64,
    /// The least sales total that qualifies, in satoshis; none means zero.
    pub minimum_sales_btc: Option<u64>,
}

/// How a contributor's weight is calculated.
#[derive(Debug, Clone, Copy)]
pub struct WeightCalculationConfig {
    /// The contribution, in satoshis, that gives the weight one.
    pub normalization_factor: u64,
    /// The least weight a contributor gets, in hundred-millionths.
    pub minimum_weight: u64,
}

/// How the thresholds of the single kinds combine.
#[derive(Debug, Clone, Copy, PartialEq, Eq, Structural)]
pub enum QualificationLogic {
    /// One met threshold qualifies.
    Any,
    /// Every enabled threshold must be met.
    All,
}

/// The mode that a configured text stands for: `AND` for all, anything
/// else for any.
pub open spec fn logic_of(text: Seq<char>) -> QualificationLogic {
    if text == "AND"@ {
        QualificationLogic::All
    } else {
        QualificationLogic::Any
    }
}

/// The mode that a configured text stands for.
pub fn parse_logic(text: &str) -> (logic: QualificationLogic)
    ensures
        logic == logic_of(text@),
{
    if crate::text::str_equal(text, "AND") {
        QualificationLogic::All
    } else {
        QualificationLogic::Any
    }
}

/// The thresholds for community contributors.
#[derive(Debug)]
pub struct CommonsContributorThresholds {
    pub merge_mining: ContributionThreshold,
    pub fee_forwarding: ContributionThreshold,
    pub zaps: ContributionThreshold,
    pub marketplace: MarketplaceThreshold,
    /// The least length of the measured period, in days.
    pub measurement_period_days: u32,
    /// `OR` or `AND`.
    pub qualification_logic: String,
}

/// The file-based configuration for community contributors.
#[derive(Debug)]
pub struct CommonsContributorThresholdsConfig {
    pub commons_contributor_thresholds: CommonsContributorThresholds,
    pub weight_calculation: WeightCalculationConfig,
}

} // verus!
