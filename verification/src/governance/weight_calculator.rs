//! Participation weights, kept for reporting only: contributions give no
//! weight in decisions, so every participation weight is zero. The cap
//! and the cooling-off rule are kept as they are reported.
//!
//! Weights and shares are fixed-point numbers in hundred-millionths;
//! bitcoin amounts are in satoshis.

use vstd::prelude::*;
use crate::governance::config_value::FIXED_ONE;

verus! {

/// The share of the whole weight that one contributor can have at most:
/// five percent.
pub const DEFAULT_CAP_PERCENTAGE: u64 = 5_000_000;

/// The contribution from which on the cooling-off period applies: a tenth
/// of a bitcoin.
pub const DEFAULT_COOLING_OFF_THRESHOLD: u64 = 10_000_000;

/// The days that a large contribution must have aged.
pub const DEFAULT_COOLING_OFF_PERIOD: u32 = 30;

/// The most weight that a share of the whole allows.
pub open spec fn weight_limit(total_system_weight: u64, cap_percentage: u64) -> int {
    total_system_weight as int * cap_percentage as int / FIXED_ONE as int
}

/// A weight, and no more than the share of the whole allows.
pub open spec fn capped_weight(calculated: u64, total_system_weight: u64, cap_percentage: u64) -> int {
    if calculated <= weight_limit(total_system_weight, cap_percentage) {
        calculated as int
    } else {
        weight_limit(total_system_weight, cap_percentage)
    }
}

/// Whether a contribution counts: a small one at once, a large one after
/// the cooling-off period.
pub open spec fn cooled_off(amount: u64, age_days: u32, threshold: u64, period_days: u32) -> bool {
    amount < threshold || age_days >= period_days
}

/// The participation weight of a contributor as it is reported.
#[derive(Debug)]
pub struct ParticipationWeight {
    pub contributor_id: String,
    pub contributor_type: String,
    pub total_contribution_btc: u64,
    pub base_weight: u64,
    pub capped_weight: u64,
    pub total_system_weight: u64,
}

/// Calculates participation weights for reports.
#[derive(Debug, Clone, Copy)]
pub struct WeightCalculator {
    /// The share of the whole weight that one contributor can have.
    pub cap_percentage: u64,
    /// The contribution from which on the cooling-off period applies.
    pub cooling_off_threshold_btc: u64,
    /// The days that a large contribution must have aged.
    pub cooling_off_period_days: u32,
}

impl WeightCalculator {
    /// A calculator with the usual cap and cooling-off rule.
    pub fn new() -> (calculator: WeightCalculator)
        ensures
            calculator.cap_percentage == DEFAULT_CAP_PERCENTAGE,
            calculator.cooling_off_threshold_btc == DEFAULT_COOLING_OFF_THRESHOLD,
            calculator.cooling_off_period_days == DEFAULT_COOLING_OFF_PERIOD,
    {
        WeightCalculator {
            cap_percentage: DEFAULT_CAP_PERCENTAGE,
            cooling_off_threshold_btc: DEFAULT_COOLING_OFF_THRESHOLD,
            cooling_off_period_days: DEFAULT_COOLING_OFF_PERIOD,
        }
    }

    /// The participation weight: zero.
    pub fn calculate_participation_weight(&self) -> (weight: u64)
        ensures
            weight == 0,
    {
        0
    }

    /// A weight, and no more than the cap allows of the whole weight.
    pub fn apply_weight_cap(&self, calculated_weight: u64, total_system_weight: u64) -> (weight: u64)
        ensures
            weight == capped_weight(calculated_weight, total_system_weight, self.cap_percentage),
    {
        assert(total_system_weight as int * self.cap_percentage as int <= u64::MAX * u64::MAX)
            by (nonlinear_arith)
            requires
                total_system_weight <= u64::MAX,
                self.cap_percentage <= u64::MAX,
        ;
        let wide: u128 = (total_system_weight as u128) * (self.cap_percentage as u128);
        let limit: u128 = wide / 100_000_000;
        if (calculated_weight as u128) <= limit {
            calculated_weight
        } else {
            limit as u64
        }
    }

    /// Whether a contribution counts: a small one at once, a large one
    /// after the cooling-off period.
    pub fn check_cooling_off(&self, contribution_amount_btc: u64, contribution_age_days: u32) -> (counts:
        bool)
        ensures
            counts == cooled_off(
                contribution_amount_btc,
                contribution_age_days,
                self.cooling_off_threshold_btc,
                self.cooling_off_period_days,
            ),
    {
        if contribution_amount_btc >= self.cooling_off_threshold_btc {
            contribution_age_days >= self.cooling_off_period_days
        } else {
            true
        }
    }

    /// The weight that a zap gives a vote: zero.
    pub fn calculate_zap_vote_weight(&self, zap_amount_btc: u64) -> (weight: u64)
        ensures
            weight == 0,
    {
        0
    }

    /// The weight of a vote on a proposal: zero.
    pub fn get_proposal_vote_weight(&self) -> (weight: u64)
        ensures
            weight == 0,
    {
        0
    }

    /// The participation weights of the given contributors as they are
    /// reported: one for each, in their order, and every number zero.
    pub fn update_participation_weights(&self, contributors: &Vec<(String, String)>) -> (weights:
        Vec<ParticipationWeight>)
        ensures
            weights@.len() == contributors@.len(),
            forall|i: int|
                0 <= i < weights@.len() ==> {
                    let w = #[trigger] weights@[i];
                    &&& w.contributor_id@ == contributors@[i].0@
                    &&& w.contributor_type@ == contributors@[i].1@
                    &&& w.total_contribution_btc == 0
                    &&& w.base_weight == 0
                    &&& w.capped_weight == 0
                    &&& w.total_system_weight == 0
                },
    {
        let mut weights: Vec<ParticipationWeight> = Vec::new();
        let mut i: usize = 0;
        while i < contributors.len()
            invariant
                i <= contributors@.len(),
                weights@.len() == i,
                forall|k: int|
                    0 <= k < i ==> {
                        let w = #[trigger] weights@[k];
                        &&& w.contributor_id@ == contributors@[k].0@
                        &&& w.contributor_type@ == contributors@[k].1@
                        &&& w.total_contribution_btc == 0
                        &&& w.base_weight == 0
                        &&& w.capped_weight == 0
                        &&& w.total_system_weight == 0
                    },
            decreases contributors@.len() - i,
        {
            weights.push(
                ParticipationWeight {
                    contributor_id: contributors[i].0.clone(),
                    contributor_type: contributors[i].1.clone(),
                    total_contribution_btc: self.calculate_participation_weight(),
                    base_weight: 0,
                    capped_weight: 0,
                    total_system_weight: 0,
                },
            );
            i = i + 1;
        }
        weights
    }
}

} // verus!
