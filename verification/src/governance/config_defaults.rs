//! The governance parameters that every registry starts with, and their
//! built-in values.
//!
//! Numbers with a fraction are fixed-point numbers in hundred-millionths:
//! thirty percent is 3 000 000 000, a hundredth of a bitcoin 1 000 000.

use vstd::prelude::*;
use vstd::string::*;
use crate::error::GovernanceError;
use crate::governance::config_registry::{ConfigCategory, ConfigRegistry, RegistryView};
use crate::governance::config_value::{ConfigValue, ConfigValueView};

verus! {

/// The tier that a change of a built-in parameter asks for.
pub const DEFAULT_TIER_REQUIREMENT: i32 = 5;

/// One built-in parameter.
#[derive(Debug)]
pub struct DefaultSetting {
    pub key: &'static str,
    pub category: ConfigCategory,
    pub value: ConfigValue,
    pub description: &'static str,
}

/// A built-in parameter as mathematical data.
pub struct DefaultSettingView {
    pub key: Seq<char>,
    pub category: ConfigCategory,
    pub value: ConfigValueView,
    pub description: Seq<char>,
}

impl View for DefaultSetting {
    type V = DefaultSettingView;

    open spec fn view(&self) -> DefaultSettingView {
        DefaultSettingView {
            key: self.key@,
            category: self.category,
            value: self.value@,
            description: self.description@,
        }
    }
}

/// A list of built-in parameters as mathematical data.
pub open spec fn settings_view(settings: Seq<DefaultSetting>) -> Seq<DefaultSettingView> {
    settings.map_values(|s: DefaultSetting| s@)
}

fn setting(
    key: &'static str,
    category: ConfigCategory,
    value: ConfigValue,
    description: &'static str,
) -> (s: DefaultSetting)
    ensures
        s@ == (DefaultSettingView {
            key: key@,
            category,
            value: value@,
            description: description@,
        }),
{
    DefaultSetting { key, category, value, description }
}

/// The signatures and review periods of the five action tiers.
pub open spec fn tier_defaults() -> Seq<DefaultSettingView> {
    seq![
        DefaultSettingView {
            key: "tier_1_signatures_required"@,
            category: ConfigCategory::Thresholds,
            value: ConfigValueView::PosInt(3),
            description: "Tier 1: Required maintainer signatures (out of total)"@,
        },
        DefaultSettingView {
            key: "tier_1_signatures_total"@,
            category: ConfigCategory::Thresholds,
            value: ConfigValueView::PosInt(5),
            description: "Tier 1: Total maintainer signatures available"@,
        },
        DefaultSettingView {
            key: "tier_1_review_period_days"@,
            category: ConfigCategory::TimeWindows,
            value: ConfigValueView::PosInt(7),
            description: "Tier 1: Minimum review period in days"@,
        },
        DefaultSettingView {
            key: "tier_2_signatures_required"@,
            category: ConfigCategory::Thresholds,
            value: ConfigValueView::PosInt(4),
            description: "Tier 2: Required maintainer signatures (out of total)"@,
        },
        DefaultSettingView {
            key: "tier_2_signatures_total"@,
            category: ConfigCategory::Thresholds,
            value: ConfigValueView::PosInt(5),
            description: "Tier 2: Total maintainer signatures available"@,
        },
        DefaultSettingView {
            key: "tier_2_review_period_days"@,
            category: ConfigCategory::TimeWindows,
            value: ConfigValueView::PosInt(30),
            description: "Tier 2: Minimum review period in days"@,
        },
        DefaultSettingView {
            key: "tier_3_signatures_required"@,
            category: ConfigCategory::Thresholds,
            value: ConfigValueView::PosInt(5),
            description: "Tier 3: Required maintainer signatures (out of total)"@,
        },
        DefaultSettingView {
            key: "tier_3_signatures_total"@,
            category: ConfigCategory::Thresholds,
            value: ConfigValueView::PosInt(5),
            description: "Tier 3: Total maintainer signatures available"@,
        },
        DefaultSettingView {
            key: "tier_3_review_period_days"@,
            category: ConfigCategory::TimeWindows,
            value: ConfigValueView::PosInt(90),
            description: "Tier 3: Minimum review period in days"@,
        },
        DefaultSettingView {
            key: "tier_4_signatures_required"@,
            category: ConfigCategory::Thresholds,
            value: ConfigValueView::PosInt(4),
            description: "Tier 4: Required maintainer signatures (out of total)"@,
        },
        DefaultSettingView {
            key: "tier_4_signatures_total"@,
            category: ConfigCategory::Thresholds,
            value: ConfigValueView::PosInt(5),
            description: "Tier 4: Total maintainer signatures available"@,
        },
        DefaultSettingView {
            key: "tier_4_review_period_days"@,
            category: ConfigCategory::TimeWindows,
            value: ConfigValueView::PosInt(0),
            description: "Tier 4: Minimum review period in days (emergency)"@,
        },
        DefaultSettingView {
            key: "tier_5_signatures_required"@,
            category: ConfigCategory::Thresholds,
            value: ConfigValueView::PosInt(5),
            description: "Tier 5: Required maintainer signatures (out of total)"@,
        },
        DefaultSettingView {
            key: "tier_5_signatures_total"@,
            category: ConfigCategory::Thresholds,
            value: ConfigValueView::PosInt(5),
            description: "Tier 5: Total maintainer signatures available"@,
        },
        DefaultSettingView {
            key: "tier_5_review_period_days"@,
            category: ConfigCategory::TimeWindows,
            value: ConfigValueView::PosInt(180),
            description: "Tier 5: Minimum review period in days (constitutional changes)"@,
        },
    ]
}

/// The signatures and review periods of the five action tiers.
pub fn tier_settings() -> (settings: Vec<DefaultSetting>)
    ensures
        settings_view(settings@) == tier_defaults(),
{
    let mut settings: Vec<DefaultSetting> = Vec::new();
    settings.push(
        setting(
            "tier_1_signatures_required",
            ConfigCategory::Thresholds,
            ConfigValue::PosInt(3),
            "Tier 1: Required maintainer signatures (out of total)",
        ),
    );
    settings.push(
        setting(
            "tier_1_signatures_total",
            ConfigCategory::Thresholds,
            ConfigValue::PosInt(5),
            "Tier 1: Total maintainer signatures available",
        ),
    );
    settings.push(
        setting(
            "tier_1_review_period_days",
            ConfigCategory::TimeWindows,
            ConfigValue::PosInt(7),
            "Tier 1: Minimum review period in days",
        ),
    );
    settings.push(
        setting(
            "tier_2_signatures_required",
            ConfigCategory::Thresholds,
            ConfigValue::PosInt(4),
            "Tier 2: Required maintainer signatures (out of total)",
        ),
    );
    settings.push(
        setting(
            "tier_2_signatures_total",
            ConfigCategory::Thresholds,
            ConfigValue::PosInt(5),
            "Tier 2: Total maintainer signatures available",
        ),
    );
    settings.push(
        setting(
            "tier_2_review_period_days",
            ConfigCategory::TimeWindows,
            ConfigValue::PosInt(30),
            "Tier 2: Minimum review period in days",
        ),
    );
    settings.push(
        setting(
            "tier_3_signatures_required",
            ConfigCategory::Thresholds,
            ConfigValue::PosInt(5),
            "Tier 3: Required maintainer signatures (out of total)",
        ),
    );
    settings.push(
        setting(
            "tier_3_signatures_total",
            ConfigCategory::Thresholds,
            ConfigValue::PosInt(5),
            "Tier 3: Total maintainer signatures available",
        ),
    );
    settings.push(
        setting(
            "tier_3_review_period_days",
            ConfigCategory::TimeWindows,
            ConfigValue::PosInt(90),
            "Tier 3: Minimum review period in days",
        ),
    );
    settings.push(
        setting(
            "tier_4_signatures_required",
            ConfigCategory::Thresholds,
            ConfigValue::PosInt(4),
            "Tier 4: Required maintainer signatures (out of total)",
        ),
    );
    settings.push(
        setting(
            "tier_4_signatures_total",
            ConfigCategory::Thresholds,
            ConfigValue::PosInt(5),
            "Tier 4: Total maintainer signatures available",
        ),
    );
    settings.push(
        setting(
            "tier_4_review_period_days",
            ConfigCategory::TimeWindows,
            ConfigValue::PosInt(0),
            "Tier 4: Minimum review period in days (emergency)",
        ),
    );
    settings.push(
        setting(
            "tier_5_signatures_required",
            ConfigCategory::Thresholds,
            ConfigValue::PosInt(5),
            "Tier 5: Required maintainer signatures (out of total)",
        ),
    );
    settings.push(
        setting(
            "tier_5_signatures_total",
            ConfigCategory::Thresholds,
            ConfigValue::PosInt(5),
            "Tier 5: Total maintainer signatures available",
        ),
    );
    settings.push(
        setting(
            "tier_5_review_period_days",
            ConfigCategory::TimeWindows,
            ConfigValue::PosInt(180),
            "Tier 5: Minimum review period in days (constitutional changes)",
        ),
    );
    settings
}

/// The shares at which the objections of economic nodes block a change.
pub open spec fn veto_defaults() -> Seq<DefaultSettingView> {
    seq![
        DefaultSettingView {
            key: "veto_tier_3_mining_percent"@,
            category: ConfigCategory::Thresholds,
            value: ConfigValueView::Fixed(3_000_000_000),
            description: "Tier 3: Minimum mining hashpower percentage to trigger veto"@,
        },
        DefaultSettingView {
            key: "veto_tier_3_economic_percent"@,
            category: ConfigCategory::Thresholds,
            value: ConfigValueView::Fixed(4_000_000_000),
            description: "Tier 3: Minimum economic activity percentage to trigger veto"@,
        },
        DefaultSettingView {
            key: "veto_tier_4_mining_percent"@,
            category: ConfigCategory::Thresholds,
            value: ConfigValueView::Fixed(2_500_000_000),
            description: "Tier 4: Minimum mining hashpower percentage to trigger veto (emergency)"@,
        },
        DefaultSettingView {
            key: "veto_tier_4_economic_percent"@,
            category: ConfigCategory::Thresholds,
            value: ConfigValueView::Fixed(3_500_000_000),
            description: "Tier 4: Minimum economic activity percentage to trigger veto (emergency)"@,
        },
        DefaultSettingView {
            key: "veto_tier_4_window_hours"@,
            category: ConfigCategory::TimeWindows,
            value: ConfigValueView::PosInt(24),
            description: "Tier 4: Veto window in hours (emergency actions)"@,
        },
        DefaultSettingView {
            key: "signaling_tier_5_mining_percent"@,
            category: ConfigCategory::Thresholds,
            value: ConfigValueView::Fixed(5_000_000_000),
            description: "Tier 5: Minimum mining hashpower percentage required for support"@,
        },
        DefaultSettingView {
            key: "signaling_tier_5_economic_percent"@,
            category: ConfigCategory::Thresholds,
            value: ConfigValueView::Fixed(6_000_000_000),
            description: "Tier 5: Minimum economic activity percentage required for support"@,
        },
    ]
}

/// The shares at which the objections of economic nodes block a change.
pub fn veto_settings() -> (settings: Vec<DefaultSetting>)
    ensures
        settings_view(settings@) == veto_defaults(),
{
    let mut settings: Vec<DefaultSetting> = Vec::new();
    settings.push(
        setting(
            "veto_tier_3_mining_percent",
            ConfigCategory::Thresholds,
            ConfigValue::Fixed(3_000_000_000),
            "Tier 3: Minimum mining hashpower percentage to trigger veto",
        ),
    );
    settings.push(
        setting(
            "veto_tier_3_economic_percent",
            ConfigCategory::Thresholds,
            ConfigValue::Fixed(4_000_000_000),
            "Tier 3: Minimum economic activity percentage to trigger veto",
        ),
    );
    settings.push(
        setting(
            "veto_tier_4_mining_percent",
            ConfigCategory::Thresholds,
            ConfigValue::Fixed(2_500_000_000),
            "Tier 4: Minimum mining hashpower percentage to trigger veto (emergency)",
        ),
    );
    settings.push(
        setting(
            "veto_tier_4_economic_percent",
            ConfigCategory::Thresholds,
            ConfigValue::Fixed(3_500_000_000),
            "Tier 4: Minimum economic activity percentage to trigger veto (emergency)",
        ),
    );
    settings.push(
        setting(
            "veto_tier_4_window_hours",
            ConfigCategory::TimeWindows,
            ConfigValue::PosInt(24),
            "Tier 4: Veto window in hours (emergency actions)",
        ),
    );
    settings.push(
        setting(
            "signaling_tier_5_mining_percent",
            ConfigCategory::Thresholds,
            ConfigValue::Fixed(5_000_000_000),
            "Tier 5: Minimum mining hashpower percentage required for support",
        ),
    );
    settings.push(
        setting(
            "signaling_tier_5_economic_percent",
            ConfigCategory::Thresholds,
            ConfigValue::Fixed(6_000_000_000),
            "Tier 5: Minimum economic activity percentage required for support",
        ),
    );
    settings
}

/// The least contributions of community contributors, and how their weight is calculated.
pub open spec fn commons_defaults() -> Seq<DefaultSettingView> {
    seq![
        DefaultSettingView {
            key: "commons_contributor_measurement_period_days"@,
            category: ConfigCategory::TimeWindows,
            value: ConfigValueView::PosInt(90),
            description: "Commons Contributor: Rolling measurement period in days"@,
        },
        DefaultSettingView {
            key: "commons_contributor_qualification_logic"@,
            category: ConfigCategory::FeatureFlags,
            value: ConfigValueView::Text("OR"@),
            description: "Commons Contributor: Qualification logic (OR = any threshold, AND = all thresholds)"@,
        },
        DefaultSettingView {
            key: "commons_contributor_min_merge_mining_btc"@,
            category: ConfigCategory::Thresholds,
            value: ConfigValueView::Fixed(1_000_000),
            description: "Commons Contributor: Minimum merge mining contribution (BTC over measurement period)"@,
        },
        DefaultSettingView {
            key: "commons_contributor_min_fee_forwarding_btc"@,
            category: ConfigCategory::Thresholds,
            value: ConfigValueView::Fixed(10_000_000),
            description: "Commons Contributor: Minimum fee forwarding contribution (BTC over measurement period)"@,
        },
        DefaultSettingView {
            key: "commons_contributor_min_zaps_btc"@,
            category: ConfigCategory::Thresholds,
            value: ConfigValueView::Fixed(1_000_000),
            description: "Commons Contributor: Minimum zap contributions (BTC over measurement period)"@,
        },
        DefaultSettingView {
            key: "commons_contributor_min_marketplace_btc"@,
            category: ConfigCategory::Thresholds,
            value: ConfigValueView::Fixed(1_000_000),
            description: "Commons Contributor: Minimum marketplace sales (BTC over measurement period)"@,
        },
        DefaultSettingView {
            key: "commons_contributor_weight_normalization_factor"@,
            category: ConfigCategory::Thresholds,
            value: ConfigValueView::Fixed(100_000_000),
            description: "Commons Contributor: Weight normalization factor (1 BTC = 1.0 weight)"@,
        },
        DefaultSettingView {
            key: "commons_contributor_min_weight"@,
            category: ConfigCategory::Thresholds,
            value: ConfigValueView::Fixed(1_000_000),
            description: "Commons Contributor: Minimum weight to qualify (prevents dust)"@,
        },
    ]
}

/// The least contributions of community contributors, and how their weight is calculated.
pub fn commons_settings() -> (settings: Vec<DefaultSetting>)
    ensures
        settings_view(settings@) == commons_defaults(),
{
    let mut settings: Vec<DefaultSetting> = Vec::new();
    settings.push(
        setting(
            "commons_contributor_measurement_period_days",
            ConfigCategory::TimeWindows,
            ConfigValue::PosInt(90),
            "Commons Contributor: Rolling measurement period in days",
        ),
    );
    settings.push(
        setting(
            "commons_contributor_qualification_logic",
            ConfigCategory::FeatureFlags,
            ConfigValue::Text("OR".to_owned()),
            "Commons Contributor: Qualification logic (OR = any threshold, AND = all thresholds)",
        ),
    );
    settings.push(
        setting(
            "commons_contributor_min_merge_mining_btc",
            ConfigCategory::Thresholds,
            ConfigValue::Fixed(1_000_000),
            "Commons Contributor: Minimum merge mining contribution (BTC over measurement period)",
        ),
    );
    settings.push(
        setting(
            "commons_contributor_min_fee_forwarding_btc",
            ConfigCategory::Thresholds,
            ConfigValue::Fixed(10_000_000),
            "Commons Contributor: Minimum fee forwarding contribution (BTC over measurement period)",
        ),
    );
    settings.push(
        setting(
            "commons_contributor_min_zaps_btc",
            ConfigCategory::Thresholds,
            ConfigValue::Fixed(1_000_000),
            "Commons Contributor: Minimum zap contributions (BTC over measurement period)",
        ),
    );
    settings.push(
        setting(
            "commons_contributor_min_marketplace_btc",
            ConfigCategory::Thresholds,
            ConfigValue::Fixed(1_000_000),
            "Commons Contributor: Minimum marketplace sales (BTC over measurement period)",
        ),
    );
    settings.push(
        setting(
            "commons_contributor_weight_normalization_factor",
            ConfigCategory::Thresholds,
            ConfigValue::Fixed(100_000_000),
            "Commons Contributor: Weight normalization factor (1 BTC = 1.0 weight)",
        ),
    );
    settings.push(
        setting(
            "commons_contributor_min_weight",
            ConfigCategory::Thresholds,
            ConfigValue::Fixed(1_000_000),
            "Commons Contributor: Minimum weight to qualify (prevents dust)",
        ),
    );
    settings
}

/// The boundaries between the phases of the network.
pub open spec fn phase_defaults() -> Seq<DefaultSettingView> {
    seq![
        DefaultSettingView {
            key: "phase_early_max_blocks"@,
            category: ConfigCategory::Thresholds,
            value: ConfigValueView::PosInt(50_000),
            description: "Governance Phase: Maximum block height for Early phase"@,
        },
        DefaultSettingView {
            key: "phase_early_max_nodes"@,
            category: ConfigCategory::Thresholds,
            value: ConfigValueView::PosInt(10),
            description: "Governance Phase: Maximum economic nodes for Early phase"@,
        },
        DefaultSettingView {
            key: "phase_early_max_contributors"@,
            category: ConfigCategory::Thresholds,
            value: ConfigValueView::PosInt(10),
            description: "Governance Phase: Maximum Commons contributors for Early phase"@,
        },
        DefaultSettingView {
            key: "phase_growth_min_blocks"@,
            category: ConfigCategory::Thresholds,
            value: ConfigValueView::PosInt(50_000),
            description: "Governance Phase: Minimum block height for Growth phase"@,
        },
        DefaultSettingView {
            key: "phase_growth_max_blocks"@,
            category: ConfigCategory::Thresholds,
            value: ConfigValueView::PosInt(200_000),
            description: "Governance Phase: Maximum block height for Growth phase"@,
        },
        DefaultSettingView {
            key: "phase_growth_min_nodes"@,
            category: ConfigCategory::Thresholds,
            value: ConfigValueView::PosInt(10),
            description: "Governance Phase: Minimum economic nodes for Growth phase"@,
        },
        DefaultSettingView {
            key: "phase_growth_max_nodes"@,
            category: ConfigCategory::Thresholds,
            value: ConfigValueView::PosInt(30),
            description: "Governance Phase: Maximum economic nodes for Growth phase"@,
        },
        DefaultSettingView {
            key: "phase_growth_min_contributors"@,
            category: ConfigCategory::Thresholds,
            value: ConfigValueView::PosInt(10),
            description: "Governance Phase: Minimum Commons contributors for Growth phase"@,
        },
        DefaultSettingView {
            key: "phase_growth_max_contributors"@,
            category: ConfigCategory::Thresholds,
            value: ConfigValueView::PosInt(100),
            description: "Governance Phase: Maximum Commons contributors for Growth phase"@,
        },
        DefaultSettingView {
            key: "phase_mature_min_blocks"@,
            category: ConfigCategory::Thresholds,
            value: ConfigValueView::PosInt(200_000),
            description: "Governance Phase: Minimum block height for Mature phase"@,
        },
        DefaultSettingView {
            key: "phase_mature_min_nodes"@,
            category: ConfigCategory::Thresholds,
            value: ConfigValueView::PosInt(30),
            description: "Governance Phase: Minimum economic nodes for Mature phase"@,
        },
        DefaultSettingView {
            key: "phase_mature_min_contributors"@,
            category: ConfigCategory::Thresholds,
            value: ConfigValueView::PosInt(100),
            description: "Governance Phase: Minimum Commons contributors for Mature phase"@,
        },
    ]
}

/// The boundaries between the phases of the network.
pub fn phase_settings() -> (settings: Vec<DefaultSetting>)
    ensures
        settings_view(settings@) == phase_defaults(),
{
    let mut settings: Vec<DefaultSetting> = Vec::new();
    settings.push(
        setting(
            "phase_early_max_blocks",
            ConfigCategory::Thresholds,
            ConfigValue::PosInt(50_000),
            "Governance Phase: Maximum block height for Early phase",
        ),
    );
    settings.push(
        setting(
            "phase_early_max_nodes",
            ConfigCategory::Thresholds,
            ConfigValue::PosInt(10),
            "Governance Phase: Maximum economic nodes for Early phase",
        ),
    );
    settings.push(
        setting(
            "phase_early_max_contributors",
            ConfigCategory::Thresholds,
            ConfigValue::PosInt(10),
            "Governance Phase: Maximum Commons contributors for Early phase",
        ),
    );
    settings.push(
        setting(
            "phase_growth_min_blocks",
            ConfigCategory::Thresholds,
            ConfigValue::PosInt(50_000),
            "Governance Phase: Minimum block height for Growth phase",
        ),
    );
    settings.push(
        setting(
            "phase_growth_max_blocks",
            ConfigCategory::Thresholds,
            ConfigValue::PosInt(200_000),
            "Governance Phase: Maximum block height for Growth phase",
        ),
    );
    settings.push(
        setting(
            "phase_growth_min_nodes",
            ConfigCategory::Thresholds,
            ConfigValue::PosInt(10),
            "Governance Phase: Minimum economic nodes for Growth phase",
        ),
    );
    settings.push(
        setting(
            "phase_growth_max_nodes",
            ConfigCategory::Thresholds,
            ConfigValue::PosInt(30),
            "Governance Phase: Maximum economic nodes for Growth phase",
        ),
    );
    settings.push(
        setting(
            "phase_growth_min_contributors",
            ConfigCategory::Thresholds,
            ConfigValue::PosInt(10),
            "Governance Phase: Minimum Commons contributors for Growth phase",
        ),
    );
    settings.push(
        setting(
            "phase_growth_max_contributors",
            ConfigCategory::Thresholds,
            ConfigValue::PosInt(100),
            "Governance Phase: Maximum Commons contributors for Growth phase",
        ),
    );
    settings.push(
        setting(
            "phase_mature_min_blocks",
            ConfigCategory::Thresholds,
            ConfigValue::PosInt(200_000),
            "Governance Phase: Minimum block height for Mature phase",
        ),
    );
    settings.push(
        setting(
            "phase_mature_min_nodes",
            ConfigCategory::Thresholds,
            ConfigValue::PosInt(30),
            "Governance Phase: Minimum economic nodes for Mature phase",
        ),
    );
    settings.push(
        setting(
            "phase_mature_min_contributors",
            ConfigCategory::Thresholds,
            ConfigValue::PosInt(100),
            "Governance Phase: Minimum Commons contributors for Mature phase",
        ),
    );
    settings
}

/// The signatures and review periods of the repository layers.
pub open spec fn layer_defaults() -> Seq<DefaultSettingView> {
    seq![
        DefaultSettingView {
            key: "layer_1_2_signatures_required"@,
            category: ConfigCategory::Thresholds,
            value: ConfigValueView::PosInt(6),
            description: "Layer 1-2: Required maintainer signatures (constitutional layer)"@,
        },
        DefaultSettingView {
            key: "layer_1_2_signatures_total"@,
            category: ConfigCategory::Thresholds,
            value: ConfigValueView::PosInt(7),
            description: "Layer 1-2: Total maintainer signatures available"@,
        },
        DefaultSettingView {
            key: "layer_1_2_review_period_days"@,
            category: ConfigCategory::TimeWindows,
            value: ConfigValueView::PosInt(180),
            description: "Layer 1-2: Minimum review period in days"@,
        },
        DefaultSettingView {
            key: "layer_3_signatures_required"@,
            category: ConfigCategory::Thresholds,
            value: ConfigValueView::PosInt(4),
            description: "Layer 3: Required maintainer signatures (protocol engine)"@,
        },
        DefaultSettingView {
            key: "layer_3_signatures_total"@,
            category: ConfigCategory::Thresholds,
            value: ConfigValueView::PosInt(5),
            description: "Layer 3: Total maintainer signatures available"@,
        },
        DefaultSettingView {
            key: "layer_3_review_period_days"@,
            category: ConfigCategory::TimeWindows,
            value: ConfigValueView::PosInt(90),
            description: "Layer 3: Minimum review period in days"@,
        },
        DefaultSettingView {
            key: "layer_4_signatures_required"@,
            category: ConfigCategory::Thresholds,
            value: ConfigValueView::PosInt(3),
            description: "Layer 4: Required maintainer signatures (reference node)"@,
        },
        DefaultSettingView {
            key: "layer_4_signatures_total"@,
            category: ConfigCategory::Thresholds,
            value: ConfigValueView::PosInt(5),
            description: "Layer 4: Total maintainer signatures available"@,
        },
        DefaultSettingView {
            key: "layer_4_review_period_days"@,
            category: ConfigCategory::TimeWindows,
            value: ConfigValueView::PosInt(60),
            description: "Layer 4: Minimum review period in days"@,
        },
        DefaultSettingView {
            key: "layer_5_signatures_required"@,
            category: ConfigCategory::Thresholds,
            value: ConfigValueView::PosInt(2),
            description: "Layer 5: Required maintainer signatures (developer SDK)"@,
        },
        DefaultSettingView {
            key: "layer_5_signatures_total"@,
            category: ConfigCategory::Thresholds,
            value: ConfigValueView::PosInt(3),
            description: "Layer 5: Total maintainer signatures available"@,
        },
        DefaultSettingView {
            key: "layer_5_review_period_days"@,
            category: ConfigCategory::TimeWindows,
            value: ConfigValueView::PosInt(14),
            description: "Layer 5: Minimum review period in days"@,
        },
    ]
}

/// The signatures and review periods of the repository layers.
pub fn layer_settings() -> (settings: Vec<DefaultSetting>)
    ensures
        settings_view(settings@) == layer_defaults(),
{
    let mut settings: Vec<DefaultSetting> = Vec::new();
    settings.push(
        setting(
            "layer_1_2_signatures_required",
            ConfigCategory::Thresholds,
            ConfigValue::PosInt(6),
            "Layer 1-2: Required maintainer signatures (constitutional layer)",
        ),
    );
    settings.push(
        setting(
            "layer_1_2_signatures_total",
            ConfigCategory::Thresholds,
            ConfigValue::PosInt(7),
            "Layer 1-2: Total maintainer signatures available",
        ),
    );
    settings.push(
        setting(
            "layer_1_2_review_period_days",
            ConfigCategory::TimeWindows,
            ConfigValue::PosInt(180),
            "Layer 1-2: Minimum review period in days",
        ),
    );
    settings.push(
        setting(
            "layer_3_signatures_required",
            ConfigCategory::Thresholds,
            ConfigValue::PosInt(4),
            "Layer 3: Required maintainer signatures (protocol engine)",
        ),
    );
    settings.push(
        setting(
            "layer_3_signatures_total",
            ConfigCategory::Thresholds,
            ConfigValue::PosInt(5),
            "Layer 3: Total maintainer signatures available",
        ),
    );
    settings.push(
        setting(
            "layer_3_review_period_days",
            ConfigCategory::TimeWindows,
            ConfigValue::PosInt(90),
            "Layer 3: Minimum review period in days",
        ),
    );
    settings.push(
        setting(
            "layer_4_signatures_required",
            ConfigCategory::Thresholds,
            ConfigValue::PosInt(3),
            "Layer 4: Required maintainer signatures (reference node)",
        ),
    );
    settings.push(
        setting(
            "layer_4_signatures_total",
            ConfigCategory::Thresholds,
            ConfigValue::PosInt(5),
            "Layer 4: Total maintainer signatures available",
        ),
    );
    settings.push(
        setting(
            "layer_4_review_period_days",
            ConfigCategory::TimeWindows,
            ConfigValue::PosInt(60),
            "Layer 4: Minimum review period in days",
        ),
    );
    settings.push(
        setting(
            "layer_5_signatures_required",
            ConfigCategory::Thresholds,
            ConfigValue::PosInt(2),
            "Layer 5: Required maintainer signatures (developer SDK)",
        ),
    );
    settings.push(
        setting(
            "layer_5_signatures_total",
            ConfigCategory::Thresholds,
            ConfigValue::PosInt(3),
            "Layer 5: Total maintainer signatures available",
        ),
    );
    settings.push(
        setting(
            "layer_5_review_period_days",
            ConfigCategory::TimeWindows,
            ConfigValue::PosInt(14),
            "Layer 5: Minimum review period in days",
        ),
    );
    settings
}

/// The thresholds and durations of the emergency tiers.
pub open spec fn emergency_defaults() -> Seq<DefaultSettingView> {
    seq![
        DefaultSettingView {
            key: "emergency_tier_1_activation_threshold"@,
            category: ConfigCategory::Thresholds,
            value: ConfigValueView::Text("5-of-7"@),
            description: "Emergency Tier 1: Activation threshold (critical emergencies)"@,
        },
        DefaultSettingView {
            key: "emergency_tier_1_signature_threshold"@,
            category: ConfigCategory::Thresholds,
            value: ConfigValueView::Text("4-of-7"@),
            description: "Emergency Tier 1: Signature threshold for PRs"@,
        },
        DefaultSettingView {
            key: "emergency_tier_1_max_duration_days"@,
            category: ConfigCategory::TimeWindows,
            value: ConfigValueView::PosInt(7),
            description: "Emergency Tier 1: Maximum duration in days"@,
        },
        DefaultSettingView {
            key: "emergency_tier_2_activation_threshold"@,
            category: ConfigCategory::Thresholds,
            value: ConfigValueView::Text("5-of-7"@),
            description: "Emergency Tier 2: Activation threshold (urgent security)"@,
        },
        DefaultSettingView {
            key: "emergency_tier_2_signature_threshold"@,
            category: ConfigCategory::Thresholds,
            value: ConfigValueView::Text("5-of-7"@),
            description: "Emergency Tier 2: Signature threshold for PRs"@,
        },
        DefaultSettingView {
            key: "emergency_tier_2_review_period_days"@,
            category: ConfigCategory::TimeWindows,
            value: ConfigValueView::PosInt(7),
            description: "Emergency Tier 2: Review period in days"@,
        },
        DefaultSettingView {
            key: "emergency_tier_2_max_duration_days"@,
            category: ConfigCategory::TimeWindows,
            value: ConfigValueView::PosInt(30),
            description: "Emergency Tier 2: Maximum duration in days"@,
        },
        DefaultSettingView {
            key: "emergency_tier_2_max_extensions"@,
            category: ConfigCategory::Limits,
            value: ConfigValueView::PosInt(1),
            description: "Emergency Tier 2: Maximum allowed extensions"@,
        },
        DefaultSettingView {
            key: "emergency_tier_3_activation_threshold"@,
            category: ConfigCategory::Thresholds,
            value: ConfigValueView::Text("5-of-7"@),
            description: "Emergency Tier 3: Activation threshold (elevated priority)"@,
        },
        DefaultSettingView {
            key: "emergency_tier_3_signature_threshold"@,
            category: ConfigCategory::Thresholds,
            value: ConfigValueView::Text("6-of-7"@),
            description: "Emergency Tier 3: Signature threshold for PRs"@,
        },
        DefaultSettingView {
            key: "emergency_tier_3_review_period_days"@,
            category: ConfigCategory::TimeWindows,
            value: ConfigValueView::PosInt(30),
            description: "Emergency Tier 3: Review period in days"@,
        },
        DefaultSettingView {
            key: "emergency_tier_3_max_duration_days"@,
            category: ConfigCategory::TimeWindows,
            value: ConfigValueView::PosInt(90),
            description: "Emergency Tier 3: Maximum duration in days"@,
        },
        DefaultSettingView {
            key: "emergency_tier_3_max_extensions"@,
            category: ConfigCategory::Limits,
            value: ConfigValueView::PosInt(2),
            description: "Emergency Tier 3: Maximum allowed extensions"@,
        },
    ]
}

/// The thresholds and durations of the emergency tiers.
pub fn emergency_settings() -> (settings: Vec<DefaultSetting>)
    ensures
        settings_view(settings@) == emergency_defaults(),
{
    let mut settings: Vec<DefaultSetting> = Vec::new();
    settings.push(
        setting(
            "emergency_tier_1_activation_threshold",
            ConfigCategory::Thresholds,
            ConfigValue::Text("5-of-7".to_owned()),
            "Emergency Tier 1: Activation threshold (critical emergencies)",
        ),
    );
    settings.push(
        setting(
            "emergency_tier_1_signature_threshold",
            ConfigCategory::Thresholds,
            ConfigValue::Text("4-of-7".to_owned()),
            "Emergency Tier 1: Signature threshold for PRs",
        ),
    );
    settings.push(
        setting(
            "emergency_tier_1_max_duration_days",
            ConfigCategory::TimeWindows,
            ConfigValue::PosInt(7),
            "Emergency Tier 1: Maximum duration in days",
        ),
    );
    settings.push(
        setting(
            "emergency_tier_2_activation_threshold",
            ConfigCategory::Thresholds,
            ConfigValue::Text("5-of-7".to_owned()),
            "Emergency Tier 2: Activation threshold (urgent security)",
        ),
    );
    settings.push(
        setting(
            "emergency_tier_2_signature_threshold",
            ConfigCategory::Thresholds,
            ConfigValue::Text("5-of-7".to_owned()),
            "Emergency Tier 2: Signature threshold for PRs",
        ),
    );
    settings.push(
        setting(
            "emergency_tier_2_review_period_days",
            ConfigCategory::TimeWindows,
            ConfigValue::PosInt(7),
            "Emergency Tier 2: Review period in days",
        ),
    );
    settings.push(
        setting(
            "emergency_tier_2_max_duration_days",
            ConfigCategory::TimeWindows,
            ConfigValue::PosInt(30),
            "Emergency Tier 2: Maximum duration in days",
        ),
    );
    settings.push(
        setting(
            "emergency_tier_2_max_extensions",
            ConfigCategory::Limits,
            ConfigValue::PosInt(1),
            "Emergency Tier 2: Maximum allowed extensions",
        ),
    );
    settings.push(
        setting(
            "emergency_tier_3_activation_threshold",
            ConfigCategory::Thresholds,
            ConfigValue::Text("5-of-7".to_owned()),
            "Emergency Tier 3: Activation threshold (elevated priority)",
        ),
    );
    settings.push(
        setting(
            "emergency_tier_3_signature_threshold",
            ConfigCategory::Thresholds,
            ConfigValue::Text("6-of-7".to_owned()),
            "Emergency Tier 3: Signature threshold for PRs",
        ),
    );
    settings.push(
        setting(
            "emergency_tier_3_review_period_days",
            ConfigCategory::TimeWindows,
            ConfigValue::PosInt(30),
            "Emergency Tier 3: Review period in days",
        ),
    );
    settings.push(
        setting(
            "emergency_tier_3_max_duration_days",
            ConfigCategory::TimeWindows,
            ConfigValue::PosInt(90),
            "Emergency Tier 3: Maximum duration in days",
        ),
    );
    settings.push(
        setting(
            "emergency_tier_3_max_extensions",
            ConfigCategory::Limits,
            ConfigValue::PosInt(2),
            "Emergency Tier 3: Maximum allowed extensions",
        ),
    );
    settings
}

/// The thresholds and deadlines of the review of maintainers.
pub open spec fn review_defaults() -> Seq<DefaultSettingView> {
    seq![
        DefaultSettingView {
            key: "governance_review_private_warning_threshold"@,
            category: ConfigCategory::Thresholds,
            value: ConfigValueView::Text("4-of-7"@),
            description: "Governance Review: Private warning threshold"@,
        },
        DefaultSettingView {
            key: "governance_review_public_warning_threshold"@,
            category: ConfigCategory::Thresholds,
            value: ConfigValueView::Text("5-of-7"@),
            description: "Governance Review: Public warning threshold"@,
        },
        DefaultSettingView {
            key: "governance_review_removal_threshold"@,
            category: ConfigCategory::Thresholds,
            value: ConfigValueView::Text("6-of-7"@),
            description: "Governance Review: Removal threshold"@,
        },
        DefaultSettingView {
            key: "governance_review_inter_team_removal_threshold"@,
            category: ConfigCategory::Thresholds,
            value: ConfigValueView::Text("4-of-7"@),
            description: "Governance Review: Inter-team removal threshold (teams)"@,
        },
        DefaultSettingView {
            key: "governance_review_improvement_period_days"@,
            category: ConfigCategory::TimeWindows,
            value: ConfigValueView::PosInt(90),
            description: "Governance Review: Improvement period in days (public warnings)"@,
        },
        DefaultSettingView {
            key: "governance_review_response_deadline_days"@,
            category: ConfigCategory::TimeWindows,
            value: ConfigValueView::PosInt(30),
            description: "Governance Review: Response deadline in days"@,
        },
        DefaultSettingView {
            key: "governance_review_resolution_deadline_days"@,
            category: ConfigCategory::TimeWindows,
            value: ConfigValueView::PosInt(180),
            description: "Governance Review: Resolution deadline in days"@,
        },
        DefaultSettingView {
            key: "governance_review_appeal_deadline_days"@,
            category: ConfigCategory::TimeWindows,
            value: ConfigValueView::PosInt(60),
            description: "Governance Review: Appeal deadline in days"@,
        },
        DefaultSettingView {
            key: "governance_review_mediation_period_days"@,
            category: ConfigCategory::TimeWindows,
            value: ConfigValueView::PosInt(30),
            description: "Governance Review: Mediation period in days"@,
        },
        DefaultSettingView {
            key: "governance_review_emergency_removal_threshold"@,
            category: ConfigCategory::Thresholds,
            value: ConfigValueView::Text("4-of-5"@),
            description: "Governance Review: Emergency removal threshold (emergency keyholders)"@,
        },
    ]
}

/// The thresholds and deadlines of the review of maintainers.
pub fn review_settings() -> (settings: Vec<DefaultSetting>)
    ensures
        settings_view(settings@) == review_defaults(),
{
    let mut settings: Vec<DefaultSetting> = Vec::new();
    settings.push(
        setting(
            "governance_review_private_warning_threshold",
            ConfigCategory::Thresholds,
            ConfigValue::Text("4-of-7".to_owned()),
            "Governance Review: Private warning threshold",
        ),
    );
    settings.push(
        setting(
            "governance_review_public_warning_threshold",
            ConfigCategory::Thresholds,
            ConfigValue::Text("5-of-7".to_owned()),
            "Governance Review: Public warning threshold",
        ),
    );
    settings.push(
        setting(
            "governance_review_removal_threshold",
            ConfigCategory::Thresholds,
            ConfigValue::Text("6-of-7".to_owned()),
            "Governance Review: Removal threshold",
        ),
    );
    settings.push(
        setting(
            "governance_review_inter_team_removal_threshold",
            ConfigCategory::Thresholds,
            ConfigValue::Text("4-of-7".to_owned()),
            "Governance Review: Inter-team removal threshold (teams)",
        ),
    );
    settings.push(
        setting(
            "governance_review_improvement_period_days",
            ConfigCategory::TimeWindows,
            ConfigValue::PosInt(90),
            "Governance Review: Improvement period in days (public warnings)",
        ),
    );
    settings.push(
        setting(
            "governance_review_response_deadline_days",
            ConfigCategory::TimeWindows,
            ConfigValue::PosInt(30),
            "Governance Review: Response deadline in days",
        ),
    );
    settings.push(
        setting(
            "governance_review_resolution_deadline_days",
            ConfigCategory::TimeWindows,
            ConfigValue::PosInt(180),
            "Governance Review: Resolution deadline in days",
        ),
    );
    settings.push(
        setting(
            "governance_review_appeal_deadline_days",
            ConfigCategory::TimeWindows,
            ConfigValue::PosInt(60),
            "Governance Review: Appeal deadline in days",
        ),
    );
    settings.push(
        setting(
            "governance_review_mediation_period_days",
            ConfigCategory::TimeWindows,
            ConfigValue::PosInt(30),
            "Governance Review: Mediation period in days",
        ),
    );
    settings.push(
        setting(
            "governance_review_emergency_removal_threshold",
            ConfigCategory::Thresholds,
            ConfigValue::Text("4-of-5".to_owned()),
            "Governance Review: Emergency removal threshold (emergency keyholders)",
        ),
    );
    settings
}

/// Which features are switched on.
pub open spec fn feature_defaults() -> Seq<DefaultSettingView> {
    seq![
        DefaultSettingView {
            key: "feature_governance_enforcement"@,
            category: ConfigCategory::FeatureFlags,
            value: ConfigValueView::Bool(false),
            description: "Feature Flag: Enable governance enforcement (Phase 2 activation)"@,
        },
        DefaultSettingView {
            key: "feature_p2p_governance"@,
            category: ConfigCategory::FeatureFlags,
            value: ConfigValueView::Bool(true),
            description: "Feature Flag: Enable P2P governance message relay"@,
        },
        DefaultSettingView {
            key: "feature_economic_node_veto"@,
            category: ConfigCategory::FeatureFlags,
            value: ConfigValueView::Bool(true),
            description: "Feature Flag: Enable economic node veto system"@,
        },
        DefaultSettingView {
            key: "feature_commons_contributor_auto_registration"@,
            category: ConfigCategory::FeatureFlags,
            value: ConfigValueView::Bool(true),
            description: "Feature Flag: Enable automatic Commons contributor registration"@,
        },
        DefaultSettingView {
            key: "feature_governance_fork"@,
            category: ConfigCategory::FeatureFlags,
            value: ConfigValueView::Bool(true),
            description: "Feature Flag: Enable governance fork mechanism"@,
        },
        DefaultSettingView {
            key: "feature_merkle_veto_proofs"@,
            category: ConfigCategory::FeatureFlags,
            value: ConfigValueView::Bool(true),
            description: "Feature Flag: Enable Merkle tree proofs for veto signals"@,
        },
        DefaultSettingView {
            key: "feature_privacy_preserving_votes"@,
            category: ConfigCategory::FeatureFlags,
            value: ConfigValueView::Bool(true),
            description: "Feature Flag: Enable privacy-preserving voting keys (BIP32)"@,
        },
    ]
}

/// Which features are switched on.
pub fn feature_settings() -> (settings: Vec<DefaultSetting>)
    ensures
        settings_view(settings@) == feature_defaults(),
{
    let mut settings: Vec<DefaultSetting> = Vec::new();
    settings.push(
        setting(
            "feature_governance_enforcement",
            ConfigCategory::FeatureFlags,
            ConfigValue::Bool(false),
            "Feature Flag: Enable governance enforcement (Phase 2 activation)",
        ),
    );
    settings.push(
        setting(
            "feature_p2p_governance",
            ConfigCategory::FeatureFlags,
            ConfigValue::Bool(true),
            "Feature Flag: Enable P2P governance message relay",
        ),
    );
    settings.push(
        setting(
            "feature_economic_node_veto",
            ConfigCategory::FeatureFlags,
            ConfigValue::Bool(true),
            "Feature Flag: Enable economic node veto system",
        ),
    );
    settings.push(
        setting(
            "feature_commons_contributor_auto_registration",
            ConfigCategory::FeatureFlags,
            ConfigValue::Bool(true),
            "Feature Flag: Enable automatic Commons contributor registration",
        ),
    );
    settings.push(
        setting(
            "feature_governance_fork",
            ConfigCategory::FeatureFlags,
            ConfigValue::Bool(true),
            "Feature Flag: Enable governance fork mechanism",
        ),
    );
    settings.push(
        setting(
            "feature_merkle_veto_proofs",
            ConfigCategory::FeatureFlags,
            ConfigValue::Bool(true),
            "Feature Flag: Enable Merkle tree proofs for veto signals",
        ),
    );
    settings.push(
        setting(
            "feature_privacy_preserving_votes",
            ConfigCategory::FeatureFlags,
            ConfigValue::Bool(true),
            "Feature Flag: Enable privacy-preserving voting keys (BIP32)",
        ),
    );
    settings
}

/// The network, and what security asks for.
pub open spec fn network_defaults() -> Seq<DefaultSettingView> {
    seq![
        DefaultSettingView {
            key: "network_default"@,
            category: ConfigCategory::Network,
            value: ConfigValueView::Text("mainnet"@),
            description: "Network: Default network (mainnet, testnet, regtest)"@,
        },
        DefaultSettingView {
            key: "security_audit_required_tier_3"@,
            category: ConfigCategory::Security,
            value: ConfigValueView::Bool(true),
            description: "Security: Require audit for Tier 3 changes"@,
        },
        DefaultSettingView {
            key: "security_formal_verification_required_layer_2"@,
            category: ConfigCategory::Security,
            value: ConfigValueView::Bool(true),
            description: "Security: Require formal verification for Layer 2 (consensus proof) changes"@,
        },
    ]
}

/// The network, and what security asks for.
pub fn network_settings() -> (settings: Vec<DefaultSetting>)
    ensures
        settings_view(settings@) == network_defaults(),
{
    let mut settings: Vec<DefaultSetting> = Vec::new();
    settings.push(
        setting(
            "network_default",
            ConfigCategory::Network,
            ConfigValue::Text("mainnet".to_owned()),
            "Network: Default network (mainnet, testnet, regtest)",
        ),
    );
    settings.push(
        setting(
            "security_audit_required_tier_3",
            ConfigCategory::Security,
            ConfigValue::Bool(true),
            "Security: Require audit for Tier 3 changes",
        ),
    );
    settings.push(
        setting(
            "security_formal_verification_required_layer_2",
            ConfigCategory::Security,
            ConfigValue::Bool(true),
            "Security: Require formal verification for Layer 2 (consensus proof) changes",
        ),
    );
    settings
}

/// Every built-in parameter, in the order of its registration.
pub open spec fn governance_defaults() -> Seq<DefaultSettingView> {
    tier_defaults() + veto_defaults() + commons_defaults() + phase_defaults() + layer_defaults() + emergency_defaults() + review_defaults() + feature_defaults() + network_defaults()
}

fn append_settings(all: &mut Vec<DefaultSetting>, mut more: Vec<DefaultSetting>)
    ensures
        settings_view(final(all)@) == settings_view(old(all)@) + settings_view(more@),
{
    all.append(&mut more);
}

/// Every built-in parameter, in the order of its registration.
pub fn default_settings() -> (settings: Vec<DefaultSetting>)
    ensures
        settings_view(settings@) == governance_defaults(),
{
    let mut settings: Vec<DefaultSetting> = Vec::new();
    append_settings(&mut settings, tier_settings());
    append_settings(&mut settings, veto_settings());
    append_settings(&mut settings, commons_settings());
    append_settings(&mut settings, phase_settings());
    append_settings(&mut settings, layer_settings());
    append_settings(&mut settings, emergency_settings());
    append_settings(&mut settings, review_settings());
    append_settings(&mut settings, feature_settings());
    append_settings(&mut settings, network_settings());
    settings
}

/// The registry after one built-in parameter was registered by the
/// system at `now`.
pub open spec fn register_default(r: RegistryView, d: DefaultSettingView, now: i64) -> RegistryView {
    r.register(
        d.key,
        d.category,
        d.value,
        Some(d.description),
        DEFAULT_TIER_REQUIREMENT,
        Some("system"@),
        now,
    )
}

/// The registry after built-in parameters were registered one after the
/// other.
pub open spec fn register_defaults(r: RegistryView, ds: Seq<DefaultSettingView>, now: i64)
    -> RegistryView
    decreases ds.len(),
{
    if ds.len() == 0 {
        r
    } else {
        register_default(register_defaults(r, ds.drop_last(), now), ds.last(), now)
    }
}

/// The registration stops at position `n`: the key there is registered
/// already, or the registry is full.
pub open spec fn default_refused(r: RegistryView, ds: Seq<DefaultSettingView>, now: i64, n: int)
    -> bool {
    0 <= n < ds.len() && (register_defaults(r, ds.take(n), now).has_key(ds[n].key)
        || register_defaults(r, ds.take(n), now).entries.len() >= i32::MAX)
}

/// Registers the given parameters one after the other. Stops with an
/// error at the first one whose key is registered already, with the
/// earlier ones registered.
pub fn register_settings(registry: &mut ConfigRegistry, settings: Vec<DefaultSetting>, now: i64) -> (result:
    Result<(), GovernanceError>)
    ensures
        final(registry)@.wf(),
        final(registry).spec_config_path() == old(registry).spec_config_path(),
        match result {
            Ok(_) => {
                &&& final(registry)@ == register_defaults(
                    old(registry)@,
                    settings_view(settings@),
                    now,
                )
                &&& forall|n: int| !#[trigger] default_refused(
                    old(registry)@,
                    settings_view(settings@),
                    now,
                    n,
                )
            },
            Err(e) => {
                &&& e is DatabaseError
                &&& exists|n: int| #[trigger]
                    default_refused(old(registry)@, settings_view(settings@), now, n) && final(registry)@
                        == register_defaults(old(registry)@, settings_view(settings@).take(n), now)
            },
        },
{
    let ghost before = registry@;
    let ghost ds = settings_view(settings@);
    let mut left = settings;
    let total: usize = left.len();
    let mut rest: Vec<DefaultSetting> = Vec::new();
    // The parameters are taken from the end of a reversed list, so that
    // each one is moved into the registry and none is copied.
    while left.len() > 0
        invariant
            left@.len() + rest@.len() == total,
            total == ds.len(),
            ds == settings_view(settings@),
            forall|k: int| 0 <= k < left@.len() ==> (#[trigger] left@[k])@ == ds[k],
            forall|k: int|
                0 <= k < rest@.len() ==> (#[trigger] rest@[k])@ == ds[total - 1 - k],
        decreases left@.len(),
    {
        match left.pop() {
            Some(s) => {
                rest.push(s);
            },
            None => {},
        }
    }
    let mut i: usize = 0;
    registry.check_wf();
    while i < total
        invariant
            i <= total,
            total == ds.len(),
            rest@.len() == total - i,
            before == old(registry)@,
            ds == settings_view(settings@),
            forall|k: int|
                0 <= k < rest@.len() ==> (#[trigger] rest@[k])@ == ds[total - 1 - k],
            registry@ == register_defaults(before, ds.take(i as int), now),
            registry@.wf(),
            registry.spec_config_path() == old(registry).spec_config_path(),
            forall|n: int| 0 <= n < i ==> !#[trigger] default_refused(before, ds, now, n),
        decreases total - i,
    {
        let s = match rest.pop() {
            Some(s) => s,
            None => {
                return Ok(());
            },
        };
        proof {
            assert(ds.take(i + 1).drop_last() =~= ds.take(i as int));
        }
        match registry.register_config(
            s.key,
            s.category,
            s.value,
            Some(s.description),
            DEFAULT_TIER_REQUIREMENT,
            Some("system"),
            now,
        ) {
            Ok(_) => {},
            Err(e) => {
                proof {
                    assert(default_refused(before, ds, now, i as int));
                }
                return Err(e);
            },
        }
        i = i + 1;
    }
    proof {
        assert(ds.take(total as int) =~= ds);
    }
    Ok(())
}

/// Registers every built-in parameter with its built-in value. Meant for
/// a registry that knows none of them yet: it stops with an error at the
/// first one whose key is registered already.
pub fn initialize_governance_defaults(registry: &mut ConfigRegistry, now: i64) -> (result: Result<
    (),
    GovernanceError,
>)
    ensures
        final(registry)@.wf(),
        final(registry).spec_config_path() == old(registry).spec_config_path(),
        match result {
            Ok(_) => {
                &&& final(registry)@ == register_defaults(old(registry)@, governance_defaults(), now)
                &&& forall|n: int| !#[trigger] default_refused(
                    old(registry)@,
                    governance_defaults(),
                    now,
                    n,
                )
            },
            Err(e) => {
                &&& e is DatabaseError
                &&& exists|n: int| #[trigger]
                    default_refused(old(registry)@, governance_defaults(), now, n) && final(registry)@
                        == register_defaults(old(registry)@, governance_defaults().take(n), now)
            },
        },
{
    let settings = default_settings();
    register_settings(registry, settings, now)
}

} // verus!
