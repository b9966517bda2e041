//! The registry of economic nodes: registration, qualification, proof of
//! control, and weights.
//!
//! A registration is refused where the evidence does not meet the
//! thresholds of the node's kind. Evidence that meets them makes a node;
//! whether the node is active at once or pending depends on its proof of
//! control. No two nodes have the same public key, and no node is ever
//! taken out of the registry.

use vstd::prelude::*;
use vstd::string::*;
use crate::collections::lemma_insert_in_order;
use crate::config::{
    logic_of, parse_logic, CommonsContributorThresholdsConfig, QualificationLogic,
};
use crate::economic_nodes::types::{
    CommonsContributorProof, EconomicNode, HoldingsProof, NodeStatus, NodeType,
    QualificationProof, QualificationThresholds,
};
use crate::economic_nodes::weight::{
    calculate_capped_share, calculate_commons_weight, calculate_exchange_weight,
    calculate_mining_pool_weight, capped_share, commons_weight, exchange_weight,
    mining_pool_weight, DEFAULT_BTC_PRICE, DEFAULT_MINIMUM_WEIGHT, DEFAULT_NORMALIZATION,
    FULL_HOLDINGS_BTC, FULL_MAJOR_HOLDINGS_BTC,
};
use crate::error::{crypto_error, database_error, database_error_about, GovernanceError};
use crate::governance::config_reader::{
    commons_logic_key, commons_period_key, commons_threshold_key, lemma_reads_stable, ConfigReader,
    ReaderView,
};
use crate::governance::config_value::{opt_str, opt_text, own_opt_str};
use crate::governance::phase_calculator::{pool_weight_cap, GovernancePhaseCalculator};
use crate::text::{join, joined};

verus! {

/// The thresholds for a community contributor, as they stand after the
/// configuration was read.
#[derive(Debug, Clone, Copy)]
pub struct CommonsSettings {
    /// The least merge-mining revenue in satoshis, nothing where
    /// merge mining does not count.
    pub merge_mining: Option<u64>,
    /// The least forwarded fees.
    pub fee_forwarding: Option<u64>,
    /// The least zaps.
    pub zaps: Option<u64>,
    /// The least marketplace sales.
    pub marketplace: Option<u64>,
    /// The least measured period, in days.
    pub measurement_period_days: u32,
    /// How the kinds combine.
    pub logic: QualificationLogic,
    /// Whether, where all kinds must be met, at least one must count.
    pub all_needs_one: bool,
}

/// A kind of contribution is met: it counts, its evidence is there, and
/// the evidence reaches the least total over the least period.
pub open spec fn kind_met(threshold: Option<u64>, shown: Option<(u64, u32)>, period: u32) -> bool {
    match (threshold, shown) {
        (Some(least), Some((total, days))) => total >= least && days >= period,
        _ => false,
    }
}

/// What the evidence shows of merge mining: the total and the period.
pub open spec fn merge_mining_shown(evidence: CommonsContributorProof) -> Option<(u64, u32)> {
    match evidence.merge_mining_proof {
        Some(p) => Some((p.total_revenue_btc, p.period_days)),
        None => None,
    }
}

/// What the evidence shows of forwarded fees.
pub open spec fn fee_forwarding_shown(evidence: CommonsContributorProof) -> Option<(u64, u32)> {
    match evidence.fee_forwarding_proof {
        Some(p) => Some((p.total_fees_forwarded_btc, p.period_days)),
        None => None,
    }
}

/// What the evidence shows of zaps.
pub open spec fn zaps_shown(evidence: CommonsContributorProof) -> Option<(u64, u32)> {
    match evidence.zap_proof {
        Some(p) => Some((p.total_zaps_btc, p.period_days)),
        None => None,
    }
}

/// What the evidence shows of marketplace sales.
pub open spec fn marketplace_shown(evidence: CommonsContributorProof) -> Option<(u64, u32)> {
    match evidence.marketplace_sales_proof {
        Some(p) => Some((p.total_sales_btc, p.period_days)),
        None => None,
    }
}

/// One for a true statement, nothing for a false one.
pub open spec fn one_if(b: bool) -> int {
    if b {
        1
    } else {
        0
    }
}

/// How many kinds of contribution are met.
pub open spec fn kinds_met(settings: CommonsSettings, evidence: CommonsContributorProof) -> int {
    one_if(kind_met(settings.merge_mining, merge_mining_shown(evidence), settings.measurement_period_days))
        + one_if(
        kind_met(
            settings.fee_forwarding,
            fee_forwarding_shown(evidence),
            settings.measurement_period_days,
        ),
    ) + one_if(kind_met(settings.zaps, zaps_shown(evidence), settings.measurement_period_days))
        + one_if(
        kind_met(settings.marketplace, marketplace_shown(evidence), settings.measurement_period_days),
    )
}

/// How many kinds of contribution count.
pub open spec fn kinds_enabled(settings: CommonsSettings) -> int {
    one_if(settings.merge_mining is Some) + one_if(settings.fee_forwarding is Some) + one_if(
        settings.zaps is Some,
    ) + one_if(settings.marketplace is Some)
}

/// Whether a community contributor qualifies: with some evidence at all,
/// and then by any one met kind, or by all kinds that count.
pub open spec fn commons_qualifies(settings: CommonsSettings, evidence: Option<CommonsContributorProof>)
    -> bool {
    match evidence {
        Some(shown) => match settings.logic {
            QualificationLogic::Any => kinds_met(settings, shown) > 0,
            QualificationLogic::All => kinds_met(settings, shown) == kinds_enabled(settings) && (
            !settings.all_needs_one || kinds_enabled(settings) > 0),
        },
        None => false,
    }
}

/// The settings that stand where nothing is configured.
pub open spec fn default_commons_settings() -> CommonsSettings {
    CommonsSettings {
        merge_mining: Some(1_000_000),
        fee_forwarding: Some(10_000_000),
        zaps: Some(1_000_000),
        marketplace: None,
        measurement_period_days: 90,
        logic: QualificationLogic::Any,
        all_needs_one: false,
    }
}

/// The settings that the file-based thresholds give.
pub open spec fn file_commons_settings(config: CommonsContributorThresholdsConfig) -> CommonsSettings {
    let t = config.commons_contributor_thresholds;
    CommonsSettings {
        merge_mining: if t.merge_mining.enabled {
            Some(t.merge_mining.minimum_contribution_btc)
        } else {
            None
        },
        fee_forwarding: if t.fee_forwarding.enabled {
            Some(t.fee_forwarding.minimum_contribution_btc)
        } else {
            None
        },
        zaps: if t.zaps.enabled {
            Some(t.zaps.minimum_contribution_btc)
        } else {
            None
        },
        marketplace: if t.marketplace.enabled {
            Some(
                match t.marketplace.minimum_sales_btc {
                    Some(least) => least,
                    None => 0,
                },
            )
        } else {
            None
        },
        measurement_period_days: t.measurement_period_days,
        logic: logic_of(t.qualification_logic@),
        all_needs_one: false,
    }
}

/// A threshold read through the reader counts where it is above zero.
pub open spec fn counted(threshold: Option<u64>) -> Option<u64> {
    match threshold {
        Some(least) => if least > 0 {
            Some(least)
        } else {
            None
        },
        None => None,
    }
}

/// The keys that a qualification through the reader reads, in the order
/// of the reads.
pub open spec fn commons_keys() -> Seq<Seq<char>> {
    seq![
        commons_period_key(),
        commons_threshold_key("merge_mining"@),
        commons_threshold_key("fee_forwarding"@),
        commons_threshold_key("zaps"@),
        commons_threshold_key("marketplace"@),
        commons_logic_key(),
    ]
}

/// Whether the read of one of those keys fails at `now`: its value is
/// there and is of another kind than the one asked for, which is an
/// unsigned number for the period, a number for a least contribution and
/// a text for the mode.
pub open spec fn commons_read_fails(reader: ReaderView, at: int, now: i64) -> bool {
    let key = commons_keys()[at];
    if at == 0 {
        reader.read_u32(key, 0, now) is None
    } else if at <= 4 {
        reader.read_fixed(key, 0, now) is None
    } else {
        reader.read_text(key, "OR"@, now) is None
    }
}

/// Whether the read of one of the six keys fails at `now`.
pub open spec fn commons_reads_fail(reader: ReaderView, now: i64) -> bool {
    ||| commons_read_fails(reader, 0, now)
    ||| commons_read_fails(reader, 1, now)
    ||| commons_read_fails(reader, 2, now)
    ||| commons_read_fails(reader, 3, now)
    ||| commons_read_fails(reader, 4, now)
    ||| commons_read_fails(reader, 5, now)
}

/// How many of the six keys a qualification reads at `now`: it stops
/// after the first read that fails.
pub open spec fn commons_reads_made(reader: ReaderView, now: i64) -> int {
    if commons_read_fails(reader, 0, now) {
        1
    } else if commons_read_fails(reader, 1, now) {
        2
    } else if commons_read_fails(reader, 2, now) {
        3
    } else if commons_read_fails(reader, 3, now) {
        4
    } else if commons_read_fails(reader, 4, now) {
        5
    } else {
        6
    }
}

/// The settings that the reader gives at `now`, where no read fails.
pub open spec fn reader_commons_settings(
    reader: ReaderView,
    yaml_config: Option<CommonsContributorThresholdsConfig>,
    now: i64,
) -> CommonsSettings {
    CommonsSettings {
        merge_mining: counted(reader.commons_threshold(yaml_config, "merge_mining"@, now)),
        fee_forwarding: counted(reader.commons_threshold(yaml_config, "fee_forwarding"@, now)),
        zaps: counted(reader.commons_threshold(yaml_config, "zaps"@, now)),
        marketplace: counted(reader.commons_threshold(yaml_config, "marketplace"@, now)),
        measurement_period_days: match reader.commons_period(yaml_config, now) {
            Some(days) => days,
            None => 0,
        },
        logic: match reader.read_text(commons_logic_key(), "OR"@, now) {
            Some(text) => logic_of(text),
            None => QualificationLogic::Any,
        },
        all_needs_one: true,
    }
}

/// The key of the least share of the hashpower that qualifies a mining
/// pool.
pub open spec fn hashpower_key() -> Seq<char> {
    "mining_pool_min_hashpower_percent"@
}

/// The least share of the hashpower that qualifies a mining pool where
/// none is configured, in fixed-point percent: one percent.
pub const DEFAULT_MIN_HASHPOWER: i64 = 100_000_000;

/// The least measures of a mining pool under a configured least share of
/// the hashpower. A share below zero asks for as little as zero does.
pub open spec fn pool_thresholds(least: i64) -> QualificationThresholds {
    QualificationThresholds {
        minimum_hashpower_percent: Some(
            if least > 0 {
                least as u64
            } else {
                0
            },
        ),
        minimum_holdings_btc: None,
        minimum_volume_btc: None,
    }
}

/// Whether the evidence meets the least measures of a kind of node.
pub open spec fn meets_thresholds(
    node_type: NodeType,
    thresholds: QualificationThresholds,
    evidence: QualificationProof,
) -> bool {
    &&& thresholds.minimum_hashpower_percent matches Some(least) ==> (
    evidence.hashpower_proof matches Some(shown) && shown.percentage >= least)
    &&& thresholds.minimum_holdings_btc matches Some(least) ==> (
    evidence.holdings_proof matches Some(shown) && shown.total_btc >= least)
    &&& thresholds.minimum_volume_btc matches Some(least) ==> (
    evidence.volume_proof matches Some(shown) && (if node_type == NodeType::Exchange {
        shown.daily_volume_btc
    } else {
        shown.monthly_volume_btc
    }) >= least)
}

/// How many of a contributor's four on-chain proofs are there.
pub open spec fn proofs_present(evidence: CommonsContributorProof) -> int {
    one_if(evidence.merge_mining_proof is Some) + one_if(evidence.fee_forwarding_proof is Some)
        + one_if(evidence.zap_proof is Some) + one_if(evidence.marketplace_sales_proof is Some)
}

/// How many of a contributor's four on-chain proofs are there and name
/// at least one event.
pub open spec fn proofs_sound(evidence: CommonsContributorProof) -> int {
    one_if(evidence.merge_mining_proof matches Some(p) && p.blocks_mined@.len() > 0) + one_if(
        evidence.fee_forwarding_proof matches Some(p) && p.blocks_with_forwarding@.len() > 0,
    ) + one_if(evidence.zap_proof matches Some(p) && p.zap_events@.len() > 0) + one_if(
        evidence.marketplace_sales_proof matches Some(p) && p.module_payments@.len() > 0,
    )
}

/// Whether the proof of control needs a signature to be checked: the
/// node shows holdings with at least one address.
pub open spec fn needs_signature(node_type: NodeType, evidence: QualificationProof) -> bool {
    &&& node_type != NodeType::MiningPool
    &&& node_type != NodeType::CommonsContributor
    &&& evidence.holdings_proof matches Some(shown)
    &&& shown.addresses@.len() > 0
}

/// Whether the proof of control stands. A mining pool names at least one
/// mined block. An exchange, a custodian and a major holder name at
/// least one address, and the signature over the challenge is valid. A
/// community contributor shows at least one on-chain proof, and every
/// proof shown names at least one event.
pub open spec fn control_proven(
    node_type: NodeType,
    evidence: QualificationProof,
    signature_valid: bool,
) -> bool {
    match node_type {
        NodeType::MiningPool => match evidence.hashpower_proof {
            Some(shown) => shown.blocks_mined@.len() > 0,
            None => false,
        },
        NodeType::CommonsContributor => match evidence.commons_contributor_proof {
            Some(shown) => proofs_sound(shown) > 0 && proofs_sound(shown) == proofs_present(shown),
            None => false,
        },
        _ => needs_signature(node_type, evidence) && signature_valid,
    }
}

/// The texts of a list of strings.
pub open spec fn texts(list: Seq<String>) -> Seq<Seq<char>> {
    list.map_values(|s: String| s@)
}

/// The challenge that the holder of the addresses signs: the public key,
/// two bars, and the addresses with commas between them.
pub open spec fn holdings_challenge(public_key: Seq<char>, addresses: Seq<Seq<char>>) -> Seq<char> {
    public_key + "||"@ + joined(addresses, ","@)
}

/// The challenge that the holder of the addresses signs.
pub fn holdings_challenge_message(public_key: &str, holdings: &HoldingsProof) -> (message: String)
    ensures
        message@ == holdings_challenge(public_key@, texts(holdings.addresses@)),
{
    let mut message = public_key.to_owned();
    message.append("||");
    let addresses = join(&holdings.addresses, ",");
    message.append(addresses.as_str());
    message
}

/// What a weight is calculated with.
#[derive(Debug, Clone, Copy)]
pub struct WeightSettings {
    /// The cap on a mining pool's weight, where one applies.
    pub mining_pool_weight_cap: Option<u64>,
    /// The price of a bitcoin, in hundred-millionths of a dollar.
    pub btc_price: u64,
    /// The contribution, in satoshis, that gives the weight one.
    pub normalization_factor: u64,
    /// The least weight of a contributor.
    pub minimum_weight: u64,
}

/// The weight of a node, nothing where the evidence that the formula of
/// its kind needs is missing.
pub open spec fn node_weight(
    settings: WeightSettings,
    node_type: NodeType,
    evidence: QualificationProof,
) -> Option<int> {
    match node_type {
        NodeType::MiningPool => match evidence.hashpower_proof {
            Some(shown) => Some(mining_pool_weight(shown.percentage, settings.mining_pool_weight_cap)),
            None => None,
        },
        NodeType::Exchange => match (evidence.holdings_proof, evidence.volume_proof) {
            (Some(holdings), Some(volume)) => Some(
                exchange_weight(holdings.total_btc, volume.daily_volume_btc),
            ),
            _ => None,
        },
        NodeType::Custodian => match evidence.holdings_proof {
            Some(shown) => Some(capped_share(shown.total_btc, FULL_HOLDINGS_BTC)),
            None => None,
        },
        NodeType::MajorHolder => match evidence.holdings_proof {
            Some(shown) => Some(capped_share(shown.total_btc, FULL_MAJOR_HOLDINGS_BTC)),
            None => None,
        },
        NodeType::CommonsContributor => match evidence.commons_contributor_proof {
            Some(shown) => Some(
                commons_weight(
                    shown,
                    settings.btc_price,
                    settings.normalization_factor,
                    settings.minimum_weight,
                ),
            ),
            None => None,
        },
    }
}

/// Whether the evidence meets the given thresholds of a kind of node.
pub fn check_thresholds(
    node_type: NodeType,
    thresholds: &QualificationThresholds,
    evidence: &QualificationProof,
) -> (met: bool)
    ensures
        met == meets_thresholds(node_type, *thresholds, *evidence),
{
    match thresholds.minimum_hashpower_percent {
        Some(least) => match &evidence.hashpower_proof {
            Some(shown) => {
                if shown.percentage < least {
                    return false;
                }
            },
            None => {
                return false;
            },
        },
        None => {},
    }
    match thresholds.minimum_holdings_btc {
        Some(least) => match &evidence.holdings_proof {
            Some(shown) => {
                if shown.total_btc < least {
                    return false;
                }
            },
            None => {
                return false;
            },
        },
        None => {},
    }
    match thresholds.minimum_volume_btc {
        Some(least) => match &evidence.volume_proof {
            Some(shown) => {
                let volume = if node_type == NodeType::Exchange {
                    shown.daily_volume_btc
                } else {
                    shown.monthly_volume_btc
                };
                if volume < least {
                    return false;
                }
            },
            None => {
                return false;
            },
        },
        None => {},
    }
    true
}

fn check_kind(threshold: Option<u64>, total: u64, days: u32, period: u32) -> (met: bool)
    ensures
        met == kind_met(threshold, Some((total, days)), period),
{
    match threshold {
        Some(least) => total >= least && days >= period,
        None => false,
    }
}

/// Whether a community contributor qualifies under the given settings.
pub fn check_commons_contributor(settings: &CommonsSettings, evidence: &QualificationProof) -> (
    qualified: bool
)
    ensures
        qualified == commons_qualifies(*settings, evidence.commons_contributor_proof),
{
    let shown = match &evidence.commons_contributor_proof {
        Some(p) => p,
        None => {
            return false;
        },
    };
    let period = settings.measurement_period_days;
    let mut met: u8 = 0;
    let mut enabled: u8 = 0;
    if settings.merge_mining.is_some() {
        enabled = enabled + 1;
    }
    if settings.fee_forwarding.is_some() {
        enabled = enabled + 1;
    }
    if settings.zaps.is_some() {
        enabled = enabled + 1;
    }
    if settings.marketplace.is_some() {
        enabled = enabled + 1;
    }
    match &shown.merge_mining_proof {
        Some(p) => {
            if check_kind(settings.merge_mining, p.total_revenue_btc, p.period_days, period) {
                met = met + 1;
            }
        },
        None => {},
    }
    match &shown.fee_forwarding_proof {
        Some(p) => {
            if check_kind(
                settings.fee_forwarding,
                p.total_fees_forwarded_btc,
                p.period_days,
                period,
            ) {
                met = met + 1;
            }
        },
        None => {},
    }
    match &shown.zap_proof {
        Some(p) => {
            if check_kind(settings.zaps, p.total_zaps_btc, p.period_days, period) {
                met = met + 1;
            }
        },
        None => {},
    }
    match &shown.marketplace_sales_proof {
        Some(p) => {
            if check_kind(settings.marketplace, p.total_sales_btc, p.period_days, period) {
                met = met + 1;
            }
        },
        None => {},
    }
    match settings.logic {
        QualificationLogic::Any => met > 0,
        QualificationLogic::All => met == enabled && (!settings.all_needs_one || enabled > 0),
    }
}

/// The settings that the file-based thresholds give.
pub fn commons_settings_from_config(config: &CommonsContributorThresholdsConfig) -> (settings:
    CommonsSettings)
    ensures
        settings == file_commons_settings(*config),
{
    let t = &config.commons_contributor_thresholds;
    CommonsSettings {
        merge_mining: if t.merge_mining.enabled {
            Some(t.merge_mining.minimum_contribution_btc)
        } else {
            None
        },
        fee_forwarding: if t.fee_forwarding.enabled {
            Some(t.fee_forwarding.minimum_contribution_btc)
        } else {
            None
        },
        zaps: if t.zaps.enabled {
            Some(t.zaps.minimum_contribution_btc)
        } else {
            None
        },
        marketplace: if t.marketplace.enabled {
            Some(
                match t.marketplace.minimum_sales_btc {
                    Some(least) => least,
                    None => 0,
                },
            )
        } else {
            None
        },
        measurement_period_days: t.measurement_period_days,
        logic: parse_logic(t.qualification_logic.as_str()),
        all_needs_one: false,
    }
}

/// The settings that stand where nothing is configured.
pub fn builtin_commons_settings() -> (settings: CommonsSettings)
    ensures
        settings == default_commons_settings(),
{
    CommonsSettings {
        merge_mining: Some(1_000_000),
        fee_forwarding: Some(10_000_000),
        zaps: Some(1_000_000),
        marketplace: None,
        measurement_period_days: 90,
        logic: QualificationLogic::Any,
        all_needs_one: false,
    }
}

fn counted_threshold(least: u64) -> (threshold: Option<u64>)
    ensures
        threshold == counted(Some(least)),
{
    if least > 0 {
        Some(least)
    } else {
        None
    }
}

/// Whether a community contributor qualifies under the thresholds that
/// the reader gives. Without any evidence of contributions the answer is
/// no, and nothing is read. The six keys are read one after the other; a
/// value that is there and is of another kind than asked is an error,
/// and no key is read after it.
pub fn verify_commons_contributor_with_config_reader(
    evidence: &QualificationProof,
    reader: &mut ConfigReader,
    now: i64,
) -> (result: Result<bool, GovernanceError>)
    ensures
        final(reader).yaml_config == old(reader).yaml_config,
        final(reader).registry.spec_config_path() == old(reader).registry.spec_config_path(),
        match evidence.commons_contributor_proof {
            Some(shown) => {
                &&& final(reader)@ == old(reader)@.after_reads(
                    commons_keys().take(commons_reads_made(old(reader)@, now)),
                    now,
                )
                &&& if commons_reads_fail(old(reader)@, now) {
                    result matches Err(e) && e is ConfigError
                } else {
                    result == Ok::<bool, GovernanceError>(
                        commons_qualifies(
                            reader_commons_settings(old(reader)@, old(reader).yaml_config, now),
                            Some(shown),
                        ),
                    )
                }
            },
            None => final(reader)@ == old(reader)@ && result == Ok::<bool, GovernanceError>(false),
        },
{
    if evidence.commons_contributor_proof.is_none() {
        return Ok(false);
    }
    let ghost before = reader@;
    let ghost keys = commons_keys();
    proof {
        assert(keys.take(1).drop_last() =~= keys.take(0));
        assert(keys.take(2).drop_last() =~= keys.take(1));
        assert(keys.take(3).drop_last() =~= keys.take(2));
        assert(keys.take(4).drop_last() =~= keys.take(3));
        assert(keys.take(5).drop_last() =~= keys.take(4));
        assert(keys.take(6).drop_last() =~= keys.take(5));
        lemma_reads_stable(before, keys.take(0), keys[0], now);
        lemma_reads_stable(before, keys.take(1), keys[1], now);
        lemma_reads_stable(before, keys.take(2), keys[2], now);
        lemma_reads_stable(before, keys.take(3), keys[3], now);
        lemma_reads_stable(before, keys.take(4), keys[4], now);
        lemma_reads_stable(before, keys.take(5), keys[5], now);
    }
    let period = match reader.get_commons_contributor_measurement_period(now) {
        Ok(days) => days,
        Err(e) => {
            return Err(e);
        },
    };
    let merge_mining = match reader.get_commons_contributor_threshold("merge_mining", now) {
        Ok(least) => least,
        Err(e) => {
            return Err(e);
        },
    };
    let fee_forwarding = match reader.get_commons_contributor_threshold("fee_forwarding", now) {
        Ok(least) => least,
        Err(e) => {
            return Err(e);
        },
    };
    let zaps = match reader.get_commons_contributor_threshold("zaps", now) {
        Ok(least) => least,
        Err(e) => {
            return Err(e);
        },
    };
    let marketplace = match reader.get_commons_contributor_threshold("marketplace", now) {
        Ok(least) => least,
        Err(e) => {
            return Err(e);
        },
    };
    let logic_text = match reader.get_string("commons_contributor_qualification_logic", "OR", now) {
        Ok(text) => text,
        Err(e) => {
            return Err(e);
        },
    };
    let settings = CommonsSettings {
        merge_mining: counted_threshold(merge_mining),
        fee_forwarding: counted_threshold(fee_forwarding),
        zaps: counted_threshold(zaps),
        marketplace: counted_threshold(marketplace),
        measurement_period_days: period,
        logic: parse_logic(logic_text.as_str()),
        all_needs_one: true,
    };
    Ok(check_commons_contributor(&settings, evidence))
}

/// Whether the proof of control stands, given what the check of the
/// signature over the challenge gave. The outcome of that check counts
/// only where the node shows holdings with at least one address.
pub fn check_control(node_type: NodeType, evidence: &QualificationProof, signature_valid: bool) -> (
    proven: bool
)
    ensures
        proven == control_proven(node_type, *evidence, signature_valid),
{
    match node_type {
        NodeType::MiningPool => match &evidence.hashpower_proof {
            Some(shown) => shown.blocks_mined.len() > 0,
            None => false,
        },
        NodeType::CommonsContributor => match &evidence.commons_contributor_proof {
            Some(shown) => {
                let mut present: u8 = 0;
                let mut sound: u8 = 0;
                match &shown.merge_mining_proof {
                    Some(p) => {
                        present = present + 1;
                        if p.blocks_mined.len() > 0 {
                            sound = sound + 1;
                        }
                    },
                    None => {},
                }
                match &shown.fee_forwarding_proof {
                    Some(p) => {
                        present = present + 1;
                        if p.blocks_with_forwarding.len() > 0 {
                            sound = sound + 1;
                        }
                    },
                    None => {},
                }
                match &shown.zap_proof {
                    Some(p) => {
                        present = present + 1;
                        if p.zap_events.len() > 0 {
                            sound = sound + 1;
                        }
                    },
                    None => {},
                }
                match &shown.marketplace_sales_proof {
                    Some(p) => {
                        present = present + 1;
                        if p.module_payments.len() > 0 {
                            sound = sound + 1;
                        }
                    },
                    None => {},
                }
                sound > 0 && sound == present
            },
            None => false,
        },
        _ => match &evidence.holdings_proof {
            Some(shown) => shown.addresses.len() > 0 && signature_valid,
            None => false,
        },
    }
}

/// The weight of a node under the given settings. Evidence that the
/// formula of the node's kind needs and that is missing is an error: a
/// missing proof never gives the weight zero.
pub fn weigh(settings: &WeightSettings, node_type: NodeType, evidence: &QualificationProof) -> (result:
    Result<u64, GovernanceError>)
    ensures
        match node_weight(*settings, node_type, *evidence) {
            Some(weight) => result == Ok::<u64, GovernanceError>(weight as u64) && 0 <= weight
                <= u64::MAX,
            None => result matches Err(e) && e is CryptoError,
        },
{
    match node_type {
        NodeType::MiningPool => match &evidence.hashpower_proof {
            Some(shown) => Ok(
                calculate_mining_pool_weight(shown.percentage, settings.mining_pool_weight_cap),
            ),
            None => Err(crypto_error("Hashpower proof required for mining pools")),
        },
        NodeType::Exchange => match &evidence.holdings_proof {
            Some(holdings) => match &evidence.volume_proof {
                Some(volume) => Ok(
                    calculate_exchange_weight(holdings.total_btc, volume.daily_volume_btc),
                ),
                None => Err(crypto_error("Volume proof required for exchanges")),
            },
            None => Err(crypto_error("Holdings proof required for exchanges")),
        },
        NodeType::Custodian => match &evidence.holdings_proof {
            Some(shown) => Ok(calculate_capped_share(shown.total_btc, FULL_HOLDINGS_BTC)),
            None => Err(crypto_error("Holdings proof required for custodians")),
        },
        NodeType::MajorHolder => match &evidence.holdings_proof {
            Some(shown) => Ok(calculate_capped_share(shown.total_btc, FULL_MAJOR_HOLDINGS_BTC)),
            None => Err(crypto_error("Holdings proof required for major holders")),
        },
        NodeType::CommonsContributor => match &evidence.commons_contributor_proof {
            Some(shown) => Ok(
                calculate_commons_weight(
                    shown,
                    settings.btc_price,
                    settings.normalization_factor,
                    settings.minimum_weight,
                ),
            ),
            None => Err(crypto_error("Commons contributor proof required")),
        },
    }
}


/// `a` is listed before `b`: the heavier node first, and of two with the
/// same weight the one that was registered first.
pub open spec fn ranks_before(a: EconomicNode, b: EconomicNode) -> bool {
    a.weight > b.weight || (a.weight == b.weight && a.id < b.id)
}

/// Some node at position `i` has this public key.
pub open spec fn key_at(nodes: Seq<EconomicNode>, public_key: Seq<char>, i: int) -> bool {
    0 <= i < nodes.len() && nodes[i].public_key@ == public_key
}

/// Some node has this public key.
pub open spec fn has_public_key(nodes: Seq<EconomicNode>, public_key: Seq<char>) -> bool {
    exists|i: int| key_at(nodes, public_key, i)
}

/// What holds of the nodes of every registry: they are numbered from one
/// in the order of their registration, and no two have the same public
/// key.
pub open spec fn nodes_wf(nodes: Seq<EconomicNode>) -> bool {
    &&& nodes.len() <= i32::MAX
    &&& forall|i: int| 0 <= i < nodes.len() ==> (#[trigger] nodes[i]).id == i + 1
    &&& forall|i: int, j: int|
        0 <= i < j < nodes.len() ==> (#[trigger] nodes[i]).public_key@ != (
        #[trigger] nodes[j]).public_key@
}

/// `listed` holds exactly the active ones among the first `n` nodes, the
/// heaviest first.
pub open spec fn active_upto(nodes: Seq<EconomicNode>, listed: Seq<EconomicNode>, n: int) -> bool {
    &&& forall|j: int|
        0 <= j < listed.len() ==> 1 <= (#[trigger] listed[j]).id <= n && nodes[listed[j].id - 1]
            == listed[j] && listed[j].status == NodeStatus::Active
    &&& forall|i: int|
        0 <= i < n && (#[trigger] nodes[i]).status == NodeStatus::Active ==> listed.contains(
            nodes[i],
        )
    &&& forall|a: int, b: int|
        0 <= a < b < listed.len() ==> ranks_before(#[trigger] listed[a], #[trigger] listed[b])
}

/// A node with another weight.
pub open spec fn with_weight(node: EconomicNode, weight: u64) -> EconomicNode {
    EconomicNode { weight, ..node }
}

/// A node with another status.
pub open spec fn with_status(node: EconomicNode, status: NodeStatus) -> EconomicNode {
    EconomicNode { status, ..node }
}

/// A node with the weight that its evidence gives under the settings,
/// and with the weight it has where the evidence gives none.
pub open spec fn reweighed_node(settings: WeightSettings, node: EconomicNode) -> EconomicNode {
    match node_weight(settings, node.node_type, node.qualification_data) {
        Some(weight) => with_weight(node, weight as u64),
        None => node,
    }
}

/// The nodes, each with the weight that its evidence gives.
pub open spec fn reweighed(settings: WeightSettings, nodes: Seq<EconomicNode>) -> Seq<EconomicNode> {
    nodes.map_values(|node: EconomicNode| reweighed_node(settings, node))
}

/// The nodes of a registry, in the order of their registration.
pub struct NodeList {
    nodes: Vec<EconomicNode>,
}

impl View for NodeList {
    type V = Seq<EconomicNode>;

    closed spec fn view(&self) -> Seq<EconomicNode> {
        self.nodes@
    }
}

impl NodeList {
    #[verifier::type_invariant]
    pub closed spec fn inv(&self) -> bool {
        nodes_wf(self.nodes@)
    }

    /// An empty list.
    pub fn new() -> (list: NodeList)
        ensures
            list@.len() == 0,
    {
        NodeList { nodes: Vec::new() }
    }

    /// A list made of what was read back from the store. What was read
    /// must be what a list can hold: nodes numbered from one in their
    /// order, and no public key twice. Anything else is an error of the
    /// store.
    pub fn restore(nodes: Vec<EconomicNode>) -> (result: Result<NodeList, GovernanceError>)
        ensures
            match result {
                Ok(list) => list@ == nodes@ && nodes_wf(nodes@),
                Err(e) => e is DatabaseError && !nodes_wf(nodes@),
            },
    {
        let n = nodes.len();
        if n > 0x7fff_ffff {
            return Err(database_error("Stored nodes are inconsistent"));
        }
        let mut i: usize = 0;
        while i < n
            invariant
                i <= n,
                n == nodes@.len(),
                n <= i32::MAX,
                forall|k: int| 0 <= k < i ==> (#[trigger] nodes@[k]).id == k + 1,
                forall|a: int, b: int|
                    0 <= a < b < i ==> (#[trigger] nodes@[a]).public_key@ != (
                    #[trigger] nodes@[b]).public_key@,
            decreases n - i,
        {
            if nodes[i].id != (i + 1) as i32 {
                return Err(database_error("Stored nodes are inconsistent"));
            }
            let mut j: usize = 0;
            while j < i
                invariant
                    j <= i,
                    i < n,
                    n == nodes@.len(),
                    forall|a: int|
                        0 <= a < j ==> (#[trigger] nodes@[a]).public_key@
                            != nodes@[i as int].public_key@,
                decreases i - j,
            {
                if nodes[j].public_key == nodes[i].public_key {
                    return Err(database_error("Stored nodes are inconsistent"));
                }
                j = j + 1;
            }
            i = i + 1;
        }
        Ok(NodeList { nodes })
    }

    /// Number of nodes.
    pub fn len(&self) -> (n: usize)
        ensures
            n == self@.len(),
            nodes_wf(self@),
    {
        proof {
            use_type_invariant(self);
        }
        self.nodes.len()
    }

    /// The node at a position.
    pub fn get(&self, i: usize) -> (node: &EconomicNode)
        requires
            i < self@.len(),
        ensures
            *node == self@[i as int],
            node.id == i + 1,
    {
        proof {
            use_type_invariant(self);
        }
        &self.nodes[i]
    }

    /// The position of the node with a public key.
    pub fn find_key(&self, public_key: &str) -> (at: Option<usize>)
        ensures
            nodes_wf(self@),
            match at {
                Some(i) => key_at(self@, public_key@, i as int),
                None => !has_public_key(self@, public_key@),
            },
    {
        proof {
            use_type_invariant(self);
        }
        let wanted = public_key.to_owned();
        let mut i: usize = 0;
        while i < self.nodes.len()
            invariant
                i <= self.nodes@.len(),
                wanted@ == public_key@,
                nodes_wf(self@),
                forall|k: int| 0 <= k < i ==> !key_at(self@, public_key@, k),
            decreases self.nodes@.len() - i,
        {
            if self.nodes[i].public_key == wanted {
                return Some(i);
            }
            i = i + 1;
        }
        None
    }

    fn push(&mut self, node: EconomicNode)
        requires
            old(self)@.len() < i32::MAX,
            node.id == old(self)@.len() + 1,
            !has_public_key(old(self)@, node.public_key@),
        ensures
            final(self)@ == old(self)@.push(node),
            nodes_wf(final(self)@),
    {
        proof {
            use_type_invariant(&*self);
        }
        let ghost before = self.nodes@;
        let mut nodes: Vec<EconomicNode> = Vec::new();
        core::mem::swap(&mut nodes, &mut self.nodes);
        nodes.push(node);
        proof {
            assert forall|i: int, j: int| 0 <= i < j < nodes@.len() implies (
            #[trigger] nodes@[i]).public_key@ != (#[trigger] nodes@[j]).public_key@ by {
                if j == before.len() {
                    assert(!key_at(before, node.public_key@, i));
                }
            }
        }
        self.nodes = nodes;
    }

    fn replace(&mut self, i: usize, weight: u64, status: NodeStatus)
        requires
            i < old(self)@.len(),
        ensures
            final(self)@ == old(self)@.update(
                i as int,
                with_status(with_weight(old(self)@[i as int], weight), status),
            ),
            nodes_wf(final(self)@),
    {
        proof {
            use_type_invariant(&*self);
        }
        let ghost before = self.nodes@;
        let mut nodes: Vec<EconomicNode> = Vec::new();
        core::mem::swap(&mut nodes, &mut self.nodes);
        let mut node = nodes.remove(i);
        node.weight = weight;
        node.status = status;
        nodes.insert(i, node);
        self.nodes = nodes;
    }
}

/// The registry of economic nodes.
pub struct EconomicNodeRegistry {
    /// The registered nodes.
    pub nodes: NodeList,
    /// The file-based thresholds for community contributors.
    pub commons_contributor_thresholds: Option<CommonsContributorThresholdsConfig>,
    /// The reader of governance parameters, which goes before the
    /// file-based thresholds.
    pub config_reader: Option<ConfigReader>,
    /// The calculator of the phase, which gives the cap on a mining
    /// pool's weight.
    pub phase_calculator: Option<GovernancePhaseCalculator>,
    /// The moving average of the price of a bitcoin, in
    /// hundred-millionths of a dollar.
    pub btc_price_ma: Option<u64>,
}

impl EconomicNodeRegistry {
    /// The reader of the registry as mathematical data.
    pub open spec fn reader_view(self) -> Option<ReaderView> {
        match self.config_reader {
            Some(reader) => Some(reader@),
            None => None,
        }
    }

    /// The file-based thresholds that go with the reader.
    pub open spec fn reader_yaml(self) -> Option<Option<CommonsContributorThresholdsConfig>> {
        match self.config_reader {
            Some(reader) => Some(reader.yaml_config),
            None => None,
        }
    }

    /// The directory of the file-based defaults that the reader's
    /// registry was given.
    pub open spec fn reader_path(self) -> Option<Option<Seq<char>>> {
        match self.config_reader {
            Some(reader) => Some(reader.registry.spec_config_path()),
            None => None,
        }
    }

    /// Everything but the nodes and the cache of the reader is the same
    /// in two registries.
    pub open spec fn same_settings(self, other: EconomicNodeRegistry) -> bool {
        &&& self.commons_contributor_thresholds == other.commons_contributor_thresholds
        &&& self.phase_calculator == other.phase_calculator
        &&& self.btc_price_ma == other.btc_price_ma
        &&& self.reader_yaml() == other.reader_yaml()
        &&& self.reader_path() == other.reader_path()
        &&& self.config_reader is Some == other.config_reader is Some
        &&& self.config_reader matches Some(mine) ==> (other.config_reader matches Some(theirs)
            && mine@.registry == theirs@.registry && mine@.yaml == theirs@.yaml && mine@.ttl
            == theirs@.ttl)
    }

    /// What weights are calculated with: the cap of the phase where there
    /// is a phase calculator, the moving average of the price where there
    /// is one, and the configured factor and least weight where the
    /// file-based thresholds are there.
    pub open spec fn weight_settings(self) -> WeightSettings {
        WeightSettings {
            mining_pool_weight_cap: match self.phase_calculator {
                Some(calculator) => Some(pool_weight_cap(calculator.current_phase())),
                None => None,
            },
            btc_price: match self.btc_price_ma {
                Some(price) => price,
                None => DEFAULT_BTC_PRICE,
            },
            normalization_factor: match self.commons_contributor_thresholds {
                Some(config) => config.weight_calculation.normalization_factor,
                None => DEFAULT_NORMALIZATION,
            },
            minimum_weight: match self.commons_contributor_thresholds {
                Some(config) => config.weight_calculation.minimum_weight,
                None => DEFAULT_MINIMUM_WEIGHT,
            },
        }
    }

    /// Whether a qualification reads through the reader: the node is a
    /// community contributor with evidence of contributions, and the
    /// registry has a reader.
    pub open spec fn qualification_reads(self, node_type: NodeType, evidence: QualificationProof)
        -> bool {
        node_type == NodeType::CommonsContributor && self.config_reader is Some
            && evidence.commons_contributor_proof is Some
    }

    /// The reader after a qualification at `now`: for a mining pool it
    /// has read the least share of the hashpower, for a community
    /// contributor with evidence of contributions the keys of the
    /// thresholds for contributions, up to the first whose read fails.
    pub open spec fn reader_after_qualification(
        self,
        node_type: NodeType,
        evidence: QualificationProof,
        now: i64,
    ) -> Option<ReaderView> {
        match self.config_reader {
            Some(reader) => if node_type == NodeType::MiningPool {
                Some(reader@.after_read(hashpower_key(), now))
            } else if self.qualification_reads(node_type, evidence) {
                Some(
                    reader@.after_reads(
                        commons_keys().take(commons_reads_made(reader@, now)),
                        now,
                    ),
                )
            } else {
                Some(reader@)
            },
            None => None,
        }
    }

    /// The least measures of a kind at `now`. They are built in, but for
    /// the least share of the hashpower of a mining pool, which a
    /// registry with a reader reads from the configuration, with one
    /// percent for a missing key. Nothing where the configured share is
    /// no number.
    pub open spec fn thresholds_at(self, node_type: NodeType, now: i64) -> Option<
        QualificationThresholds,
    > {
        match self.config_reader {
            Some(reader) => if node_type == NodeType::MiningPool {
                match reader@.read_fixed(hashpower_key(), DEFAULT_MIN_HASHPOWER, now) {
                    Some(least) => Some(pool_thresholds(least)),
                    None => None,
                }
            } else {
                Some(node_type.thresholds())
            },
            None => Some(node_type.thresholds()),
        }
    }

    /// Whether a community contributor qualifies: by the reader where the
    /// registry has one, else by the file-based thresholds, else by the
    /// built-in ones. Nothing where a configured value is of another kind
    /// than the reader asks for.
    pub open spec fn commons_qualification(self, evidence: QualificationProof, now: i64) -> Option<
        bool,
    > {
        match self.config_reader {
            Some(reader) => match evidence.commons_contributor_proof {
                Some(shown) => if commons_reads_fail(reader@, now) {
                    None
                } else {
                    Some(
                        commons_qualifies(
                            reader_commons_settings(reader@, reader.yaml_config, now),
                            Some(shown),
                        ),
                    )
                },
                None => Some(false),
            },
            None => match self.commons_contributor_thresholds {
                Some(config) => Some(
                    commons_qualifies(
                        file_commons_settings(config),
                        evidence.commons_contributor_proof,
                    ),
                ),
                None => Some(
                    commons_qualifies(
                        default_commons_settings(),
                        evidence.commons_contributor_proof,
                    ),
                ),
            },
        }
    }

    /// Whether the evidence qualifies a node of a kind: it meets the
    /// least measures of the kind, and a community contributor meets the
    /// thresholds for contributions as well. Nothing where the
    /// configuration cannot be read.
    pub open spec fn qualification(
        self,
        node_type: NodeType,
        evidence: QualificationProof,
        now: i64,
    ) -> Option<bool> {
        match self.thresholds_at(node_type, now) {
            Some(thresholds) => if !meets_thresholds(node_type, thresholds, evidence) {
                Some(false)
            } else if node_type == NodeType::CommonsContributor {
                self.commons_qualification(evidence, now)
            } else {
                Some(true)
            },
            None => None,
        }
    }

    /// A registry without nodes, with a phase calculator for a network at
    /// its start.
    pub fn new() -> (registry: EconomicNodeRegistry)
        ensures
            registry.nodes@.len() == 0,
            registry.commons_contributor_thresholds is None,
            registry.config_reader is None,
            registry.phase_calculator == Some(GovernancePhaseCalculator::at_start()),
            registry.btc_price_ma is None,
    {
        EconomicNodeRegistry {
            nodes: NodeList::new(),
            commons_contributor_thresholds: None,
            config_reader: None,
            phase_calculator: Some(GovernancePhaseCalculator::new()),
            btc_price_ma: None,
        }
    }

    /// A registry without nodes, with the file-based thresholds for
    /// community contributors.
    pub fn with_thresholds(thresholds: Option<CommonsContributorThresholdsConfig>) -> (registry:
        EconomicNodeRegistry)
        ensures
            registry.nodes@.len() == 0,
            registry.commons_contributor_thresholds == thresholds,
            registry.config_reader is None,
            registry.phase_calculator == Some(GovernancePhaseCalculator::at_start()),
            registry.btc_price_ma is None,
    {
        EconomicNodeRegistry {
            nodes: NodeList::new(),
            commons_contributor_thresholds: thresholds,
            config_reader: None,
            phase_calculator: Some(GovernancePhaseCalculator::new()),
            btc_price_ma: None,
        }
    }

    /// A registry without nodes, with the given phase calculator.
    pub fn with_phase_calculator(phase_calculator: Option<GovernancePhaseCalculator>) -> (registry:
        EconomicNodeRegistry)
        ensures
            registry.nodes@.len() == 0,
            registry.commons_contributor_thresholds is None,
            registry.config_reader is None,
            registry.phase_calculator == phase_calculator,
            registry.btc_price_ma is None,
    {
        EconomicNodeRegistry {
            nodes: NodeList::new(),
            commons_contributor_thresholds: None,
            config_reader: None,
            phase_calculator,
            btc_price_ma: None,
        }
    }

    /// A registry without nodes, with the given reader and phase
    /// calculator.
    pub fn with_config_reader(
        config_reader: Option<ConfigReader>,
        phase_calculator: Option<GovernancePhaseCalculator>,
    ) -> (registry: EconomicNodeRegistry)
        ensures
            registry.nodes@.len() == 0,
            registry.commons_contributor_thresholds is None,
            registry.config_reader == config_reader,
            registry.phase_calculator == phase_calculator,
            registry.btc_price_ma is None,
    {
        EconomicNodeRegistry {
            nodes: NodeList::new(),
            commons_contributor_thresholds: None,
            config_reader,
            phase_calculator,
            btc_price_ma: None,
        }
    }

    /// Sets the phase calculator.
    pub fn set_phase_calculator(&mut self, phase_calculator: Option<GovernancePhaseCalculator>)
        ensures
            final(self).phase_calculator == phase_calculator,
            final(self).nodes@ == old(self).nodes@,
            final(self).commons_contributor_thresholds == old(self).commons_contributor_thresholds,
            final(self).config_reader == old(self).config_reader,
            final(self).btc_price_ma == old(self).btc_price_ma,
    {
        self.phase_calculator = phase_calculator;
    }

    /// Sets the file-based thresholds for community contributors.
    pub fn set_commons_contributor_thresholds(
        &mut self,
        thresholds: Option<CommonsContributorThresholdsConfig>,
    )
        ensures
            final(self).commons_contributor_thresholds == thresholds,
            final(self).nodes@ == old(self).nodes@,
            final(self).phase_calculator == old(self).phase_calculator,
            final(self).config_reader == old(self).config_reader,
            final(self).btc_price_ma == old(self).btc_price_ma,
    {
        self.commons_contributor_thresholds = thresholds;
    }

    /// The file-based thresholds for community contributors.
    pub fn get_commons_contributor_thresholds(&self) -> (result: Result<
        Option<&CommonsContributorThresholdsConfig>,
        GovernanceError,
    >)
        ensures
            match result {
                Ok(Some(config)) => self.commons_contributor_thresholds == Some(*config),
                Ok(None) => self.commons_contributor_thresholds is None,
                Err(_) => false,
            },
    {
        match &self.commons_contributor_thresholds {
            Some(config) => Ok(Some(config)),
            None => Ok(None),
        }
    }

    /// Whether a community contributor qualifies under the built-in
    /// thresholds.
    pub fn verify_commons_contributor_defaults(&self, evidence: &QualificationProof) -> (result:
        Result<bool, GovernanceError>)
        ensures
            result == Ok::<bool, GovernanceError>(
                commons_qualifies(default_commons_settings(), evidence.commons_contributor_proof),
            ),
    {
        let settings = builtin_commons_settings();
        Ok(check_commons_contributor(&settings, evidence))
    }

    /// Whether a community contributor qualifies: by the reader where the
    /// registry has one, else by the file-based thresholds, else by the
    /// built-in ones.
    pub fn verify_commons_contributor_qualification(
        &mut self,
        evidence: &QualificationProof,
        now: i64,
    ) -> (result: Result<bool, GovernanceError>)
        ensures
            final(self).nodes@ == old(self).nodes@,
            old(self).same_settings(*final(self)),
            final(self).reader_view() == old(self).reader_after_qualification(
                NodeType::CommonsContributor,
                *evidence,
                now,
            ),
            match old(self).commons_qualification(*evidence, now) {
                Some(qualified) => result == Ok::<bool, GovernanceError>(qualified),
                None => result matches Err(e) && e is ConfigError,
            },
    {
        let mut taken: Option<ConfigReader> = None;
        core::mem::swap(&mut taken, &mut self.config_reader);
        match taken {
            Some(mut reader) => {
                let ghost before = reader@;
                let result = verify_commons_contributor_with_config_reader(evidence, &mut reader, now);
                proof {
                    lemma_reads_stable(
                        before,
                        commons_keys().take(commons_reads_made(before, now)),
                        commons_logic_key(),
                        now,
                    );
                }
                self.config_reader = Some(reader);
                result
            },
            None => match &self.commons_contributor_thresholds {
                Some(config) => {
                    let settings = commons_settings_from_config(config);
                    Ok(check_commons_contributor(&settings, evidence))
                },
                None => self.verify_commons_contributor_defaults(evidence),
            },
        }
    }

    /// The least measures of a kind at `now`. A registry with a reader
    /// reads the least share of the hashpower of a mining pool from the
    /// configuration; a configured share that is no number is an error.
    pub fn qualification_thresholds_at(&mut self, node_type: NodeType, now: i64) -> (result: Result<
        QualificationThresholds,
        GovernanceError,
    >)
        ensures
            final(self).nodes@ == old(self).nodes@,
            old(self).same_settings(*final(self)),
            final(self).reader_view() == (match old(self).config_reader {
                Some(reader) => if node_type == NodeType::MiningPool {
                    Some(reader@.after_read(hashpower_key(), now))
                } else {
                    Some(reader@)
                },
                None => None,
            }),
            match old(self).thresholds_at(node_type, now) {
                Some(thresholds) => result == Ok::<QualificationThresholds, GovernanceError>(
                    thresholds,
                ),
                None => result matches Err(e) && e is ConfigError,
            },
    {
        if node_type != NodeType::MiningPool {
            return Ok(node_type.qualification_thresholds());
        }
        let mut taken: Option<ConfigReader> = None;
        core::mem::swap(&mut taken, &mut self.config_reader);
        match taken {
            Some(mut reader) => {
                let read = reader.get_f64("mining_pool_min_hashpower_percent", DEFAULT_MIN_HASHPOWER, now);
                self.config_reader = Some(reader);
                match read {
                    Ok(least) => Ok(
                        QualificationThresholds {
                            minimum_hashpower_percent: Some(
                                if least > 0 {
                                    least as u64
                                } else {
                                    0
                                },
                            ),
                            minimum_holdings_btc: None,
                            minimum_volume_btc: None,
                        },
                    ),
                    Err(e) => Err(e),
                }
            },
            None => Ok(node_type.qualification_thresholds()),
        }
    }

    /// Whether the evidence qualifies a node of a kind. A node qualifies
    /// where its evidence meets the least measures of its kind, of which
    /// the least share of the hashpower of a mining pool is read from the
    /// configuration, and a community contributor where it meets the
    /// thresholds for contributions as well.
    pub fn verify_qualification(&mut self, node_type: NodeType, evidence: &QualificationProof, now: i64)
        -> (result: Result<bool, GovernanceError>)
        ensures
            final(self).nodes@ == old(self).nodes@,
            old(self).same_settings(*final(self)),
            final(self).reader_view() == old(self).reader_after_qualification(
                node_type,
                *evidence,
                now,
            ),
            match old(self).qualification(node_type, *evidence, now) {
                Some(qualified) => result == Ok::<bool, GovernanceError>(qualified),
                None => result matches Err(e) && e is ConfigError,
            },
    {
        let thresholds = match self.qualification_thresholds_at(node_type, now) {
            Ok(thresholds) => thresholds,
            Err(e) => {
                return Err(e);
            },
        };
        if !check_thresholds(node_type, &thresholds, evidence) {
            return Ok(false);
        }
        if node_type == NodeType::CommonsContributor {
            return self.verify_commons_contributor_qualification(evidence, now);
        }
        Ok(true)
    }

    /// Whether the proof of control stands, given what the check of the
    /// signature over the challenge gave.
    pub fn verify_cryptographic_proofs(
        &self,
        node_type: NodeType,
        evidence: &QualificationProof,
        signature_valid: bool,
    ) -> (result: Result<bool, GovernanceError>)
        ensures
            result == Ok::<bool, GovernanceError>(
                control_proven(node_type, *evidence, signature_valid),
            ),
    {
        Ok(check_control(node_type, evidence, signature_valid))
    }

    /// What weights are calculated with.
    pub fn current_weight_settings(&self) -> (settings: WeightSettings)
        ensures
            settings == self.weight_settings(),
    {
        let mining_pool_weight_cap = match &self.phase_calculator {
            Some(calculator) => match calculator.get_adaptive_parameters() {
                Ok(parameters) => Some(parameters.mining_pool_weight_cap),
                Err(_) => None,
            },
            None => None,
        };
        let btc_price = match self.btc_price_ma {
            Some(price) => price,
            None => DEFAULT_BTC_PRICE,
        };
        let (normalization_factor, minimum_weight) = match &self.commons_contributor_thresholds {
            Some(config) => (
                config.weight_calculation.normalization_factor,
                config.weight_calculation.minimum_weight,
            ),
            None => (DEFAULT_NORMALIZATION, DEFAULT_MINIMUM_WEIGHT),
        };
        WeightSettings { mining_pool_weight_cap, btc_price, normalization_factor, minimum_weight }
    }

    /// The weight of a node of a kind with this evidence. Evidence that
    /// the formula of the kind needs and that is missing is an error.
    pub fn calculate_weight(&self, node_type: NodeType, evidence: &QualificationProof) -> (result:
        Result<u64, GovernanceError>)
        ensures
            match node_weight(self.weight_settings(), node_type, *evidence) {
                Some(weight) => result == Ok::<u64, GovernanceError>(weight as u64) && 0 <= weight
                    <= u64::MAX,
                None => result matches Err(e) && e is CryptoError,
            },
    {
        let settings = self.current_weight_settings();
        weigh(&settings, node_type, evidence)
    }

    /// The weight of a community contributor with this evidence.
    pub fn calculate_commons_contributor_weight(&self, evidence: &QualificationProof) -> (result:
        Result<u64, GovernanceError>)
        ensures
            match node_weight(self.weight_settings(), NodeType::CommonsContributor, *evidence) {
                Some(weight) => result == Ok::<u64, GovernanceError>(weight as u64) && 0 <= weight
                    <= u64::MAX,
                None => result matches Err(e) && e is CryptoError,
            },
    {
        self.calculate_weight(NodeType::CommonsContributor, evidence)
    }

    /// Registers a node. The registration is refused, and no node is
    /// made, where the public key is registered already, where the
    /// evidence does not qualify, where the weight cannot be calculated,
    /// and where the registry is full. Else the node is made: active and
    /// verified at `now` where its proof of control stands, pending where
    /// it does not.
    pub fn register_economic_node(
        &mut self,
        node_type: NodeType,
        entity_name: &str,
        public_key: &str,
        qualification_data: QualificationProof,
        created_by: Option<&str>,
        signature_valid: bool,
        now: i64,
    ) -> (result: Result<i32, GovernanceError>)
        ensures
            registration_outcome(
                *old(self),
                *final(self),
                result,
                node_type,
                entity_name@,
                public_key@,
                qualification_data,
                opt_str(created_by),
                signature_valid,
                now,
            ),
    {
        if self.nodes.find_key(public_key).is_some() {
            return Err(
                database_error_about("Node with public key already registered: ", public_key),
            );
        }
        match self.verify_qualification(node_type, &qualification_data, now) {
            Ok(true) => {},
            Ok(false) => {
                return Err(crypto_error("Node does not meet qualification thresholds"));
            },
            Err(e) => {
                return Err(e);
            },
        }
        let proven = check_control(node_type, &qualification_data, signature_valid);
        let weight = match self.calculate_weight(node_type, &qualification_data) {
            Ok(w) => w,
            Err(e) => {
                return Err(e);
            },
        };
        let count = self.nodes.len();
        if count >= 0x7fff_ffff {
            return Err(database_error("Failed to register node: registry is full"));
        }
        let id: i32 = (count + 1) as i32;
        let node = EconomicNode {
            id,
            node_type,
            entity_name: entity_name.to_owned(),
            public_key: public_key.to_owned(),
            qualification_data,
            weight,
            status: if proven {
                NodeStatus::Active
            } else {
                NodeStatus::Pending
            },
            registered_at: now,
            verified_at: if proven {
                Some(now)
            } else {
                None
            },
            last_verified_at: None,
            created_by: own_opt_str(created_by),
            notes: String::new(),
        };
        let ghost before = self.nodes@;
        self.nodes.push(node);
        proof {
            assert(self.nodes@.subrange(0, before.len() as int) =~= before);
            assert(key_at(self.nodes@, public_key@, before.len() as int));
        }
        Ok(id)
    }

    /// The node with a number. An unknown number is an error.
    pub fn get_node_by_id(&self, node_id: i32) -> (result: Result<&EconomicNode, GovernanceError>)
        ensures
            match result {
                Ok(node) => 1 <= node_id <= self.nodes@.len() && *node == self.nodes@[node_id - 1]
                    && node.id == node_id,
                Err(e) => e is CryptoError && !(1 <= node_id <= self.nodes@.len()),
            },
    {
        let count = self.nodes.len();
        if node_id >= 1 && (node_id as usize) <= count {
            Ok(self.nodes.get((node_id - 1) as usize))
        } else {
            Err(crypto_error("Node not found"))
        }
    }

    /// The active node with a public key, nothing where there is none.
    pub fn find_active_node(&self, public_key: &str) -> (found: Option<&EconomicNode>)
        ensures
            match found {
                Some(node) => node.status == NodeStatus::Active && node.public_key@ == public_key@
                    && 1 <= node.id <= self.nodes@.len() && self.nodes@[node.id - 1] == *node,
                None => forall|i: int|
                    0 <= i < self.nodes@.len() ==> !((#[trigger] self.nodes@[i]).public_key@
                        == public_key@ && self.nodes@[i].status == NodeStatus::Active),
            },
    {
        match self.nodes.find_key(public_key) {
            Some(i) => {
                let node = self.nodes.get(i);
                if node.status == NodeStatus::Active {
                    Some(node)
                } else {
                    None
                }
            },
            None => {
                proof {
                    assert forall|k: int| 0 <= k < self.nodes@.len() implies !((
                    #[trigger] self.nodes@[k]).public_key@ == public_key@) by {
                        assert(!key_at(self.nodes@, public_key@, k));
                    }
                }
                None
            },
        }
    }

    /// The active nodes, the heaviest first; of two with the same weight
    /// the one registered first comes first.
    pub fn get_active_nodes(&self) -> (result: Result<Vec<&EconomicNode>, GovernanceError>)
        ensures
            match result {
                Ok(listed) => active_upto(
                    self.nodes@,
                    listed@.map_values(|n: &EconomicNode| *n),
                    self.nodes@.len() as int,
                ),
                Err(_) => false,
            },
    {
        let mut listed: Vec<&EconomicNode> = Vec::new();
        let count = self.nodes.len();
        let mut i: usize = 0;
        while i < count
            invariant
                i <= count,
                count == self.nodes@.len(),
                nodes_wf(self.nodes@),
                active_upto(self.nodes@, listed@.map_values(|n: &EconomicNode| *n), i as int),
            decreases count - i,
        {
            let node = self.nodes.get(i);
            let ghost views = listed@.map_values(|n: &EconomicNode| *n);
            if node.status == NodeStatus::Active {
                let mut p: usize = 0;
                while p < listed.len() && listed[p].weight >= node.weight
                    invariant
                        p <= listed@.len(),
                        views == listed@.map_values(|n: &EconomicNode| *n),
                        forall|j: int| 0 <= j < p ==> (#[trigger] views[j]).weight >= node.weight,
                    decreases listed@.len() - p,
                {
                    p = p + 1;
                }
                proof {
                    lemma_active_insert(self.nodes@, views, i as int, p as int);
                }
                listed.insert(p, node);
                assert(listed@.map_values(|n: &EconomicNode| *n) =~= views.insert(p as int, *node));
            } else {
                proof {
                    lemma_active_skip(self.nodes@, views, i as int);
                }
            }
            i = i + 1;
        }
        Ok(listed)
    }

    /// Sets the status of a node. A revoked node stays revoked: any
    /// other status for it is refused. An unknown number changes nothing.
    pub fn update_node_status(&mut self, node_id: i32, status: NodeStatus) -> (result: Result<
        (),
        GovernanceError,
    >)
        ensures
            nodes_wf(final(self).nodes@),
            final(self).commons_contributor_thresholds == old(self).commons_contributor_thresholds,
            final(self).config_reader == old(self).config_reader,
            final(self).phase_calculator == old(self).phase_calculator,
            final(self).btc_price_ma == old(self).btc_price_ma,
            if !(1 <= node_id <= old(self).nodes@.len()) {
                result is Ok && final(self).nodes@ == old(self).nodes@
            } else if old(self).nodes@[node_id - 1].status == NodeStatus::Revoked && status
                != NodeStatus::Revoked {
                (result matches Err(e) && e is CryptoError) && final(self).nodes@ == old(self).nodes@
            } else {
                result is Ok && final(self).nodes@ == old(self).nodes@.update(
                    node_id - 1,
                    with_status(old(self).nodes@[node_id - 1], status),
                )
            },
    {
        let count = self.nodes.len();
        if node_id < 1 || (node_id as usize) > count {
            return Ok(());
        }
        let at: usize = (node_id - 1) as usize;
        let node = self.nodes.get(at);
        if node.status == NodeStatus::Revoked && status != NodeStatus::Revoked {
            return Err(crypto_error("A revoked node cannot be given another status"));
        }
        let weight = node.weight;
        self.nodes.replace(at, weight, status);
        Ok(())
    }

    /// Calculates the weight of every node anew from its evidence. A node
    /// whose weight cannot be calculated keeps the weight it has, and the
    /// others are calculated all the same.
    pub fn recalculate_all_weights(&mut self) -> (result: Result<(), GovernanceError>)
        ensures
            result is Ok,
            nodes_wf(final(self).nodes@),
            final(self).commons_contributor_thresholds == old(self).commons_contributor_thresholds,
            final(self).config_reader == old(self).config_reader,
            final(self).phase_calculator == old(self).phase_calculator,
            final(self).btc_price_ma == old(self).btc_price_ma,
            final(self).nodes@ == reweighed(old(self).weight_settings(), old(self).nodes@),
    {
        let settings = self.current_weight_settings();
        let ghost before = self.nodes@;
        let count = self.nodes.len();
        let mut i: usize = 0;
        while i < count
            invariant
                i <= count,
                count == before.len(),
                self.nodes@.len() == count,
                settings == old(self).weight_settings(),
                self.commons_contributor_thresholds == old(self).commons_contributor_thresholds,
                self.config_reader == old(self).config_reader,
                self.phase_calculator == old(self).phase_calculator,
                self.btc_price_ma == old(self).btc_price_ma,
                forall|k: int|
                    0 <= k < i ==> #[trigger] self.nodes@[k] == reweighed_node(settings, before[k]),
                forall|k: int| i <= k < count ==> #[trigger] self.nodes@[k] == before[k],
            decreases count - i,
        {
            let node = self.nodes.get(i);
            let status = node.status;
            match weigh(&settings, node.node_type, &node.qualification_data) {
                Ok(weight) => {
                    self.nodes.replace(i, weight, status);
                },
                Err(_) => {},
            }
            i = i + 1;
        }
        Ok(())
    }
}

/// A listing of the active ones among the first `n` nodes is one of the
/// first `n + 1` where the next node is not active.
proof fn lemma_active_skip(nodes: Seq<EconomicNode>, listed: Seq<EconomicNode>, n: int)
    requires
        nodes_wf(nodes),
        0 <= n < nodes.len(),
        active_upto(nodes, listed, n),
        nodes[n].status != NodeStatus::Active,
    ensures
        active_upto(nodes, listed, n + 1),
{
}

/// A listing of the active ones among the first `n` nodes becomes one of
/// the first `n + 1` where the next node is put in behind all that are
/// not lighter.
proof fn lemma_active_insert(nodes: Seq<EconomicNode>, listed: Seq<EconomicNode>, n: int, p: int)
    requires
        nodes_wf(nodes),
        0 <= n < nodes.len(),
        active_upto(nodes, listed, n),
        nodes[n].status == NodeStatus::Active,
        0 <= p <= listed.len(),
        forall|j: int| 0 <= j < p ==> (#[trigger] listed[j]).weight >= nodes[n].weight,
        p < listed.len() ==> listed[p].weight < nodes[n].weight,
    ensures
        active_upto(nodes, listed.insert(p, nodes[n]), n + 1),
{
    let c = nodes[n];
    let before = |a: EconomicNode, b: EconomicNode| ranks_before(a, b);
    lemma_insert_in_order(listed, c, p, before);
    let after = listed.insert(p, c);
    assert forall|j: int| 0 <= j < after.len() implies 1 <= (#[trigger] after[j]).id <= n + 1
        && nodes[after[j].id - 1] == after[j] && after[j].status == NodeStatus::Active by {
    }
}

/// What a registration does to a registry and what it answers. The
/// registration is refused, and no node is made, where the public key is
/// registered already, which is an error of the store, where the evidence
/// does not qualify, where the weight cannot be calculated, and where the
/// registry is full. Else one
/// node is put at the end of the list: active and verified at `now` where
/// its proof of control stands, pending where it does not.
pub open spec fn registration_outcome(
    before: EconomicNodeRegistry,
    after: EconomicNodeRegistry,
    result: Result<i32, GovernanceError>,
    node_type: NodeType,
    entity_name: Seq<char>,
    public_key: Seq<char>,
    qualification_data: QualificationProof,
    created_by: Option<Seq<char>>,
    signature_valid: bool,
    now: i64,
) -> bool {
    &&& nodes_wf(after.nodes@)
    &&& before.same_settings(after)
    &&& after.reader_view() == if has_public_key(before.nodes@, public_key) {
        before.reader_view()
    } else {
        before.reader_after_qualification(node_type, qualification_data, now)
    }
    &&& match result {
        Ok(id) => {
            &&& !has_public_key(before.nodes@, public_key)
            &&& before.qualification(node_type, qualification_data, now) == Some(true)
            &&& node_weight(before.weight_settings(), node_type, qualification_data) is Some
            &&& id == before.nodes@.len() + 1
            &&& after.nodes@.len() == before.nodes@.len() + 1
            &&& after.nodes@.subrange(0, before.nodes@.len() as int) == before.nodes@
            &&& ({
                let node = after.nodes@.last();
                let proven = control_proven(node_type, qualification_data, signature_valid);
                &&& node.id == id
                &&& node.node_type == node_type
                &&& node.entity_name@ == entity_name
                &&& node.public_key@ == public_key
                &&& node.qualification_data == qualification_data
                &&& node.weight == node_weight(
                    before.weight_settings(),
                    node_type,
                    qualification_data,
                )->0
                &&& node.status == if proven {
                    NodeStatus::Active
                } else {
                    NodeStatus::Pending
                }
                &&& node.registered_at == now
                &&& node.verified_at == if proven {
                    Some(now)
                } else {
                    None
                }
                &&& node.last_verified_at is None
                &&& opt_text(node.created_by) == created_by
            })
            &&& has_public_key(after.nodes@, public_key)
        },
        Err(e) => {
            &&& after.nodes@ == before.nodes@
            &&& if has_public_key(before.nodes@, public_key) {
                e is DatabaseError
            } else {
                match before.qualification(node_type, qualification_data, now) {
                    None => e is ConfigError,
                    Some(false) => e is CryptoError,
                    Some(true) => if node_weight(
                        before.weight_settings(),
                        node_type,
                        qualification_data,
                    ) is None {
                        e is CryptoError
                    } else {
                        e is DatabaseError && before.nodes@.len() == i32::MAX
                    },
                }
            }
        },
    }
}

/// A public key is registered once: after a registration under a key, a
/// second registration under the same key is refused, whatever kind of
/// node and whatever evidence it brings, and no node is made.
pub proof fn law_second_registration_is_refused(
    before: EconomicNodeRegistry,
    between: EconomicNodeRegistry,
    after: EconomicNodeRegistry,
    first: Result<i32, GovernanceError>,
    second: Result<i32, GovernanceError>,
    public_key: Seq<char>,
    first_node: (NodeType, Seq<char>, QualificationProof, Option<Seq<char>>, bool, i64),
    second_node: (NodeType, Seq<char>, QualificationProof, Option<Seq<char>>, bool, i64),
)
    requires
        registration_outcome(
            before,
            between,
            first,
            first_node.0,
            first_node.1,
            public_key,
            first_node.2,
            first_node.3,
            first_node.4,
            first_node.5,
        ),
        first is Ok,
        registration_outcome(
            between,
            after,
            second,
            second_node.0,
            second_node.1,
            public_key,
            second_node.2,
            second_node.3,
            second_node.4,
            second_node.5,
        ),
    ensures
        second matches Err(e) && e is DatabaseError,
        after.nodes@ == between.nodes@,
{
}

/// Two pieces of evidence show the same measures: whatever the formulas
/// of the weights read is the same in both.
pub open spec fn same_measures(first: QualificationProof, second: QualificationProof) -> bool {
    &&& match (first.hashpower_proof, second.hashpower_proof) {
        (Some(a), Some(b)) => a.percentage == b.percentage,
        (None, None) => true,
        _ => false,
    }
    &&& match (first.holdings_proof, second.holdings_proof) {
        (Some(a), Some(b)) => a.total_btc == b.total_btc,
        (None, None) => true,
        _ => false,
    }
    &&& match (first.volume_proof, second.volume_proof) {
        (Some(a), Some(b)) => a.daily_volume_btc == b.daily_volume_btc,
        (None, None) => true,
        _ => false,
    }
    &&& match (first.commons_contributor_proof, second.commons_contributor_proof) {
        (Some(a), Some(b)) => forall|price: u64|
            crate::economic_nodes::weight::total_contribution(a, price)
                == #[trigger] crate::economic_nodes::weight::total_contribution(b, price),
        (None, None) => true,
        _ => false,
    }
}

/// The weight is a function of the measures that the evidence shows and
/// of the settings: evidence with the same measures has the same weight
/// under the same settings, whatever else differs.
pub proof fn law_weight_follows_measures(
    settings: WeightSettings,
    node_type: NodeType,
    first: QualificationProof,
    second: QualificationProof,
)
    requires
        same_measures(first, second),
    ensures
        node_weight(settings, node_type, first) == node_weight(settings, node_type, second),
{
}

/// The evidence shows a share of the hashpower of at least `least`, in
/// fixed-point percent.
pub open spec fn shows_hashpower(evidence: QualificationProof, least: int) -> bool {
    evidence.hashpower_proof matches Some(shown) && shown.percentage >= least
}

/// A mining pool qualifies exactly where it shows a share of the
/// hashpower of at least the configured minimum. The minimum is the
/// value that the reader finds under its key; it is one percent where the
/// key is missing and where the registry has no reader. Where the value
/// under the key is no number, no pool is judged.
pub proof fn law_pool_qualifies_at_configured_minimum(
    registry: EconomicNodeRegistry,
    evidence: QualificationProof,
    now: i64,
)
    ensures
        match registry.config_reader {
            Some(reader) => match reader@.lookup(hashpower_key(), now) {
                Some(value) => match value.as_fixed() {
                    Some(least) => registry.qualification(NodeType::MiningPool, evidence, now)
                        == Some(shows_hashpower(evidence, least as int)),
                    None => registry.qualification(NodeType::MiningPool, evidence, now) is None,
                },
                None => registry.qualification(NodeType::MiningPool, evidence, now) == Some(
                    shows_hashpower(evidence, 100_000_000),
                ),
            },
            None => registry.qualification(NodeType::MiningPool, evidence, now) == Some(
                shows_hashpower(evidence, 100_000_000),
            ),
        },
{
}

/// Calculating the weights anew a second time changes nothing.
pub proof fn law_reweighing_is_idempotent(settings: WeightSettings, nodes: Seq<EconomicNode>)
    ensures
        reweighed(settings, reweighed(settings, nodes)) == reweighed(settings, nodes),
{
}

} // verus!
