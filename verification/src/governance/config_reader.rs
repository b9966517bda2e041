//! Reading governance parameters, with a time-bounded cache in front of
//! the registry.
//!
//! A value is looked for in the cache, then in the registry, then in the
//! file-based defaults; where none of them has it, the caller's fallback
//! stands. A key that is missing is no error. A value that is there and
//! cannot be read as the asked type is one.

use vstd::prelude::*;
use vstd::string::*;
use crate::collections::StringMap;
use crate::config::CommonsContributorThresholdsConfig;
use crate::error::{config_error_about, GovernanceError};
use crate::governance::config_registry::{
    lemma_activate, lemma_pr_value, ConfigChangeStatus, ConfigRegistry, RegistryView,
};
use crate::governance::config_value::{ConfigValue, ConfigValueView};
use crate::text::{
    contains_text, find_chars, first_occurrence, lemma_first_occurrence_unique, numbered,
    numbered_text, parse_u32, parsed_u32, str_equal, to_chars,
};

verus! {

/// How long a cached value is used, in seconds, unless told otherwise.
pub const DEFAULT_CACHE_TTL: u64 = 300;

/// A value in the cache, with the time at which it was read.
#[derive(Debug)]
pub struct CachedValue {
    pub value: ConfigValue,
    pub cached_at: i64,
}

/// A cached value as mathematical data.
pub struct CachedView {
    pub value: ConfigValueView,
    pub cached_at: i64,
}

impl View for CachedValue {
    type V = CachedView;

    open spec fn view(&self) -> CachedView {
        CachedView { value: self.value@, cached_at: self.cached_at }
    }
}

/// A value cached at `cached_at` is still used at `now`.
pub open spec fn cache_fresh(cached_at: i64, now: i64, ttl: u64) -> bool {
    now - cached_at < ttl
}

/// The text between the two numbers of a threshold pair.
pub open spec fn pair_separator() -> Seq<char> {
    "-of-"@
}

/// The two sides of the first separator in a text.
pub open spec fn pair_sides(s: Seq<char>) -> Option<(Seq<char>, Seq<char>)> {
    if contains_text(s, pair_separator()) {
        let at = choose|at: int| first_occurrence(s, pair_separator(), at);
        Some((s.subrange(0, at), s.subrange(at + 4, s.len() as int)))
    } else {
        None
    }
}

/// How the two sides of a threshold text read.
pub enum PairReading {
    /// The text has no separator.
    NoSeparator,
    /// Both sides are numbers.
    Pair(u32, u32),
    /// The left side is no number.
    BadLeft,
    /// The left side is a number and the right side is none.
    BadRight,
}

/// How a threshold text such as `5-of-7` reads.
pub open spec fn pair_reading(s: Seq<char>) -> PairReading {
    match pair_sides(s) {
        Some((left, right)) => match parsed_u32(left) {
            Some(n) => match parsed_u32(right) {
                Some(m) => PairReading::Pair(n, m),
                None => PairReading::BadRight,
            },
            None => PairReading::BadLeft,
        },
        None => PairReading::NoSeparator,
    }
}

/// The threshold pair that a stored value gives: nothing for a value
/// that is no text, and for a text that is not of the form `5-of-7`.
pub open spec fn pair_of_value(v: ConfigValueView) -> Option<(u32, u32)> {
    match v.as_text() {
        Some(text) => match pair_reading(text) {
            PairReading::Pair(n, m) => Some((n, m)),
            _ => None,
        },
        None => None,
    }
}

/// The signatures a tier asks for where nothing is configured.
pub open spec fn tier_default_required(tier: u32) -> u32 {
    if tier == 1 {
        3
    } else if tier == 2 {
        4
    } else if tier == 3 {
        5
    } else if tier == 4 {
        4
    } else if tier == 5 {
        5
    } else {
        1
    }
}

/// The signers a tier has where nothing is configured.
pub open spec fn tier_default_total(tier: u32) -> u32 {
    if 1 <= tier <= 5 {
        5
    } else {
        1
    }
}

/// The review period of a tier, in days, where nothing is configured.
pub open spec fn tier_default_review_period(tier: u32) -> i32 {
    if tier == 1 {
        7
    } else if tier == 2 {
        30
    } else if tier == 3 {
        90
    } else if tier == 4 {
        0
    } else if tier == 5 {
        180
    } else {
        30
    }
}

/// The boundary of a phase for a metric where nothing is configured.
pub open spec fn phase_default(phase: Seq<char>, metric: Seq<char>) -> u64 {
    if phase == "early"@ && metric == "max_blocks"@ {
        50_000
    } else if phase == "early"@ && metric == "max_nodes"@ {
        10
    } else if phase == "early"@ && metric == "max_contributors"@ {
        10
    } else if phase == "growth"@ && metric == "min_blocks"@ {
        50_000
    } else if phase == "growth"@ && metric == "max_blocks"@ {
        200_000
    } else if phase == "growth"@ && metric == "min_nodes"@ {
        10
    } else if phase == "growth"@ && metric == "max_nodes"@ {
        30
    } else if phase == "growth"@ && metric == "min_contributors"@ {
        10
    } else if phase == "growth"@ && metric == "max_contributors"@ {
        100
    } else if phase == "mature"@ && metric == "min_blocks"@ {
        200_000
    } else if phase == "mature"@ && metric == "min_nodes"@ {
        30
    } else if phase == "mature"@ && metric == "min_contributors"@ {
        100
    } else {
        0
    }
}

/// A setting of an emergency tier where nothing is configured.
pub open spec fn emergency_default(tier: u32, config_type: Seq<char>) -> u32 {
    if tier == 1 && config_type == "review_period_days"@ {
        0
    } else if tier == 1 && config_type == "max_duration_days"@ {
        7
    } else if tier == 1 && config_type == "signature_threshold"@ {
        4
    } else if tier == 2 && config_type == "review_period_days"@ {
        7
    } else if tier == 2 && config_type == "max_duration_days"@ {
        30
    } else if tier == 2 && config_type == "max_extensions"@ {
        1
    } else if tier == 2 && config_type == "signature_threshold"@ {
        5
    } else if tier == 3 && config_type == "review_period_days"@ {
        30
    } else if tier == 3 && config_type == "max_duration_days"@ {
        90
    } else if tier == 3 && config_type == "max_extensions"@ {
        2
    } else if tier == 3 && config_type == "signature_threshold"@ {
        6
    } else {
        0
    }
}

/// The key of a tier's setting.
pub open spec fn tier_key(tier: u32, suffix: Seq<char>) -> Seq<char> {
    numbered("tier_"@, tier as nat, suffix)
}

/// The key of a phase boundary.
pub open spec fn phase_key(phase: Seq<char>, metric: Seq<char>) -> Seq<char> {
    "phase_"@ + phase + "_"@ + metric
}

/// The key of an emergency tier's setting.
pub open spec fn emergency_key(tier: u32, config_type: Seq<char>) -> Seq<char> {
    numbered("emergency_tier_"@, tier as nat, "_"@) + config_type
}

/// The reader as mathematical data.
pub struct ReaderView {
    pub registry: RegistryView,
    pub cache: Map<Seq<char>, CachedView>,
    pub yaml: Option<Map<Seq<char>, ConfigValueView>>,
    pub ttl: u64,
}

impl ReaderView {
    /// The value that the cache gives for a key at `now`.
    pub open spec fn cached(self, key: Seq<char>, now: i64) -> Option<ConfigValueView> {
        if self.cache.contains_key(key) && cache_fresh(self.cache[key].cached_at, now, self.ttl) {
            Some(self.cache[key].value)
        } else {
            None
        }
    }

    /// The value that lies behind the cache: the registry's live value,
    /// and for a key that the registry does not know the value of the
    /// file-based defaults.
    pub open spec fn stored(self, key: Seq<char>) -> Option<ConfigValueView> {
        match self.registry.current_value(key) {
            Some(v) => Some(v),
            None => match self.yaml {
                Some(values) => if values.contains_key(key) {
                    Some(values[key])
                } else {
                    None
                },
                None => None,
            },
        }
    }

    /// The value that a read of a key at `now` finds.
    pub open spec fn lookup(self, key: Seq<char>, now: i64) -> Option<ConfigValueView> {
        match self.cached(key, now) {
            Some(v) => Some(v),
            None => self.stored(key),
        }
    }

    /// The reader after a read of a key at `now`: a value found behind
    /// the cache is cached with that time.
    pub open spec fn after_read(self, key: Seq<char>, now: i64) -> ReaderView {
        if self.cached(key, now) is Some {
            self
        } else {
            match self.stored(key) {
                Some(v) => ReaderView {
                    cache: self.cache.insert(key, CachedView { value: v, cached_at: now }),
                    ..self
                },
                None => self,
            }
        }
    }

    /// The reader after reads of several keys at `now`, one after the
    /// other.
    pub open spec fn after_reads(self, keys: Seq<Seq<char>>, now: i64) -> ReaderView
        decreases keys.len(),
    {
        if keys.len() == 0 {
            self
        } else {
            self.after_reads(keys.drop_last(), now).after_read(keys.last(), now)
        }
    }

    /// What a read as a signed 32-bit number gives: the fallback for a
    /// missing key, nothing for a value of another kind.
    pub open spec fn read_i32(self, key: Seq<char>, fallback: i32, now: i64) -> Option<i32> {
        match self.lookup(key, now) {
            Some(v) => v.as_i32(),
            None => Some(fallback),
        }
    }

    /// What a read as an unsigned 32-bit number gives.
    pub open spec fn read_u32(self, key: Seq<char>, fallback: u32, now: i64) -> Option<u32> {
        match self.lookup(key, now) {
            Some(v) => v.as_u32(),
            None => Some(fallback),
        }
    }

    /// What a read as a fixed-point number gives.
    pub open spec fn read_fixed(self, key: Seq<char>, fallback: i64, now: i64) -> Option<i64> {
        match self.lookup(key, now) {
            Some(v) => v.as_fixed(),
            None => Some(fallback),
        }
    }

    /// What a read as a flag gives.
    pub open spec fn read_bool(self, key: Seq<char>, fallback: bool, now: i64) -> Option<bool> {
        match self.lookup(key, now) {
            Some(v) => v.as_bool(),
            None => Some(fallback),
        }
    }

    /// What a read as a text gives.
    pub open spec fn read_text(self, key: Seq<char>, fallback: Seq<char>, now: i64) -> Option<
        Seq<char>,
    > {
        match self.lookup(key, now) {
            Some(v) => v.as_text(),
            None => Some(fallback),
        }
    }

    /// What a read of two unsigned numbers one after the other gives.
    pub open spec fn read_u32_pair(
        self,
        first: Seq<char>,
        first_fallback: u32,
        second: Seq<char>,
        second_fallback: u32,
        now: i64,
    ) -> Option<(u32, u32)> {
        match self.read_u32(first, first_fallback, now) {
            Some(a) => match self.after_read(first, now).read_u32(second, second_fallback, now) {
                Some(b) => Some((a, b)),
                None => None,
            },
            None => None,
        }
    }

    /// The reader after a read of two unsigned numbers: the second is not
    /// read where the first is of another kind.
    pub open spec fn after_read_u32_pair(
        self,
        first: Seq<char>,
        first_fallback: u32,
        second: Seq<char>,
        now: i64,
    ) -> ReaderView {
        if self.read_u32(first, first_fallback, now) is Some {
            self.after_read(first, now).after_read(second, now)
        } else {
            self.after_read(first, now)
        }
    }

    /// What a read of two fixed-point numbers one after the other gives.
    pub open spec fn read_fixed_pair(
        self,
        first: Seq<char>,
        first_fallback: i64,
        second: Seq<char>,
        second_fallback: i64,
        now: i64,
    ) -> Option<(i64, i64)> {
        match self.read_fixed(first, first_fallback, now) {
            Some(a) => match self.after_read(first, now).read_fixed(second, second_fallback, now) {
                Some(b) => Some((a, b)),
                None => None,
            },
            None => None,
        }
    }

    /// The reader after a read of two fixed-point numbers.
    pub open spec fn after_read_fixed_pair(
        self,
        first: Seq<char>,
        first_fallback: i64,
        second: Seq<char>,
        now: i64,
    ) -> ReaderView {
        if self.read_fixed(first, first_fallback, now) is Some {
            self.after_read(first, now).after_read(second, now)
        } else {
            self.after_read(first, now)
        }
    }

    /// The reader after the activation of a proposal: the registry has
    /// activated it, and the cache has forgotten the proposal's key.
    pub open spec fn activated(self, id: int, activation_pr_id: Option<i32>, now: i64)
        -> ReaderView {
        ReaderView {
            registry: self.registry.activate(id, activation_pr_id, now),
            cache: self.cache.remove(self.registry.change(id).config_key),
            ..self
        }
    }

    /// The reader after every approved proposal that is linked to an
    /// approval reference was activated: the registry has activated them
    /// in their order, and the cache has forgotten the key of each.
    pub open spec fn processed(self, pr_id: i32, now: i64) -> ReaderView {
        let n = self.registry.changes.len() as int;
        ReaderView {
            registry: self.registry.process_pr(pr_id, n, now),
            cache: self.cache.remove_keys(self.registry.pr_keys(pr_id, n).to_set()),
            ..self
        }
    }
}

/// One hundred percent as a fixed-point number of percent.
pub const PERCENT: i64 = 100_000_000;

/// The keys and defaults of a layer's signature settings, nothing for a
/// layer without settings.
pub open spec fn layer_signature_settings(layer: i32) -> Option<(Seq<char>, Seq<char>, u32, u32)> {
    if layer == 1 || layer == 2 {
        Some(("layer_1_2_signatures_required"@, "layer_1_2_signatures_total"@, 6u32, 7u32))
    } else if layer == 3 {
        Some(("layer_3_signatures_required"@, "layer_3_signatures_total"@, 4u32, 5u32))
    } else if layer == 4 {
        Some(("layer_4_signatures_required"@, "layer_4_signatures_total"@, 3u32, 5u32))
    } else if layer == 5 {
        Some(("layer_5_signatures_required"@, "layer_5_signatures_total"@, 2u32, 3u32))
    } else {
        None
    }
}

/// The key and default of a layer's review period, nothing for a layer
/// without settings.
pub open spec fn layer_review_settings(layer: i32) -> Option<(Seq<char>, i32)> {
    if layer == 1 || layer == 2 {
        Some(("layer_1_2_review_period_days"@, 180i32))
    } else if layer == 3 {
        Some(("layer_3_review_period_days"@, 90i32))
    } else if layer == 4 {
        Some(("layer_4_review_period_days"@, 60i32))
    } else if layer == 5 {
        Some(("layer_5_review_period_days"@, 14i32))
    } else {
        None
    }
}

/// The keys and defaults of a tier's veto thresholds, in percent of the
/// mining weight and of the economic weight; nothing for a tier without
/// settings of its own.
pub open spec fn veto_settings(tier: u32) -> Option<(Seq<char>, Seq<char>, i64, i64)> {
    if tier == 3 {
        Some(
            (
                "veto_tier_3_mining_percent"@,
                "veto_tier_3_economic_percent"@,
                (30 * PERCENT) as i64,
                (40 * PERCENT) as i64,
            ),
        )
    } else if tier == 4 {
        Some(
            (
                "veto_tier_4_mining_percent"@,
                "veto_tier_4_economic_percent"@,
                (25 * PERCENT) as i64,
                (35 * PERCENT) as i64,
            ),
        )
    } else if tier == 5 {
        Some(
            (
                "signaling_tier_5_mining_percent"@,
                "signaling_tier_5_economic_percent"@,
                (50 * PERCENT) as i64,
                (60 * PERCENT) as i64,
            ),
        )
    } else {
        None
    }
}

/// The key of the least contribution of one kind.
pub open spec fn commons_threshold_key(threshold_type: Seq<char>) -> Seq<char> {
    "commons_contributor_min_"@ + threshold_type + "_btc"@
}

/// The key of the least measured period.
pub open spec fn commons_period_key() -> Seq<char> {
    "commons_contributor_measurement_period_days"@
}

/// The key of the qualification mode.
pub open spec fn commons_logic_key() -> Seq<char> {
    "commons_contributor_qualification_logic"@
}

/// The least contribution of one kind, in satoshis, as the file-based
/// thresholds give it, and where there are none as it is built in.
/// Nothing for an unknown kind.
pub open spec fn commons_threshold_fallback(
    yaml_config: Option<CommonsContributorThresholdsConfig>,
    threshold_type: Seq<char>,
) -> Option<u64> {
    match yaml_config {
        Some(yaml) => {
            let thresholds = yaml.commons_contributor_thresholds;
            if threshold_type == "merge_mining"@ {
                Some(thresholds.merge_mining.minimum_contribution_btc)
            } else if threshold_type == "fee_forwarding"@ {
                Some(thresholds.fee_forwarding.minimum_contribution_btc)
            } else if threshold_type == "zaps"@ {
                Some(thresholds.zaps.minimum_contribution_btc)
            } else if threshold_type == "marketplace"@ {
                Some(thresholds.marketplace.minimum_contribution_btc)
            } else {
                None
            }
        },
        None => {
            if threshold_type == "merge_mining"@ {
                Some(1_000_000u64)
            } else if threshold_type == "fee_forwarding"@ {
                Some(10_000_000u64)
            } else if threshold_type == "zaps"@ {
                Some(1_000_000u64)
            } else if threshold_type == "marketplace"@ {
                Some(1_000_000u64)
            } else {
                None
            }
        },
    }
}

/// The least measured period, in days, where the registry gives none.
pub open spec fn commons_period_fallback(yaml_config: Option<CommonsContributorThresholdsConfig>)
    -> u32 {
    match yaml_config {
        Some(yaml) => yaml.commons_contributor_thresholds.measurement_period_days,
        None => 90,
    }
}

impl ReaderView {
    /// The least contribution of one kind, in satoshis: the configured
    /// value where it is above zero; the fallback where the key is
    /// missing or its value is not above zero. Nothing where the
    /// configured value is no number, and where the fallback is asked for
    /// an unknown kind.
    pub open spec fn commons_threshold(
        self,
        yaml_config: Option<CommonsContributorThresholdsConfig>,
        threshold_type: Seq<char>,
        now: i64,
    ) -> Option<u64> {
        match self.read_fixed(commons_threshold_key(threshold_type), 0, now) {
            Some(v) => if v > 0 {
                Some(v as u64)
            } else {
                commons_threshold_fallback(yaml_config, threshold_type)
            },
            None => None,
        }
    }

    /// The least measured period, in days: the configured value where it
    /// is above zero; the fallback where the key is missing or its value
    /// is zero. Nothing where the configured value is no unsigned number.
    pub open spec fn commons_period(
        self,
        yaml_config: Option<CommonsContributorThresholdsConfig>,
        now: i64,
    ) -> Option<u32> {
        match self.read_u32(commons_period_key(), 0, now) {
            Some(v) => if v > 0 {
                Some(v)
            } else {
                Some(commons_period_fallback(yaml_config))
            },
            None => None,
        }
    }
}

/// A reader of governance parameters with a cache.
pub struct ConfigReader {
    /// The registry that the reader reads.
    pub registry: ConfigRegistry,
    /// Thresholds for community contributors from the file-based
    /// configuration.
    pub yaml_config: Option<CommonsContributorThresholdsConfig>,
    /// The values of the file-based defaults by key.
    pub yaml_values: Option<StringMap<ConfigValue>>,
    /// The values read lately.
    pub cache: StringMap<CachedValue>,
    /// How long a cached value is used, in seconds.
    pub cache_ttl: u64,
}

impl View for ConfigReader {
    type V = ReaderView;

    open spec fn view(&self) -> ReaderView {
        ReaderView {
            registry: self.registry@,
            cache: self.cache@.map_values(|c: CachedValue| c@),
            yaml: match self.yaml_values {
                Some(values) => Some(values@.map_values(|v: ConfigValue| v@)),
                None => None,
            },
            ttl: self.cache_ttl,
        }
    }
}

impl ConfigReader {
    /// A reader of a registry, with an empty cache.
    pub fn new(registry: ConfigRegistry) -> (reader: ConfigReader)
        ensures
            reader.registry == registry,
            reader@.cache == Map::<Seq<char>, CachedView>::empty(),
            reader@.yaml is None,
            reader@.ttl == DEFAULT_CACHE_TTL,
            reader.yaml_config is None,
    {
        let reader = ConfigReader {
            registry,
            yaml_config: None,
            yaml_values: None,
            cache: StringMap::new(),
            cache_ttl: DEFAULT_CACHE_TTL,
        };
        reader
    }

    /// A reader that falls back on the file-based thresholds for
    /// community contributors.
    pub fn with_yaml_config(
        registry: ConfigRegistry,
        yaml_config: Option<CommonsContributorThresholdsConfig>,
    ) -> (reader: ConfigReader)
        ensures
            reader.registry == registry,
            reader@.cache == Map::<Seq<char>, CachedView>::empty(),
            reader@.yaml is None,
            reader@.ttl == DEFAULT_CACHE_TTL,
            reader.yaml_config == yaml_config,
    {
        let reader = ConfigReader {
            registry,
            yaml_config,
            yaml_values: None,
            cache: StringMap::new(),
            cache_ttl: DEFAULT_CACHE_TTL,
        };
        reader
    }

    /// A reader that falls back on the values of the file-based defaults.
    pub fn with_yaml_loader(registry: ConfigRegistry, yaml_values: Option<StringMap<ConfigValue>>)
        -> (reader: ConfigReader)
        ensures
            reader.registry == registry,
            reader@.cache == Map::<Seq<char>, CachedView>::empty(),
            reader.yaml_values == yaml_values,
            reader@.ttl == DEFAULT_CACHE_TTL,
            reader.yaml_config is None,
    {
        let reader = ConfigReader {
            registry,
            yaml_config: None,
            yaml_values,
            cache: StringMap::new(),
            cache_ttl: DEFAULT_CACHE_TTL,
        };
        reader
    }

    fn read_cache(&self, key: &str, now: i64) -> (value: Option<ConfigValue>)
        ensures
            match value {
                Some(v) => self@.cached(key@, now) == Some(v@),
                None => self@.cached(key@, now) is None,
            },
    {
        match self.cache.get(key) {
            Some(cached) => {
                if (now as i128) - (cached.cached_at as i128) < (self.cache_ttl as i128) {
                    Some(cached.value.duplicate())
                } else {
                    None
                }
            },
            None => None,
        }
    }

    fn read_stored(&self, key: &str) -> (value: Option<ConfigValue>)
        ensures
            match value {
                Some(v) => self@.stored(key@) == Some(v@),
                None => self@.stored(key@) is None,
            },
    {
        match self.registry.get_current_value(key) {
            Ok(Some(v)) => {
                return Some(v);
            },
            _ => {},
        }
        match &self.yaml_values {
            Some(values) => match values.get(key) {
                Some(v) => Some(v.duplicate()),
                None => None,
            },
            None => None,
        }
    }

    /// Reads the value of a key: from the cache where it has a fresh one,
    /// else from the registry, else from the file-based defaults. A value
    /// found behind the cache is cached.
    pub fn get_value(&mut self, key: &str, now: i64) -> (result: Result<
        Option<ConfigValue>,
        GovernanceError,
    >)
        ensures
            final(self)@ == old(self)@.after_read(key@, now),
            final(self).yaml_config == old(self).yaml_config,
            final(self).registry.spec_config_path() == old(self).registry.spec_config_path(),
            match result {
                Ok(Some(v)) => old(self)@.lookup(key@, now) == Some(v@),
                Ok(None) => old(self)@.lookup(key@, now) is None,
                Err(_) => false,
            },
    {
        match self.read_cache(key, now) {
            Some(v) => {
                return Ok(Some(v));
            },
            None => {},
        }
        match self.read_stored(key) {
            Some(v) => {
                let ghost before = self.cache@;
                let cached = CachedValue { value: v.duplicate(), cached_at: now };
                self.cache.insert(key, cached);
                assert(self.cache@.map_values(|c: CachedValue| c@) =~= before.map_values(
                    |c: CachedValue| c@,
                ).insert(key@, cached@));
                Ok(Some(v))
            },
            None => Ok(None),
        }
    }

    /// Reads the value of a key, the fallback where the key is missing.
    pub fn get_value_with_fallback(&mut self, key: &str, fallback: ConfigValue, now: i64) -> (result:
        Result<ConfigValue, GovernanceError>)
        ensures
            final(self)@ == old(self)@.after_read(key@, now),
            final(self).yaml_config == old(self).yaml_config,
            final(self).registry.spec_config_path() == old(self).registry.spec_config_path(),
            match result {
                Ok(v) => v@ == match old(self)@.lookup(key@, now) {
                    Some(found) => found,
                    None => fallback@,
                },
                Err(_) => false,
            },
    {
        match self.get_value(key, now) {
            Ok(Some(v)) => Ok(v),
            _ => Ok(fallback),
        }
    }

    /// Reads a signed 32-bit number.
    pub fn get_i32(&mut self, key: &str, fallback: i32, now: i64) -> (result: Result<
        i32,
        GovernanceError,
    >)
        ensures
            final(self)@ == old(self)@.after_read(key@, now),
            final(self).yaml_config == old(self).yaml_config,
            final(self).registry.spec_config_path() == old(self).registry.spec_config_path(),
            match result {
                Ok(n) => old(self)@.read_i32(key@, fallback, now) == Some(n),
                Err(e) => e is ConfigError && old(self)@.read_i32(key@, fallback, now) is None,
            },
    {
        match self.get_value(key, now) {
            Ok(Some(v)) => match v.to_i32() {
                Some(n) => Ok(n),
                None => Err(config_error_about("Config '", key, "' is not a valid integer")),
            },
            _ => Ok(fallback),
        }
    }

    /// Reads an unsigned 32-bit number.
    pub fn get_u32(&mut self, key: &str, fallback: u32, now: i64) -> (result: Result<
        u32,
        GovernanceError,
    >)
        ensures
            final(self)@ == old(self)@.after_read(key@, now),
            final(self).yaml_config == old(self).yaml_config,
            final(self).registry.spec_config_path() == old(self).registry.spec_config_path(),
            match result {
                Ok(n) => old(self)@.read_u32(key@, fallback, now) == Some(n),
                Err(e) => e is ConfigError && old(self)@.read_u32(key@, fallback, now) is None,
            },
    {
        match self.get_value(key, now) {
            Ok(Some(v)) => match v.to_u32() {
                Some(n) => Ok(n),
                None => Err(
                    config_error_about("Config '", key, "' is not a valid unsigned integer"),
                ),
            },
            _ => Ok(fallback),
        }
    }

    /// Reads a number with a fraction, in hundred-millionths.
    pub fn get_f64(&mut self, key: &str, fallback: i64, now: i64) -> (result: Result<
        i64,
        GovernanceError,
    >)
        ensures
            final(self)@ == old(self)@.after_read(key@, now),
            final(self).yaml_config == old(self).yaml_config,
            final(self).registry.spec_config_path() == old(self).registry.spec_config_path(),
            match result {
                Ok(n) => old(self)@.read_fixed(key@, fallback, now) == Some(n),
                Err(e) => e is ConfigError && old(self)@.read_fixed(key@, fallback, now) is None,
            },
    {
        match self.get_value(key, now) {
            Ok(Some(v)) => match v.to_fixed() {
                Some(n) => Ok(n),
                None => Err(config_error_about("Config '", key, "' is not a valid float")),
            },
            _ => Ok(fallback),
        }
    }

    /// Reads a flag.
    pub fn get_bool(&mut self, key: &str, fallback: bool, now: i64) -> (result: Result<
        bool,
        GovernanceError,
    >)
        ensures
            final(self)@ == old(self)@.after_read(key@, now),
            final(self).yaml_config == old(self).yaml_config,
            final(self).registry.spec_config_path() == old(self).registry.spec_config_path(),
            match result {
                Ok(b) => old(self)@.read_bool(key@, fallback, now) == Some(b),
                Err(e) => e is ConfigError && old(self)@.read_bool(key@, fallback, now) is None,
            },
    {
        match self.get_value(key, now) {
            Ok(Some(v)) => match v.to_bool() {
                Some(b) => Ok(b),
                None => Err(config_error_about("Config '", key, "' is not a valid boolean")),
            },
            _ => Ok(fallback),
        }
    }

    /// Reads a text.
    pub fn get_string(&mut self, key: &str, fallback: &str, now: i64) -> (result: Result<
        String,
        GovernanceError,
    >)
        ensures
            final(self)@ == old(self)@.after_read(key@, now),
            final(self).yaml_config == old(self).yaml_config,
            final(self).registry.spec_config_path() == old(self).registry.spec_config_path(),
            match result {
                Ok(s) => old(self)@.read_text(key@, fallback@, now) == Some(s@),
                Err(e) => e is ConfigError && old(self)@.read_text(key@, fallback@, now) is None,
            },
    {
        match self.get_value(key, now) {
            Ok(Some(v)) => match v.to_text() {
                Some(s) => Ok(s),
                None => Err(config_error_about("Config '", key, "' is not a valid string")),
            },
            _ => Ok(fallback.to_owned()),
        }
    }

    /// Reads a threshold pair from a text such as `5-of-7`. The fallback
    /// stands for a missing key and for nothing else: a value that is
    /// there and is no text of that form is an error.
    pub fn get_threshold_pair(&mut self, key: &str, fallback: (u32, u32), now: i64) -> (result:
        Result<(u32, u32), GovernanceError>)
        ensures
            final(self)@ == old(self)@.after_read(key@, now),
            final(self).yaml_config == old(self).yaml_config,
            final(self).registry.spec_config_path() == old(self).registry.spec_config_path(),
            match old(self)@.lookup(key@, now) {
                Some(v) => match pair_of_value(v) {
                    Some(pair) => result == Ok::<(u32, u32), GovernanceError>(pair),
                    None => result matches Err(e) && e is ConfigError,
                },
                None => result == Ok::<(u32, u32), GovernanceError>(fallback),
            },
    {
        let value = match self.get_value(key, now) {
            Ok(Some(v)) => v,
            _ => {
                return Ok(fallback);
            },
        };
        let text = match value.to_text() {
            Some(s) => s,
            None => {
                return Err(config_error_about("Config '", key, "' is not a valid string"));
            },
        };
        match parse_threshold_pair(text.as_str()) {
            PairReading::Pair(n, m) => Ok((n, m)),
            PairReading::NoSeparator => Err(
                config_error_about("Invalid threshold format in '", key, "': expected N-of-M"),
            ),
            PairReading::BadLeft => Err(
                config_error_about("Invalid threshold format in '", key, "': cannot parse N"),
            ),
            PairReading::BadRight => Err(
                config_error_about("Invalid threshold format in '", key, "': cannot parse M"),
            ),
        }
    }

    /// Forgets every cached value.
    pub fn clear_cache(&mut self)
        ensures
            final(self)@ == (ReaderView {
                cache: Map::<Seq<char>, CachedView>::empty(),
                ..old(self)@
            }),
            final(self).yaml_config == old(self).yaml_config,
            final(self).registry.spec_config_path() == old(self).registry.spec_config_path(),
    {
        self.cache.clear();
        assert(self@.cache =~= Map::<Seq<char>, CachedView>::empty());
    }

    /// Forgets the cached value of one key.
    pub fn invalidate_key(&mut self, key: &str)
        ensures
            final(self)@ == (ReaderView { cache: old(self)@.cache.remove(key@), ..old(self)@ }),
            final(self).yaml_config == old(self).yaml_config,
            final(self).registry.spec_config_path() == old(self).registry.spec_config_path(),
    {
        let ghost before = self.cache@;
        self.cache.remove(key);
        assert(self.cache@.map_values(|c: CachedValue| c@) =~= before.map_values(
            |c: CachedValue| c@,
        ).remove(key@));
    }

    /// Activates an approved proposal in the registry and forgets the
    /// cached value of its key, so that the next read gives the new
    /// value.
    pub fn activate_change(&mut self, change_id: i32, activation_pr_id: Option<i32>, now: i64)
        -> (result: Result<String, GovernanceError>)
        ensures
            final(self).yaml_config == old(self).yaml_config,
            final(self).registry.spec_config_path() == old(self).registry.spec_config_path(),
            final(self)@.registry.wf(),
            match result {
                Ok(key) => {
                    &&& old(self)@.registry.change_is(
                        change_id as int,
                        ConfigChangeStatus::Approved,
                    )
                    &&& key@ == old(self)@.registry.change(change_id as int).config_key
                    &&& final(self)@ == old(self)@.activated(
                        change_id as int,
                        activation_pr_id,
                        now,
                    )
                    &&& forall|later: i64| #[trigger]
                        final(self)@.lookup(key@, later) == Some(
                            old(self)@.registry.change(change_id as int).proposed_value,
                        )
                },
                Err(e) => {
                    &&& e is ConfigError
                    &&& !old(self)@.registry.change_is(
                        change_id as int,
                        ConfigChangeStatus::Approved,
                    )
                    &&& final(self)@ == old(self)@
                },
            },
    {
        match self.registry.activate_change(change_id, activation_pr_id, now) {
            Ok(key) => {
                self.invalidate_key(key.as_str());
                Ok(key)
            },
            Err(e) => Err(e),
        }
    }

    /// Activates every approved proposal that is linked to an approval
    /// reference, in the order in which the proposals were made, and
    /// forgets the cached value of each changed key. Returns those keys
    /// in that order. Every later read of one of them gives the value
    /// that was proposed for it, the last one where several proposals
    /// were about one key.
    pub fn process_pr_config_changes(&mut self, pr_id: i32, pr_body: &str, now: i64) -> (result:
        Result<Vec<String>, GovernanceError>)
        ensures
            final(self).yaml_config == old(self).yaml_config,
            final(self).registry.spec_config_path() == old(self).registry.spec_config_path(),
            final(self)@.registry.wf(),
            match result {
                Ok(keys) => {
                    &&& keys@.map_values(|k: String| k@) == old(self)@.registry.pr_keys(
                        pr_id,
                        old(self)@.registry.changes.len() as int,
                    )
                    &&& final(self)@ == old(self)@.processed(pr_id, now)
                    &&& forall|i: int, later: i64|
                        0 <= i < keys@.len() ==> #[trigger] final(self)@.lookup(keys@[i]@, later)
                            == old(self)@.registry.pr_value(
                            pr_id,
                            old(self)@.registry.changes.len() as int,
                            keys@[i]@,
                        ) && final(self)@.lookup(keys@[i]@, later) is Some
                },
                Err(_) => false,
            },
    {
        let ghost before = self@;
        let ghost total = before.registry.changes.len() as int;
        self.registry.check_wf();
        let keys = match self.registry.process_pr_config_changes(pr_id, pr_body, now) {
            Ok(keys) => keys,
            Err(e) => {
                return Err(e);
            },
        };
        let ghost changed = keys@.map_values(|k: String| k@);
        let mut i: usize = 0;
        while i < keys.len()
            invariant
                i <= keys.len(),
                changed == keys@.map_values(|k: String| k@),
                self.yaml_config == old(self).yaml_config,
                self.registry.spec_config_path() == old(self).registry.spec_config_path(),
                self@.registry == before.registry.process_pr(pr_id, total, now),
                self@.yaml == before.yaml,
                self@.ttl == before.ttl,
                self@.cache == before.cache.remove_keys(changed.take(i as int).to_set()),
            decreases keys.len() - i,
        {
            let ghost earlier = changed.take(i as int);
            let ghost longer = changed.take(i + 1);
            self.invalidate_key(keys[i].as_str());
            proof {
                assert(longer[i as int] == changed[i as int]);
                assert forall|k: Seq<char>| longer.contains(k) <==> (earlier.contains(k) || k
                    == changed[i as int]) by {
                    if earlier.contains(k) {
                        let at = choose|j: int| 0 <= j < earlier.len() && earlier[j] == k;
                        assert(longer[at] == k);
                    }
                    if longer.contains(k) && k != changed[i as int] {
                        let at = choose|j: int| 0 <= j < longer.len() && longer[j] == k;
                        assert(earlier[at] == k);
                    }
                }
                assert(self@.cache =~= before.cache.remove_keys(longer.to_set()));
            }
            i = i + 1;
        }
        proof {
            assert(changed.take(keys.len() as int) =~= changed);
            assert(self@ == before.processed(pr_id, now));
            assert forall|j: int, later: i64| 0 <= j < keys@.len() implies #[trigger] self@.lookup(
                keys@[j]@,
                later,
            ) == before.registry.pr_value(pr_id, total, keys@[j]@) && self@.lookup(
                keys@[j]@,
                later,
            ) is Some by {
                assert(changed[j] == keys@[j]@);
                assert(changed.contains(keys@[j]@));
                lemma_pr_value(before.registry, pr_id, total, now, keys@[j]@);
            }
        }
        Ok(keys)
    }

    /// The signatures that a tier asks for and the signers it has.
    pub fn get_tier_signatures(&mut self, tier: u32, now: i64) -> (result: Result<
        (usize, usize),
        GovernanceError,
    >)
        ensures
            final(self).yaml_config == old(self).yaml_config,
            final(self).registry.spec_config_path() == old(self).registry.spec_config_path(),
            final(self)@ == old(self)@.after_read_u32_pair(
                tier_key(tier, "_signatures_required"@),
                tier_default_required(tier),
                tier_key(tier, "_signatures_total"@),
                now,
            ),
            match old(self)@.read_u32_pair(
                tier_key(tier, "_signatures_required"@),
                tier_default_required(tier),
                tier_key(tier, "_signatures_total"@),
                tier_default_total(tier),
                now,
            ) {
                Some((required, total)) => result == Ok::<(usize, usize), GovernanceError>(
                    (required as usize, total as usize),
                ),
                None => result matches Err(e) && e is ConfigError,
            },
    {
        let required_key = numbered_text("tier_", tier as u64, "_signatures_required");
        let total_key = numbered_text("tier_", tier as u64, "_signatures_total");
        let required = match self.get_u32(required_key.as_str(), tier_required_default(tier), now) {
            Ok(n) => n,
            Err(e) => {
                return Err(e);
            },
        };
        let total = match self.get_u32(total_key.as_str(), tier_total_default(tier), now) {
            Ok(n) => n,
            Err(e) => {
                return Err(e);
            },
        };
        Ok((required as usize, total as usize))
    }

    /// The review period of a tier, in days.
    pub fn get_tier_review_period(&mut self, tier: u32, now: i64) -> (result: Result<
        i64,
        GovernanceError,
    >)
        ensures
            final(self).yaml_config == old(self).yaml_config,
            final(self).registry.spec_config_path() == old(self).registry.spec_config_path(),
            final(self)@ == old(self)@.after_read(tier_key(tier, "_review_period_days"@), now),
            match old(self)@.read_i32(
                tier_key(tier, "_review_period_days"@),
                tier_default_review_period(tier),
                now,
            ) {
                Some(days) => result == Ok::<i64, GovernanceError>(days as i64),
                None => result matches Err(e) && e is ConfigError,
            },
    {
        let key = numbered_text("tier_", tier as u64, "_review_period_days");
        match self.get_i32(key.as_str(), tier_review_default(tier), now) {
            Ok(days) => Ok(days as i64),
            Err(e) => Err(e),
        }
    }

    /// The signatures that a layer asks for and the signers it has; one of
    /// one for a layer without settings.
    pub fn get_layer_signatures(&mut self, layer: i32, now: i64) -> (result: Result<
        (usize, usize),
        GovernanceError,
    >)
        ensures
            final(self).yaml_config == old(self).yaml_config,
            final(self).registry.spec_config_path() == old(self).registry.spec_config_path(),
            match layer_signature_settings(layer) {
                Some((required_key, total_key, required_default, total_default)) => {
                    &&& final(self)@ == old(self)@.after_read_u32_pair(
                        required_key,
                        required_default,
                        total_key,
                        now,
                    )
                    &&& match old(self)@.read_u32_pair(
                        required_key,
                        required_default,
                        total_key,
                        total_default,
                        now,
                    ) {
                        Some((required, total)) => result == Ok::<
                            (usize, usize),
                            GovernanceError,
                        >((required as usize, total as usize)),
                        None => result matches Err(e) && e is ConfigError,
                    }
                },
                None => final(self)@ == old(self)@ && result == Ok::<
                    (usize, usize),
                    GovernanceError,
                >((1usize, 1usize)),
            },
    {
        let (required_key, total_key, required_default, total_default): (&str, &str, u32, u32) =
            if layer == 1 || layer == 2 {
            ("layer_1_2_signatures_required", "layer_1_2_signatures_total", 6, 7)
        } else if layer == 3 {
            ("layer_3_signatures_required", "layer_3_signatures_total", 4, 5)
        } else if layer == 4 {
            ("layer_4_signatures_required", "layer_4_signatures_total", 3, 5)
        } else if layer == 5 {
            ("layer_5_signatures_required", "layer_5_signatures_total", 2, 3)
        } else {
            return Ok((1, 1));
        };
        let required = match self.get_u32(required_key, required_default, now) {
            Ok(n) => n,
            Err(e) => {
                return Err(e);
            },
        };
        let total = match self.get_u32(total_key, total_default, now) {
            Ok(n) => n,
            Err(e) => {
                return Err(e);
            },
        };
        Ok((required as usize, total as usize))
    }

    /// The review period of a layer, in days; thirty for a layer without
    /// settings.
    pub fn get_layer_review_period(&mut self, layer: i32, now: i64) -> (result: Result<
        i64,
        GovernanceError,
    >)
        ensures
            final(self).yaml_config == old(self).yaml_config,
            final(self).registry.spec_config_path() == old(self).registry.spec_config_path(),
            match layer_review_settings(layer) {
                Some((key, default)) => {
                    &&& final(self)@ == old(self)@.after_read(key, now)
                    &&& match old(self)@.read_i32(key, default, now) {
                        Some(days) => result == Ok::<i64, GovernanceError>(days as i64),
                        None => result matches Err(e) && e is ConfigError,
                    }
                },
                None => final(self)@ == old(self)@ && result == Ok::<i64, GovernanceError>(30i64),
            },
    {
        let (key, default): (&str, i32) = if layer == 1 || layer == 2 {
            ("layer_1_2_review_period_days", 180)
        } else if layer == 3 {
            ("layer_3_review_period_days", 90)
        } else if layer == 4 {
            ("layer_4_review_period_days", 60)
        } else if layer == 5 {
            ("layer_5_review_period_days", 14)
        } else {
            return Ok(30);
        };
        match self.get_i32(key, default, now) {
            Ok(days) => Ok(days as i64),
            Err(e) => Err(e),
        }
    }

    /// The veto thresholds of a tier, as fixed-point percent of the mining
    /// weight and of the economic weight. A tier without settings of its
    /// own has thirty and forty percent.
    pub fn get_veto_thresholds(&mut self, tier: u32, now: i64) -> (result: Result<
        (i64, i64),
        GovernanceError,
    >)
        ensures
            final(self).yaml_config == old(self).yaml_config,
            final(self).registry.spec_config_path() == old(self).registry.spec_config_path(),
            match veto_settings(tier) {
                Some((mining_key, economic_key, mining_default, economic_default)) => {
                    &&& final(self)@ == old(self)@.after_read_fixed_pair(
                        mining_key,
                        mining_default,
                        economic_key,
                        now,
                    )
                    &&& match old(self)@.read_fixed_pair(
                        mining_key,
                        mining_default,
                        economic_key,
                        economic_default,
                        now,
                    ) {
                        Some(pair) => result == Ok::<(i64, i64), GovernanceError>(pair),
                        None => result matches Err(e) && e is ConfigError,
                    }
                },
                None => final(self)@ == old(self)@ && result == Ok::<(i64, i64), GovernanceError>(
                    ((30 * PERCENT) as i64, (40 * PERCENT) as i64),
                ),
            },
    {
        let (mining_key, economic_key, mining_default, economic_default): (&str, &str, i64, i64) =
            if tier == 3 {
            (
                "veto_tier_3_mining_percent",
                "veto_tier_3_economic_percent",
                30 * PERCENT,
                40 * PERCENT,
            )
        } else if tier == 4 {
            (
                "veto_tier_4_mining_percent",
                "veto_tier_4_economic_percent",
                25 * PERCENT,
                35 * PERCENT,
            )
        } else if tier == 5 {
            (
                "signaling_tier_5_mining_percent",
                "signaling_tier_5_economic_percent",
                50 * PERCENT,
                60 * PERCENT,
            )
        } else {
            return Ok((30 * PERCENT, 40 * PERCENT));
        };
        let mining = match self.get_f64(mining_key, mining_default, now) {
            Ok(n) => n,
            Err(e) => {
                return Err(e);
            },
        };
        let economic = match self.get_f64(economic_key, economic_default, now) {
            Ok(n) => n,
            Err(e) => {
                return Err(e);
            },
        };
        Ok((mining, economic))
    }

    /// The least contribution of one kind that qualifies a community
    /// contributor, in satoshis: the configured value where it is above
    /// zero, else the file-based threshold, else the built-in one. A
    /// configured value that is no number is an error, and so is an
    /// unknown kind without a configured value above zero.
    pub fn get_commons_contributor_threshold(&mut self, threshold_type: &str, now: i64) -> (result:
        Result<u64, GovernanceError>)
        ensures
            final(self).yaml_config == old(self).yaml_config,
            final(self).registry.spec_config_path() == old(self).registry.spec_config_path(),
            final(self)@ == old(self)@.after_read(commons_threshold_key(threshold_type@), now),
            match old(self)@.commons_threshold(old(self).yaml_config, threshold_type@, now) {
                Some(least) => result == Ok::<u64, GovernanceError>(least),
                None => result matches Err(e) && e is ConfigError,
            },
    {
        let key = crate::text::concat3("commons_contributor_min_", threshold_type, "_btc");
        match self.get_f64(key.as_str(), 0, now) {
            Ok(value) => {
                if value > 0 {
                    return Ok(value as u64);
                }
            },
            Err(e) => {
                return Err(e);
            },
        }
        let found = match &self.yaml_config {
            Some(yaml) => {
                let thresholds = &yaml.commons_contributor_thresholds;
                if str_equal(threshold_type, "merge_mining") {
                    Some(thresholds.merge_mining.minimum_contribution_btc)
                } else if str_equal(threshold_type, "fee_forwarding") {
                    Some(thresholds.fee_forwarding.minimum_contribution_btc)
                } else if str_equal(threshold_type, "zaps") {
                    Some(thresholds.zaps.minimum_contribution_btc)
                } else if str_equal(threshold_type, "marketplace") {
                    Some(thresholds.marketplace.minimum_contribution_btc)
                } else {
                    None
                }
            },
            None => {
                if str_equal(threshold_type, "merge_mining") {
                    Some(1_000_000u64)
                } else if str_equal(threshold_type, "fee_forwarding") {
                    Some(10_000_000u64)
                } else if str_equal(threshold_type, "zaps") {
                    Some(1_000_000u64)
                } else if str_equal(threshold_type, "marketplace") {
                    Some(1_000_000u64)
                } else {
                    None
                }
            },
        };
        match found {
            Some(least) => Ok(least),
            None => Err(config_error_about("Unknown threshold type: ", threshold_type, "")),
        }
    }

    /// The least measured period that qualifies a community contributor,
    /// in days: the configured value where it is above zero, else the
    /// file-based one, else ninety. A configured value that is no
    /// unsigned number is an error.
    pub fn get_commons_contributor_measurement_period(&mut self, now: i64) -> (result: Result<
        u32,
        GovernanceError,
    >)
        ensures
            final(self).yaml_config == old(self).yaml_config,
            final(self).registry.spec_config_path() == old(self).registry.spec_config_path(),
            final(self)@ == old(self)@.after_read(commons_period_key(), now),
            match old(self)@.commons_period(old(self).yaml_config, now) {
                Some(days) => result == Ok::<u32, GovernanceError>(days),
                None => result matches Err(e) && e is ConfigError,
            },
    {
        match self.get_u32("commons_contributor_measurement_period_days", 0, now) {
            Ok(value) => {
                if value > 0 {
                    return Ok(value);
                }
            },
            Err(e) => {
                return Err(e);
            },
        }
        match &self.yaml_config {
            Some(yaml) => Ok(yaml.commons_contributor_thresholds.measurement_period_days),
            None => Ok(90),
        }
    }

    /// A boundary of a phase for a metric.
    pub fn get_phase_boundaries(&mut self, phase: &str, metric: &str, now: i64) -> (result: Result<
        u64,
        GovernanceError,
    >)
        ensures
            final(self).yaml_config == old(self).yaml_config,
            final(self).registry.spec_config_path() == old(self).registry.spec_config_path(),
            final(self)@ == old(self)@.after_read(phase_key(phase@, metric@), now),
            match old(self)@.read_u32(
                phase_key(phase@, metric@),
                phase_default(phase@, metric@) as u32,
                now,
            ) {
                Some(boundary) => result == Ok::<u64, GovernanceError>(boundary as u64),
                None => result matches Err(e) && e is ConfigError,
            },
    {
        let mut key = "phase_".to_owned();
        key.append(phase);
        key.append("_");
        key.append(metric);
        let default = phase_boundary_default(phase, metric);
        match self.get_u32(key.as_str(), default as u32, now) {
            Ok(boundary) => Ok(boundary as u64),
            Err(e) => Err(e),
        }
    }

    /// A setting of an emergency tier.
    pub fn get_emergency_tier_config(&mut self, tier: u32, config_type: &str, now: i64) -> (result:
        Result<u32, GovernanceError>)
        ensures
            final(self).yaml_config == old(self).yaml_config,
            final(self).registry.spec_config_path() == old(self).registry.spec_config_path(),
            final(self)@ == old(self)@.after_read(emergency_key(tier, config_type@), now),
            match old(self)@.read_u32(
                emergency_key(tier, config_type@),
                emergency_default(tier, config_type@),
                now,
            ) {
                Some(setting) => result == Ok::<u32, GovernanceError>(setting),
                None => result matches Err(e) && e is ConfigError,
            },
    {
        let mut key = numbered_text("emergency_tier_", tier as u64, "_");
        key.append(config_type);
        let default = emergency_setting_default(tier, config_type);
        self.get_u32(key.as_str(), default, now)
    }
}

fn tier_required_default(tier: u32) -> (n: u32)
    ensures
        n == tier_default_required(tier),
{
    if tier == 1 {
        3
    } else if tier == 2 {
        4
    } else if tier == 3 {
        5
    } else if tier == 4 {
        4
    } else if tier == 5 {
        5
    } else {
        1
    }
}

fn tier_total_default(tier: u32) -> (n: u32)
    ensures
        n == tier_default_total(tier),
{
    if 1 <= tier && tier <= 5 {
        5
    } else {
        1
    }
}

fn tier_review_default(tier: u32) -> (n: i32)
    ensures
        n == tier_default_review_period(tier),
{
    if tier == 1 {
        7
    } else if tier == 2 {
        30
    } else if tier == 3 {
        90
    } else if tier == 4 {
        0
    } else if tier == 5 {
        180
    } else {
        30
    }
}

fn phase_boundary_default(phase: &str, metric: &str) -> (n: u64)
    ensures
        n == phase_default(phase@, metric@),
        n <= 200_000,
{
    let early = str_equal(phase, "early");
    let growth = str_equal(phase, "growth");
    let mature = str_equal(phase, "mature");
    if early && str_equal(metric, "max_blocks") {
        50_000
    } else if early && str_equal(metric, "max_nodes") {
        10
    } else if early && str_equal(metric, "max_contributors") {
        10
    } else if growth && str_equal(metric, "min_blocks") {
        50_000
    } else if growth && str_equal(metric, "max_blocks") {
        200_000
    } else if growth && str_equal(metric, "min_nodes") {
        10
    } else if growth && str_equal(metric, "max_nodes") {
        30
    } else if growth && str_equal(metric, "min_contributors") {
        10
    } else if growth && str_equal(metric, "max_contributors") {
        100
    } else if mature && str_equal(metric, "min_blocks") {
        200_000
    } else if mature && str_equal(metric, "min_nodes") {
        30
    } else if mature && str_equal(metric, "min_contributors") {
        100
    } else {
        0
    }
}

fn emergency_setting_default(tier: u32, config_type: &str) -> (n: u32)
    ensures
        n == emergency_default(tier, config_type@),
{
    let review = str_equal(config_type, "review_period_days");
    let duration = str_equal(config_type, "max_duration_days");
    let extensions = str_equal(config_type, "max_extensions");
    let signatures = str_equal(config_type, "signature_threshold");
    if tier == 1 && review {
        0
    } else if tier == 1 && duration {
        7
    } else if tier == 1 && signatures {
        4
    } else if tier == 2 && review {
        7
    } else if tier == 2 && duration {
        30
    } else if tier == 2 && extensions {
        1
    } else if tier == 2 && signatures {
        5
    } else if tier == 3 && review {
        30
    } else if tier == 3 && duration {
        90
    } else if tier == 3 && extensions {
        2
    } else if tier == 3 && signatures {
        6
    } else {
        0
    }
}

/// Reads a threshold text such as `5-of-7`.
pub fn parse_threshold_pair(text: &str) -> (reading: PairReading)
    ensures
        reading == pair_reading(text@),
{
    let chars = to_chars(text);
    proof {
        reveal_strlit("-of-");
    }
    let separator = to_chars("-of-");
    match find_chars(&chars, &separator) {
        Some(at) => {
            proof {
                let chosen = choose|p: int| first_occurrence(text@, pair_separator(), p);
                lemma_first_occurrence_unique(text@, pair_separator(), at as int, chosen);
            }
            let left = text.substring_char(0, at);
            let right = text.substring_char(at + 4, chars.len());
            match parse_u32(left) {
                Some(n) => match parse_u32(right) {
                    Some(m) => PairReading::Pair(n, m),
                    None => PairReading::BadRight,
                },
                None => PairReading::BadLeft,
            }
        },
        None => PairReading::NoSeparator,
    }
}

/// A read changes nothing behind the cache, and no read at the same time
/// finds another value after it than before it.
pub proof fn lemma_read_stable(reader: ReaderView, key: Seq<char>, other: Seq<char>, now: i64)
    ensures
        reader.after_read(key, now).registry == reader.registry,
        reader.after_read(key, now).yaml == reader.yaml,
        reader.after_read(key, now).ttl == reader.ttl,
        reader.after_read(key, now).stored(other) == reader.stored(other),
        reader.after_read(key, now).lookup(other, now) == reader.lookup(other, now),
{
}

/// Reads change nothing behind the cache, and no read at the same time
/// finds another value after them than before them.
pub proof fn lemma_reads_stable(reader: ReaderView, keys: Seq<Seq<char>>, other: Seq<char>, now: i64)
    ensures
        reader.after_reads(keys, now).registry == reader.registry,
        reader.after_reads(keys, now).yaml == reader.yaml,
        reader.after_reads(keys, now).ttl == reader.ttl,
        reader.after_reads(keys, now).stored(other) == reader.stored(other),
        reader.after_reads(keys, now).lookup(other, now) == reader.lookup(other, now),
    decreases keys.len(),
{
    if keys.len() > 0 {
        lemma_reads_stable(reader, keys.drop_last(), other, now);
        lemma_read_stable(reader.after_reads(keys.drop_last(), now), keys.last(), other, now);
    }
}

/// After the proposals linked to an approval reference were activated
/// through the reader, every later read of a changed key gives the value
/// that was proposed for it, however fresh the cached value was.
pub proof fn law_batch_activation_reaches_readers(
    reader: ReaderView,
    pr_id: i32,
    now: i64,
    key: Seq<char>,
    later: i64,
)
    requires
        reader.registry.wf(),
        reader.registry.pr_keys(pr_id, reader.registry.changes.len() as int).contains(key),
    ensures
        reader.processed(pr_id, now).lookup(key, later) is Some,
        reader.processed(pr_id, now).lookup(key, later) == reader.registry.pr_value(
            pr_id,
            reader.registry.changes.len() as int,
            key,
        ),
{
    lemma_pr_value(reader.registry, pr_id, reader.registry.changes.len() as int, now, key);
}

/// After the activation of an approved proposal through the reader, every
/// later read of the proposal's key gives the proposed value, however
/// fresh the cached value was.
pub proof fn law_activation_reaches_readers(
    reader: ReaderView,
    id: int,
    activation_pr_id: Option<i32>,
    now: i64,
    later: i64,
)
    requires
        reader.registry.wf(),
        reader.registry.change_is(id, ConfigChangeStatus::Approved),
    ensures
        reader.activated(id, activation_pr_id, now).lookup(
            reader.registry.change(id).config_key,
            later,
        ) == Some(reader.registry.change(id).proposed_value),
{
    lemma_activate(reader.registry, id, activation_pr_id, now);
}

} // verus!
