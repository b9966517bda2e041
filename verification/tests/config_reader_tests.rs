use bllvm_commons::collections::StringMap;
use bllvm_commons::config::{
    parse_logic, CommonsContributorThresholds, CommonsContributorThresholdsConfig,
    ContributionThreshold, MarketplaceThreshold, QualificationLogic, WeightCalculationConfig,
};
use bllvm_commons::error::GovernanceError;
use bllvm_commons::governance::config_reader::{parse_threshold_pair, ConfigReader, PairReading};
use bllvm_commons::governance::config_registry::{ConfigCategory, ConfigRegistry};
use bllvm_commons::governance::config_value::ConfigValue;

const NOW: i64 = 1_700_000_000;

fn create_test_registry() -> ConfigRegistry {
    ConfigRegistry::new()
}

fn register(reader: &mut ConfigReader, key: &str, value: ConfigValue) {
    reader
        .registry
        .register_config(key, ConfigCategory::Thresholds, value, Some("test"), 5, Some("test"), NOW)
        .unwrap();
}

#[test]
fn test_get_i32_with_fallback() {
    let mut reader = ConfigReader::new(create_test_registry());

    // Test fallback when key doesn't exist
    let value = reader.get_i32("nonexistent_key", 42, NOW).unwrap();
    assert_eq!(value, 42);
}

#[test]
fn test_get_i32_from_registry() {
    let mut reader = ConfigReader::new(create_test_registry());
    register(&mut reader, "test_int", ConfigValue::PosInt(100));
    let value = reader.get_i32("test_int", 0, NOW).unwrap();
    assert_eq!(value, 100);
}

#[test]
fn test_get_u32_with_fallback() {
    let mut reader = ConfigReader::new(create_test_registry());
    let value = reader.get_u32("nonexistent_key", 99, NOW).unwrap();
    assert_eq!(value, 99);
}

#[test]
fn test_get_f64_with_fallback() {
    let mut reader = ConfigReader::new(create_test_registry());
    // 3.14 in hundred-millionths
    let value = reader.get_f64("nonexistent_key", 314_000_000, NOW).unwrap();
    assert_eq!(value, 314_000_000);
}

#[test]
fn test_get_bool_with_fallback() {
    let mut reader = ConfigReader::new(create_test_registry());
    let value = reader.get_bool("nonexistent_key", true, NOW).unwrap();
    assert!(value);
}

#[test]
fn test_get_string_with_fallback() {
    let mut reader = ConfigReader::new(create_test_registry());
    let value = reader.get_string("nonexistent_key", "default", NOW).unwrap();
    assert_eq!(value, "default");
}

#[test]
fn test_get_threshold_pair() {
    let mut reader = ConfigReader::new(create_test_registry());

    // Test fallback
    let (n, m) = reader.get_threshold_pair("nonexistent", (5, 7), NOW).unwrap();
    assert_eq!((n, m), (5, 7));

    // Test with valid format
    register(&mut reader, "test_threshold", ConfigValue::Text("6-of-7".to_string()));
    let (n, m) = reader.get_threshold_pair("test_threshold", (0, 0), NOW).unwrap();
    assert_eq!((n, m), (6, 7));
}

#[test]
fn test_cache_invalidation() {
    let mut reader = ConfigReader::new(create_test_registry());
    register(&mut reader, "cache_test", ConfigValue::PosInt(100));

    let value1 = reader.get_i32("cache_test", 0, NOW).unwrap();
    assert_eq!(value1, 100);

    // Clear cache and verify it still works
    reader.clear_cache();
    let value2 = reader.get_i32("cache_test", 0, NOW).unwrap();
    assert_eq!(value2, 100);

    // Invalidate specific key
    reader.invalidate_key("cache_test");
    let value3 = reader.get_i32("cache_test", 0, NOW).unwrap();
    assert_eq!(value3, 100);
}

#[test]
fn test_tier_signatures() {
    let mut reader = ConfigReader::new(create_test_registry());
    let (req, total) = reader.get_tier_signatures(1, NOW).unwrap();
    assert_eq!((req, total), (3, 5));
    let (req, total) = reader.get_tier_signatures(3, NOW).unwrap();
    assert_eq!((req, total), (5, 5));
}

#[test]
fn test_tier_review_period() {
    let mut reader = ConfigReader::new(create_test_registry());
    let period = reader.get_tier_review_period(1, NOW).unwrap();
    assert_eq!(period, 7);
    let period = reader.get_tier_review_period(3, NOW).unwrap();
    assert_eq!(period, 90);
}

#[test]
fn test_layer_signatures() {
    let mut reader = ConfigReader::new(create_test_registry());
    let (req, total) = reader.get_layer_signatures(1, NOW).unwrap();
    assert_eq!((req, total), (6, 7));
    let (req, total) = reader.get_layer_signatures(4, NOW).unwrap();
    assert_eq!((req, total), (3, 5));
}

#[test]
fn test_veto_thresholds() {
    let mut reader = ConfigReader::new(create_test_registry());
    let (mining, economic) = reader.get_veto_thresholds(3, NOW).unwrap();
    assert_eq!((mining, economic), (3_000_000_000, 4_000_000_000));
    let (mining, economic) = reader.get_veto_thresholds(4, NOW).unwrap();
    assert_eq!((mining, economic), (2_500_000_000, 3_500_000_000));
}

#[test]
fn test_emergency_tier_config() {
    let mut reader = ConfigReader::new(create_test_registry());
    let review_period = reader.get_emergency_tier_config(1, "review_period_days", NOW).unwrap();
    assert_eq!(review_period, 0);
    let max_duration = reader.get_emergency_tier_config(1, "max_duration_days", NOW).unwrap();
    assert_eq!(max_duration, 7);
    let sig_threshold = reader.get_emergency_tier_config(2, "signature_threshold", NOW).unwrap();
    assert_eq!(sig_threshold, 5);
}

#[test]
fn test_all_built_in_defaults_of_the_reader() {
    let mut reader = ConfigReader::new(create_test_registry());
    let required: Vec<(usize, usize)> =
        (0..7).map(|t| reader.get_tier_signatures(t, NOW).unwrap()).collect();
    assert_eq!(required, vec![(1, 1), (3, 5), (4, 5), (5, 5), (4, 5), (5, 5), (1, 1)]);
    let periods: Vec<i64> =
        (0..7).map(|t| reader.get_tier_review_period(t, NOW).unwrap()).collect();
    assert_eq!(periods, vec![30, 7, 30, 90, 0, 180, 30]);
    let layers: Vec<(usize, usize)> =
        (0..7).map(|l| reader.get_layer_signatures(l, NOW).unwrap()).collect();
    assert_eq!(layers, vec![(1, 1), (6, 7), (6, 7), (4, 5), (3, 5), (2, 3), (1, 1)]);
    let layer_periods: Vec<i64> =
        (0..7).map(|l| reader.get_layer_review_period(l, NOW).unwrap()).collect();
    assert_eq!(layer_periods, vec![30, 180, 180, 90, 60, 14, 30]);
    assert_eq!(reader.get_veto_thresholds(5, NOW).unwrap(), (5_000_000_000, 6_000_000_000));
    assert_eq!(reader.get_veto_thresholds(1, NOW).unwrap(), (3_000_000_000, 4_000_000_000));
    assert_eq!(reader.get_phase_boundaries("early", "max_blocks", NOW).unwrap(), 50_000);
    assert_eq!(reader.get_phase_boundaries("growth", "max_nodes", NOW).unwrap(), 30);
    assert_eq!(reader.get_phase_boundaries("mature", "min_contributors", NOW).unwrap(), 100);
    assert_eq!(reader.get_phase_boundaries("mature", "max_blocks", NOW).unwrap(), 0);
    assert_eq!(reader.get_emergency_tier_config(3, "max_extensions", NOW).unwrap(), 2);
    assert_eq!(reader.get_emergency_tier_config(3, "signature_threshold", NOW).unwrap(), 6);
    assert_eq!(reader.get_emergency_tier_config(1, "max_extensions", NOW).unwrap(), 0);
    assert_eq!(reader.get_emergency_tier_config(4, "review_period_days", NOW).unwrap(), 0);
}

#[test]
fn test_convenience_getters_read_the_registry() {
    let mut reader = ConfigReader::new(create_test_registry());
    register(&mut reader, "tier_2_signatures_required", ConfigValue::PosInt(2));
    register(&mut reader, "tier_2_signatures_total", ConfigValue::PosInt(9));
    register(&mut reader, "tier_12_review_period_days", ConfigValue::PosInt(11));
    register(&mut reader, "layer_1_2_signatures_required", ConfigValue::PosInt(7));
    register(&mut reader, "layer_3_review_period_days", ConfigValue::PosInt(45));
    register(&mut reader, "veto_tier_3_mining_percent", ConfigValue::Fixed(1_250_000_000));
    register(&mut reader, "veto_tier_3_economic_percent", ConfigValue::PosInt(20));
    register(&mut reader, "phase_early_max_blocks", ConfigValue::PosInt(60_000));
    register(&mut reader, "emergency_tier_2_max_extensions", ConfigValue::PosInt(3));
    assert_eq!(reader.get_tier_signatures(2, NOW).unwrap(), (2, 9));
    assert_eq!(reader.get_tier_review_period(12, NOW).unwrap(), 11);
    assert_eq!(reader.get_layer_signatures(2, NOW).unwrap(), (7, 7));
    assert_eq!(reader.get_layer_review_period(3, NOW).unwrap(), 45);
    assert_eq!(reader.get_veto_thresholds(3, NOW).unwrap(), (1_250_000_000, 2_000_000_000));
    assert_eq!(reader.get_phase_boundaries("early", "max_blocks", NOW).unwrap(), 60_000);
    assert_eq!(reader.get_emergency_tier_config(2, "max_extensions", NOW).unwrap(), 3);
}

#[test]
fn test_typed_reads_fail_on_values_of_another_kind() {
    let mut reader = ConfigReader::new(create_test_registry());
    register(&mut reader, "text", ConfigValue::Text("abc".to_string()));
    register(&mut reader, "flag", ConfigValue::Bool(true));
    register(&mut reader, "negative", ConfigValue::NegInt(-5));
    register(&mut reader, "huge", ConfigValue::PosInt(u64::MAX));
    register(&mut reader, "fraction", ConfigValue::Fixed(150_000_000));
    register(&mut reader, "null", ConfigValue::Null);

    assert!(matches!(reader.get_i32("text", 0, NOW), Err(GovernanceError::ConfigError(_))));
    assert!(matches!(reader.get_u32("flag", 0, NOW), Err(GovernanceError::ConfigError(_))));
    assert!(matches!(reader.get_f64("text", 0, NOW), Err(GovernanceError::ConfigError(_))));
    assert!(matches!(reader.get_bool("text", false, NOW), Err(GovernanceError::ConfigError(_))));
    assert!(matches!(reader.get_string("flag", "", NOW), Err(GovernanceError::ConfigError(_))));
    assert!(matches!(reader.get_i32("null", 0, NOW), Err(GovernanceError::ConfigError(_))));

    assert_eq!(reader.get_i32("negative", 0, NOW).unwrap(), -5);
    assert!(reader.get_u32("negative", 0, NOW).is_err());
    assert!(reader.get_i32("huge", 0, NOW).is_err());
    assert!(reader.get_u32("huge", 0, NOW).is_err());
    assert!(reader.get_f64("huge", 0, NOW).is_err());
    assert!(reader.get_i32("fraction", 0, NOW).is_err());
    assert_eq!(reader.get_f64("fraction", 0, NOW).unwrap(), 150_000_000);
    assert_eq!(reader.get_f64("negative", 0, NOW).unwrap(), -500_000_000);
    assert!(reader.get_bool("flag", false, NOW).unwrap());
    assert_eq!(reader.get_string("text", "", NOW).unwrap(), "abc");
    match reader.get_i32("text", 0, NOW) {
        Err(e) => assert_eq!(e.message(), "Config 'text' is not a valid integer"),
        Ok(_) => panic!("expected an error"),
    }
}

#[test]
fn test_threshold_pair_readings() {
    assert!(matches!(parse_threshold_pair("5-of-7"), PairReading::Pair(5, 7)));
    assert!(matches!(parse_threshold_pair("+5-of-07"), PairReading::Pair(5, 7)));
    assert!(matches!(parse_threshold_pair(""), PairReading::NoSeparator));
    assert!(matches!(parse_threshold_pair("5of7"), PairReading::NoSeparator));
    assert!(matches!(parse_threshold_pair("x-of-7"), PairReading::BadLeft));
    assert!(matches!(parse_threshold_pair("-of-7"), PairReading::BadLeft));
    assert!(matches!(parse_threshold_pair("5-of-"), PairReading::BadRight));
    assert!(matches!(parse_threshold_pair("5-of-7-of-9"), PairReading::BadRight));
    assert!(matches!(parse_threshold_pair("4294967295-of-0"), PairReading::Pair(4294967295, 0)));
    assert!(matches!(parse_threshold_pair("4294967296-of-0"), PairReading::BadLeft));

    let mut reader = ConfigReader::new(create_test_registry());
    register(&mut reader, "bad_left", ConfigValue::Text("a-of-7".to_string()));
    register(&mut reader, "bad_right", ConfigValue::Text("5-of-b".to_string()));
    register(&mut reader, "no_separator", ConfigValue::Text("five of seven".to_string()));
    register(&mut reader, "number", ConfigValue::PosInt(5));
    assert!(matches!(
        reader.get_threshold_pair("bad_left", (1, 1), NOW),
        Err(GovernanceError::ConfigError(_))
    ));
    assert!(matches!(
        reader.get_threshold_pair("bad_right", (1, 1), NOW),
        Err(GovernanceError::ConfigError(_))
    ));
    // A text that is there and is no pair is an error, never the fallback.
    match reader.get_threshold_pair("no_separator", (1, 2), NOW) {
        Err(GovernanceError::ConfigError(text)) => {
            assert_eq!(text, "Invalid threshold format in 'no_separator': expected N-of-M")
        }
        _ => panic!("expected a configuration error"),
    }
    register(&mut reader, "empty", ConfigValue::Text(String::new()));
    assert!(matches!(
        reader.get_threshold_pair("empty", (1, 2), NOW),
        Err(GovernanceError::ConfigError(_))
    ));
    assert!(matches!(
        reader.get_threshold_pair("number", (1, 2), NOW),
        Err(GovernanceError::ConfigError(_))
    ));
    // Only a missing key gives the fallback.
    assert_eq!(reader.get_threshold_pair("missing", (1, 2), NOW).unwrap(), (1, 2));
}

#[test]
fn test_warm_cache_serves_until_invalidated_or_expired() {
    let mut reader = ConfigReader::new(create_test_registry());
    register(&mut reader, "k", ConfigValue::PosInt(1));
    assert_eq!(reader.get_i32("k", 0, NOW).unwrap(), 1);

    // A change behind the back of the reader is hidden by the warm cache...
    let id = reader.registry.propose_change("k", ConfigValue::PosInt(2), None, "a", NOW).unwrap();
    reader.registry.approve_change(id, 1, "b", NOW).unwrap();
    reader.registry.activate_change(id, None, NOW).unwrap();
    assert_eq!(reader.get_i32("k", 0, NOW + 10).unwrap(), 1);
    assert_eq!(reader.get_i32("k", 0, NOW + 299).unwrap(), 1);
    // ...until the cached value is too old.
    assert_eq!(reader.get_i32("k", 0, NOW + 300).unwrap(), 2);
}

#[test]
fn test_activation_through_the_reader_invalidates_the_cache() {
    let mut reader = ConfigReader::new(create_test_registry());
    register(&mut reader, "k", ConfigValue::PosInt(1));
    assert_eq!(reader.get_i32("k", 0, NOW).unwrap(), 1);
    let id = reader.registry.propose_change("k", ConfigValue::PosInt(2), None, "a", NOW).unwrap();

    // A pending change cannot be activated, and the value stays.
    assert!(matches!(
        reader.activate_change(id, None, NOW),
        Err(GovernanceError::ConfigError(_))
    ));
    assert_eq!(reader.get_i32("k", 0, NOW).unwrap(), 1);

    reader.registry.approve_change(id, 1, "b", NOW).unwrap();
    assert_eq!(reader.activate_change(id, Some(7), NOW + 1).unwrap(), "k");
    // The very next read gives the new value, warm cache or not.
    assert_eq!(reader.get_i32("k", 0, NOW + 1).unwrap(), 2);
    assert_eq!(reader.registry.get_history().len(), 1);
}

#[test]
fn test_fallback_chain_registry_then_file_values() {
    let mut yaml = StringMap::new();
    yaml.insert("only_in_file", ConfigValue::PosInt(7));
    yaml.insert("in_both", ConfigValue::PosInt(8));
    let mut reader = ConfigReader::with_yaml_loader(create_test_registry(), Some(yaml));
    register(&mut reader, "in_both", ConfigValue::PosInt(80));
    assert_eq!(reader.get_i32("only_in_file", 0, NOW).unwrap(), 7);
    assert_eq!(reader.get_i32("in_both", 0, NOW).unwrap(), 80);
    assert_eq!(reader.get_i32("nowhere", 5, NOW).unwrap(), 5);
    assert!(reader.get_value("nowhere", NOW).unwrap().is_none());
    assert!(reader
        .get_value_with_fallback("nowhere", ConfigValue::Bool(true), NOW)
        .unwrap()
        .same(&ConfigValue::Bool(true)));
    assert!(reader
        .get_value_with_fallback("only_in_file", ConfigValue::Bool(true), NOW)
        .unwrap()
        .same(&ConfigValue::PosInt(7)));
}

fn yaml_thresholds() -> CommonsContributorThresholdsConfig {
    CommonsContributorThresholdsConfig {
        commons_contributor_thresholds: CommonsContributorThresholds {
            merge_mining: ContributionThreshold { enabled: true, minimum_contribution_btc: 11 },
            fee_forwarding: ContributionThreshold { enabled: true, minimum_contribution_btc: 22 },
            zaps: ContributionThreshold { enabled: false, minimum_contribution_btc: 33 },
            marketplace: MarketplaceThreshold {
                enabled: true,
                minimum_contribution_btc: 44,
                minimum_sales_btc: Some(55),
            },
            measurement_period_days: 60,
            qualification_logic: "AND".to_string(),
        },
        weight_calculation: WeightCalculationConfig {
            normalization_factor: 100_000_000,
            minimum_weight: 1_000_000,
        },
    }
}

#[test]
fn test_commons_contributor_thresholds_fallbacks() {
    // Built-in values.
    let mut reader = ConfigReader::new(create_test_registry());
    assert_eq!(reader.get_commons_contributor_threshold("merge_mining", NOW).unwrap(), 1_000_000);
    assert_eq!(
        reader.get_commons_contributor_threshold("fee_forwarding", NOW).unwrap(),
        10_000_000
    );
    assert_eq!(reader.get_commons_contributor_threshold("zaps", NOW).unwrap(), 1_000_000);
    assert_eq!(reader.get_commons_contributor_threshold("marketplace", NOW).unwrap(), 1_000_000);
    assert!(matches!(
        reader.get_commons_contributor_threshold("donations", NOW),
        Err(GovernanceError::ConfigError(_))
    ));
    assert_eq!(reader.get_commons_contributor_measurement_period(NOW).unwrap(), 90);

    // File-based values go before the built-in ones.
    let mut reader = ConfigReader::with_yaml_config(create_test_registry(), Some(yaml_thresholds()));
    assert_eq!(reader.get_commons_contributor_threshold("merge_mining", NOW).unwrap(), 11);
    assert_eq!(reader.get_commons_contributor_threshold("fee_forwarding", NOW).unwrap(), 22);
    assert_eq!(reader.get_commons_contributor_threshold("zaps", NOW).unwrap(), 33);
    assert_eq!(reader.get_commons_contributor_threshold("marketplace", NOW).unwrap(), 44);
    assert!(reader.get_commons_contributor_threshold("donations", NOW).is_err());
    assert_eq!(reader.get_commons_contributor_measurement_period(NOW).unwrap(), 60);

    // Values of the registry go before both, where they are above zero.
    register(&mut reader, "commons_contributor_min_zaps_btc", ConfigValue::Fixed(5_000_000));
    register(&mut reader, "commons_contributor_min_merge_mining_btc", ConfigValue::PosInt(0));
    register(&mut reader, "commons_contributor_min_marketplace_btc", ConfigValue::Text("x".into()));
    register(&mut reader, "commons_contributor_min_donations_btc", ConfigValue::PosInt(2));
    register(&mut reader, "commons_contributor_measurement_period_days", ConfigValue::PosInt(30));
    assert_eq!(reader.get_commons_contributor_threshold("zaps", NOW).unwrap(), 5_000_000);
    assert_eq!(reader.get_commons_contributor_threshold("merge_mining", NOW).unwrap(), 11);
    assert_eq!(reader.get_commons_contributor_threshold("donations", NOW).unwrap(), 200_000_000);
    assert_eq!(reader.get_commons_contributor_measurement_period(NOW).unwrap(), 30);
    // A value that is there and is no number is an error, never the
    // fallback.
    assert!(matches!(
        reader.get_commons_contributor_threshold("marketplace", NOW),
        Err(GovernanceError::ConfigError(_))
    ));
}

#[test]
fn test_commons_contributor_period_of_another_kind_is_an_error() {
    let mut reader = ConfigReader::with_yaml_config(create_test_registry(), Some(yaml_thresholds()));
    register(
        &mut reader,
        "commons_contributor_measurement_period_days",
        ConfigValue::Text("ninety".into()),
    );
    assert!(matches!(
        reader.get_commons_contributor_measurement_period(NOW),
        Err(GovernanceError::ConfigError(_))
    ));
    // Zero is a number: the file-based period stands.
    let mut reader = ConfigReader::with_yaml_config(create_test_registry(), Some(yaml_thresholds()));
    register(&mut reader, "commons_contributor_measurement_period_days", ConfigValue::PosInt(0));
    assert_eq!(reader.get_commons_contributor_measurement_period(NOW).unwrap(), 60);
}

#[test]
fn test_batch_activation_through_the_reader_reaches_later_reads() {
    let mut reader = ConfigReader::new(create_test_registry());
    register(&mut reader, "first", ConfigValue::PosInt(1));
    register(&mut reader, "second", ConfigValue::PosInt(2));
    register(&mut reader, "third", ConfigValue::PosInt(3));
    // Warm the cache.
    assert_eq!(reader.get_i32("first", 0, NOW).unwrap(), 1);
    assert_eq!(reader.get_i32("second", 0, NOW).unwrap(), 2);
    assert_eq!(reader.get_i32("third", 0, NOW).unwrap(), 3);

    let a = reader.registry.propose_change("first", ConfigValue::PosInt(10), None, "p", NOW).unwrap();
    let b = reader.registry.propose_change("second", ConfigValue::PosInt(20), None, "p", NOW).unwrap();
    let c = reader.registry.propose_change("first", ConfigValue::PosInt(11), None, "p", NOW).unwrap();
    let d = reader.registry.propose_change("third", ConfigValue::PosInt(30), None, "p", NOW).unwrap();
    reader.registry.approve_change(a, 7, "m", NOW).unwrap();
    reader.registry.approve_change(b, 7, "m", NOW).unwrap();
    reader.registry.approve_change(c, 7, "m", NOW).unwrap();
    // The fourth proposal is approved under another reference.
    reader.registry.approve_change(d, 8, "m", NOW).unwrap();

    // The registry alone would leave the cached values in place.
    let keys = reader.process_pr_config_changes(7, "body", NOW + 1).unwrap();
    assert_eq!(keys, vec!["first".to_string(), "second".to_string(), "first".to_string()]);
    // The last proposal about a key stands; the cache has forgotten both.
    assert_eq!(reader.get_i32("first", 0, NOW + 1).unwrap(), 11);
    assert_eq!(reader.get_i32("second", 0, NOW + 1).unwrap(), 20);
    // A key that no activated proposal was about is served from the cache.
    assert_eq!(reader.get_i32("third", 0, NOW + 1).unwrap(), 3);
    assert!(reader
        .registry
        .get_current_value("third")
        .unwrap()
        .unwrap()
        .same(&ConfigValue::PosInt(3)));
    // Nothing is left to activate under the reference.
    assert!(reader.process_pr_config_changes(7, "body", NOW + 2).unwrap().is_empty());
}

#[test]
fn test_parse_logic() {
    assert_eq!(parse_logic("AND"), QualificationLogic::All);
    assert_eq!(parse_logic("OR"), QualificationLogic::Any);
    assert_eq!(parse_logic("and"), QualificationLogic::Any);
    assert_eq!(parse_logic("XOR"), QualificationLogic::Any);
}

#[test]
fn test_string_map() {
    let mut map: StringMap<u32> = StringMap::new();
    assert_eq!(map.len(), 0);
    assert!(map.get("a").is_none());
    map.insert("a", 1);
    map.insert("b", 2);
    map.insert("a", 3);
    assert_eq!(map.len(), 2);
    assert_eq!(map.get("a"), Some(&3));
    assert_eq!(map.get("b"), Some(&2));
    assert!(map.contains_key("b"));
    assert!(!map.contains_key("c"));
    assert_eq!(map.key_at(0), "a");
    assert_eq!(*map.value_at(1), 2);
    map.remove("a");
    map.remove("zzz");
    assert_eq!(map.len(), 1);
    assert!(map.get("a").is_none());
    assert_eq!(map.key_at(0), "b");
    map.clear();
    assert_eq!(map.len(), 0);
}
