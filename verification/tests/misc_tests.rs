use bllvm_commons::backup::{BackupConfig, BackupManager, Database, DatabaseKind};
use bllvm_commons::error::{
    config_error, config_error_about, crypto_error, crypto_error_about, database_error,
    GovernanceError,
};
use bllvm_commons::governance::config_value::ConfigValue;
use bllvm_commons::governance::contributions::{
    decode_address_from_script, fee_forwarded_by, get_contributor_aggregates,
    get_contributor_total, is_commons_address, process_zap, zap_contribution_type,
    TransactionOutput, ZapEvent,
};
use bllvm_commons::governance::vote_aggregator::VoteAggregator;
use bllvm_commons::governance::weight_calculator::WeightCalculator;
use bllvm_commons::text::{
    concat3, contains, find_chars, i64_to_text, join, numbered_text, parse_i32, parse_u32,
    push_decimal, push_text, starts_with, str_equal, text_less, to_chars, u64_to_text,
};

#[test]
fn test_decimal_texts() {
    assert_eq!(u64_to_text(0), "0");
    assert_eq!(u64_to_text(7), "7");
    assert_eq!(u64_to_text(10), "10");
    assert_eq!(u64_to_text(1_234_567_890), "1234567890");
    assert_eq!(u64_to_text(u64::MAX), "18446744073709551615");
    assert_eq!(i64_to_text(0), "0");
    assert_eq!(i64_to_text(-1), "-1");
    assert_eq!(i64_to_text(i64::MAX), "9223372036854775807");
    assert_eq!(i64_to_text(i64::MIN), "-9223372036854775808");
    let mut text = "n=".to_string();
    push_decimal(&mut text, 305);
    push_text(&mut text, "!");
    assert_eq!(text, "n=305!");
    assert_eq!(numbered_text("tier_", 12, "_total"), "tier_12_total");
    assert_eq!(concat3("a", "", "c"), "ac");
}

#[test]
fn test_parsing_numbers() {
    assert_eq!(parse_u32("0"), Some(0));
    assert_eq!(parse_u32("007"), Some(7));
    assert_eq!(parse_u32("+7"), Some(7));
    assert_eq!(parse_u32("4294967295"), Some(u32::MAX));
    assert_eq!(parse_u32("4294967296"), None);
    assert_eq!(parse_u32("99999999999999999999999999"), None);
    assert_eq!(parse_u32(""), None);
    assert_eq!(parse_u32("+"), None);
    assert_eq!(parse_u32("-1"), None);
    assert_eq!(parse_u32("1 "), None);
    assert_eq!(parse_u32("1_000"), None);
    assert_eq!(parse_u32("\u{0661}"), None);
    assert_eq!(parse_i32("-2147483648"), Some(i32::MIN));
    assert_eq!(parse_i32("2147483647"), Some(i32::MAX));
    assert_eq!(parse_i32("2147483648"), None);
    assert_eq!(parse_i32("-2147483649"), None);
    assert_eq!(parse_i32("-0"), Some(0));
    assert_eq!(parse_i32("+12"), Some(12));
    assert_eq!(parse_i32("-"), None);
    assert_eq!(parse_i32("--1"), None);
    assert_eq!(parse_i32("1.5"), None);
    for text in ["5", "+5", "-5", "x", "", "2147483648", "00012"] {
        assert_eq!(parse_i32(text), text.parse::<i32>().ok());
        assert_eq!(parse_u32(text), text.parse::<u32>().ok());
    }
}

#[test]
fn test_searching_texts() {
    assert!(str_equal("abc", "abc"));
    assert!(!str_equal("abc", "abd"));
    assert!(!str_equal("abc", "ab"));
    assert!(contains("governance_backup_1.db", "backup_"));
    assert!(contains("abc", ""));
    assert!(contains("", ""));
    assert!(!contains("", "a"));
    assert!(!contains("abc", "abcd"));
    assert!(contains("aab", "ab"));
    assert!(contains("\u{e9}t\u{e9}", "t\u{e9}"));
    assert!(starts_with("zap:proposal", "zap:"));
    assert!(!starts_with("a zap:", "zap:"));
    assert!(!starts_with("za", "zap:"));
    assert_eq!(find_chars(&to_chars("5-of-7-of-9"), &to_chars("-of-")), Some(1));
    assert_eq!(find_chars(&to_chars("abc"), &to_chars("c")), Some(2));
    assert_eq!(find_chars(&to_chars("abc"), &to_chars("d")), None);
    assert_eq!(to_chars("h\u{e9}!"), vec!['h', '\u{e9}', '!']);
    for (a, b) in [("", ""), ("", "a"), ("a", ""), ("a", "b"), ("ab", "a"), ("a", "ab"), ("B", "a"),
        ("abc", "abd"), ("z", "\u{e9}"), ("tier_10", "tier_2")] {
        assert_eq!(text_less(a, b), a < b);
        assert_eq!(text_less(b, a), b < a);
    }
    assert_eq!(join(&vec![], ","), "");
    assert_eq!(join(&vec!["a".to_string()], ","), "a");
    assert_eq!(join(&vec!["a".to_string(), "b".to_string(), "".to_string()], ", "), "a, b, ");
}

#[test]
fn test_every_kind_of_error() {
    assert!(matches!(database_error("d"), GovernanceError::DatabaseError(_)));
    assert!(matches!(crypto_error("c"), GovernanceError::CryptoError(_)));
    assert!(matches!(config_error("f"), GovernanceError::ConfigError(_)));
    assert_eq!(database_error("d").message(), "d");
    assert_eq!(crypto_error("c").message(), "c");
    assert_eq!(config_error_about("Config '", "k", "' is bad").message(), "Config 'k' is bad");
    assert_eq!(crypto_error_about("Invalid node type: ", "x").message(), "Invalid node type: x");
    assert_eq!(GovernanceError::GitHubError("g".to_string()).message(), "g");
}

#[test]
fn test_config_value_conversions() {
    assert_eq!(ConfigValue::PosInt(5).to_i32(), Some(5));
    assert_eq!(ConfigValue::PosInt(2_147_483_648).to_i32(), None);
    assert_eq!(ConfigValue::NegInt(-2_147_483_648).to_i32(), Some(i32::MIN));
    assert_eq!(ConfigValue::NegInt(-2_147_483_649).to_i32(), None);
    assert_eq!(ConfigValue::PosInt(4_294_967_295).to_u32(), Some(u32::MAX));
    assert_eq!(ConfigValue::PosInt(4_294_967_296).to_u32(), None);
    assert_eq!(ConfigValue::NegInt(-1).to_u32(), None);
    assert_eq!(ConfigValue::NegInt(3).to_u32(), Some(3));
    assert_eq!(ConfigValue::Fixed(1).to_i32(), None);
    assert_eq!(ConfigValue::Fixed(-7).to_fixed(), Some(-7));
    assert_eq!(ConfigValue::PosInt(30).to_fixed(), Some(3_000_000_000));
    assert_eq!(ConfigValue::PosInt(92_233_720_368).to_fixed(), Some(9_223_372_036_800_000_000));
    assert_eq!(ConfigValue::PosInt(92_233_720_369).to_fixed(), None);
    assert_eq!(ConfigValue::NegInt(-92_233_720_368).to_fixed(), Some(-9_223_372_036_800_000_000));
    assert_eq!(ConfigValue::NegInt(-92_233_720_369).to_fixed(), None);
    assert_eq!(ConfigValue::Bool(true).to_bool(), Some(true));
    assert_eq!(ConfigValue::Null.to_bool(), None);
    assert_eq!(ConfigValue::Text("t".into()).to_text(), Some("t".to_string()));
    assert_eq!(ConfigValue::Json("[]".into()).to_text(), None);
    assert!(ConfigValue::Json("[1]".into()).same(&ConfigValue::Json("[1]".into()).duplicate()));
    assert!(!ConfigValue::Json("[1]".into()).same(&ConfigValue::Text("[1]".into())));
    assert!(!ConfigValue::PosInt(1).same(&ConfigValue::NegInt(1)));
    assert!(ConfigValue::Null.same(&ConfigValue::Null));
}

#[test]
fn test_backup_config_default() {
    let config = BackupConfig::default();
    assert_eq!(config.directory, "/opt/bllvm-commons/backups");
    assert_eq!(config.retention_days, 30);
    assert!(config.compression);
    assert_eq!(config.interval, 86_400);
    assert!(config.enabled);
}

fn manager(kind: DatabaseKind, retention_days: u32) -> BackupManager {
    let config = BackupConfig {
        directory: "/tmp/backups".to_string(),
        retention_days,
        compression: false,
        interval: 3_600,
        enabled: true,
    };
    BackupManager::new(Database { kind, url: "sqlite::memory:".to_string() }, config)
}

#[test]
fn test_backup_manager_new() {
    let manager = manager(DatabaseKind::Sqlite, 30);
    assert_eq!(manager.config.retention_days, 30);
    assert!(manager.config.enabled);
    assert!(manager.database.is_sqlite());
    assert!(!manager.database.is_postgres());
}

#[test]
fn test_backup_rules() {
    assert_eq!(
        BackupManager::backup_filename("20240102_030405"),
        "governance_backup_20240102_030405.db"
    );
    assert!(manager(DatabaseKind::Sqlite, 30).check_backup_possible().is_ok());
    assert!(matches!(
        manager(DatabaseKind::Postgres, 30).check_backup_possible(),
        Err(GovernanceError::ConfigError(_))
    ));
    assert!(matches!(
        manager(DatabaseKind::Unknown, 30).check_backup_possible(),
        Err(GovernanceError::ConfigError(_))
    ));

    let m = manager(DatabaseKind::Sqlite, 30);
    let now = 1_700_000_000;
    let cutoff = now - 30 * 86_400;
    assert!(m.should_delete("governance_backup_old.db", true, Some(cutoff - 1), now));
    assert!(!m.should_delete("governance_backup_old.db", true, Some(cutoff), now));
    assert!(!m.should_delete("governance_backup_new.db", true, Some(now), now));
    assert!(!m.should_delete("other_file.txt", true, Some(0), now));
    assert!(!m.should_delete("governance_backup_dir", false, Some(0), now));
    assert!(!m.should_delete("governance_backup_x.db", true, None, now));
    assert!(m.should_delete("/b/governance_backup_x.db.gz", true, Some(0), now));
}

#[test]
fn test_weight_calculator() {
    let calculator = WeightCalculator::new();
    assert_eq!(calculator.calculate_participation_weight(), 0);
    assert_eq!(calculator.calculate_zap_vote_weight(123), 0);
    assert_eq!(calculator.get_proposal_vote_weight(), 0);
    // Five percent of a whole of 10.0 is 0.5.
    assert_eq!(calculator.apply_weight_cap(200_000_000, 1_000_000_000), 50_000_000);
    assert_eq!(calculator.apply_weight_cap(30_000_000, 1_000_000_000), 30_000_000);
    assert_eq!(calculator.apply_weight_cap(50_000_000, 1_000_000_000), 50_000_000);
    assert_eq!(calculator.apply_weight_cap(5, 0), 0);
    assert_eq!(calculator.apply_weight_cap(u64::MAX, u64::MAX), 922_337_203_685_477_580);
    // A large contribution must have aged thirty days.
    assert!(calculator.check_cooling_off(9_999_999, 0));
    assert!(!calculator.check_cooling_off(10_000_000, 0));
    assert!(!calculator.check_cooling_off(10_000_000, 29));
    assert!(calculator.check_cooling_off(10_000_000, 30));
    let weights = calculator.update_participation_weights(&vec![
        ("alice".to_string(), "zap_user".to_string()),
        ("bob".to_string(), "miner".to_string()),
    ]);
    assert_eq!(weights.len(), 2);
    assert_eq!(weights[1].contributor_id, "bob");
    assert_eq!(weights[1].contributor_type, "miner");
    assert_eq!(weights[1].capped_weight, 0);
    assert_eq!(weights[0].base_weight, 0);
}

#[test]
fn test_vote_aggregator() {
    let aggregator = VoteAggregator::new();
    let thresholds: Vec<u32> =
        (1..=5).map(|t| aggregator.get_threshold_for_tier(t).unwrap()).collect();
    assert_eq!(thresholds, vec![100, 500, 1_000, 2_500, 5_000]);
    assert!(matches!(
        aggregator.get_threshold_for_tier(0),
        Err(GovernanceError::ConfigError(_))
    ));
    assert!(aggregator.get_threshold_for_tier(6).is_err());

    let outcome = aggregator.aggregate_proposal_votes(9, 1, 0, 12).unwrap();
    assert_eq!(outcome.pr_id, 9);
    assert_eq!(outcome.tier, 1);
    assert_eq!(outcome.threshold, 100);
    assert_eq!(outcome.total_votes, 0);
    assert_eq!(outcome.zap_vote_count, 12);
    assert!(!outcome.threshold_met);
    assert!(!outcome.veto_blocks);
    let met = aggregator.aggregate_proposal_votes(9, 2, 500, 0).unwrap();
    assert!(met.threshold_met);
    assert_eq!(met.support_votes, 500);
    assert_eq!(met.veto_votes, 0);
    assert!(aggregator.aggregate_proposal_votes(9, 9, 500, 0).is_err());
}

#[test]
fn test_contributions() {
    assert_eq!(zap_contribution_type(true), "zap:proposal");
    assert_eq!(zap_contribution_type(false), "zap:general");
    let record = process_zap(
        "recipient",
        ZapEvent {
            sender_pubkey: Some("sender".to_string()),
            amount_msat: 123_456_789,
            timestamp: 5,
            invoice: None,
            message: Some("thanks".to_string()),
            zapped_event_id: Some("event".to_string()),
        },
    );
    assert_eq!(record.recipient_pubkey, "recipient");
    assert_eq!(record.amount_btc, 123_456);
    assert_eq!(record.amount_msat, 123_456_789);
    assert!(record.is_proposal_zap);
    assert_eq!(record.sender_pubkey, Some("sender".to_string()));

    let total = get_contributor_total(&vec![
        ("zap:proposal".to_string(), Some(10)),
        ("fee_forwarding".to_string(), Some(1_000)),
        ("zap:general".to_string(), Some(5)),
        ("zap:other".to_string(), None),
        ("a zap:".to_string(), Some(70)),
    ]);
    assert_eq!(total.zaps_btc, 15);
    assert_eq!(total.total_btc, 15);
    let large = get_contributor_total(&vec![
        ("zap:a".to_string(), Some(u64::MAX)),
        ("zap:b".to_string(), Some(2)),
    ]);
    assert_eq!(large.zaps_btc, u64::MAX);
    let aggregates = get_contributor_aggregates(42, None);
    assert_eq!(aggregates.cumulative_zaps_btc, 42);
    assert_eq!(aggregates.total_contribution_btc, 42);
    assert_eq!(aggregates.participation_weight, 0);
    assert_eq!(get_contributor_aggregates(1, Some(9)).participation_weight, 9);
}

fn p2pkh(hash: [u8; 20]) -> Vec<u8> {
    let mut script = vec![0x76, 0xa9, 0x14];
    script.extend_from_slice(&hash);
    script.extend_from_slice(&[0x88, 0xac]);
    script
}

#[test]
fn test_fee_forwarding() {
    let mut hash = [0u8; 20];
    for (i, byte) in hash.iter_mut().enumerate() {
        *byte = (i as u8) * 13 + 1;
    }
    let script = p2pkh(hash);
    let address = decode_address_from_script(&script).unwrap();
    assert_eq!(address, "010e1b2835424f5c697683909daab7c4d1deebf8");
    assert_eq!(address, hex::encode(hash));
    assert_eq!(decode_address_from_script(&script[..24]), None);
    let mut other = script.clone();
    other[0] = 0x00;
    assert_eq!(decode_address_from_script(&other), None);
    let mut other = script.clone();
    other[24] = 0xad;
    assert_eq!(decode_address_from_script(&other), None);
    assert_eq!(decode_address_from_script(&[]), None);

    let commons = vec!["ffff".to_string(), address.clone()];
    assert!(is_commons_address(&commons, &address));
    assert!(!is_commons_address(&commons, &"0000".to_string()));
    let output = TransactionOutput { value: 150_000, script_pubkey: script };
    let found = fee_forwarded_by(&commons, &output, "miner-1", "txid", 800_000, 77).unwrap();
    assert_eq!(found.amount_btc, 150_000);
    assert_eq!(found.commons_address, address);
    assert_eq!(found.contributor_id, "miner-1");
    assert_eq!(found.tx_hash, "txid");
    assert_eq!(found.block_height, 800_000);
    assert_eq!(found.timestamp, 77);
    assert!(fee_forwarded_by(&vec!["ffff".to_string()], &output, "m", "t", 1, 1).is_none());
    let odd = TransactionOutput { value: 1, script_pubkey: vec![0x6a] };
    assert!(fee_forwarded_by(&commons, &odd, "m", "t", 1, 1).is_none());
}
