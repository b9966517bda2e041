use bllvm_commons::config::{
    CommonsContributorThresholds, CommonsContributorThresholdsConfig, ContributionThreshold,
    MarketplaceThreshold, QualificationLogic, WeightCalculationConfig,
};
use bllvm_commons::economic_nodes::registry::{
    check_commons_contributor, check_control, check_thresholds, holdings_challenge_message, weigh,
    CommonsSettings, EconomicNodeRegistry, WeightSettings,
};
use bllvm_commons::economic_nodes::types::{
    CommonsContributorProof, ContactInfo, DollarSalesProof, FeeForwardingProof, HashpowerProof,
    HoldingsProof, MarketplaceSalesProof, MergeMiningProof, NodeStatus, NodeType,
    QualificationProof, QualificationThresholds, SignalType, VolumeProof, ZapProof,
};
use bllvm_commons::economic_nodes::weight::{
    calculate_commons_weight, calculate_exchange_weight,
    calculate_mining_pool_weight, calculate_total_contribution, convert_dollars_to_sats,
    integer_sqrt,
};
use bllvm_commons::error::GovernanceError;
use bllvm_commons::governance::config_reader::ConfigReader;
use bllvm_commons::governance::config_registry::{ConfigCategory, ConfigRegistry};
use bllvm_commons::governance::config_value::ConfigValue;
use bllvm_commons::governance::phase_calculator::{
    GovernancePhase, GovernancePhaseCalculator, MetricBoundaries, PhaseBoundaries,
};

const NOW: i64 = 1_700_000_000;

/// A number with a fraction as a fixed-point number in hundred-millionths.
fn fixed(x: f64) -> u64 {
    (x * 100_000_000.0).round() as u64
}

/// A fixed-point number as a number with a fraction.
fn as_number(x: u64) -> f64 {
    x as f64 / 100_000_000.0
}

fn contact() -> ContactInfo {
    ContactInfo {
        entity_name: "Test".to_string(),
        contact_email: "test@example.com".to_string(),
        website: None,
        github_username: None,
    }
}

fn empty_proof(node_type: NodeType) -> QualificationProof {
    QualificationProof {
        node_type,
        hashpower_proof: None,
        holdings_proof: None,
        volume_proof: None,
        commons_contributor_proof: None,
        contact_info: contact(),
    }
}

fn create_mining_pool_qualification(hashpower: f64) -> QualificationProof {
    QualificationProof {
        hashpower_proof: Some(HashpowerProof {
            blocks_mined: vec!["block1".to_string(), "block2".to_string()],
            time_period_days: 30,
            total_network_blocks: 100,
            percentage: fixed(hashpower),
        }),
        ..empty_proof(NodeType::MiningPool)
    }
}

fn create_exchange_qualification(holdings_btc: f64, daily_volume_btc: f64) -> QualificationProof {
    QualificationProof {
        holdings_proof: Some(HoldingsProof {
            addresses: vec!["addr1".to_string()],
            total_btc: fixed(holdings_btc),
            signature_challenge: "challenge".to_string(),
        }),
        volume_proof: Some(VolumeProof {
            daily_volume_btc: fixed(daily_volume_btc),
            monthly_volume_btc: fixed(daily_volume_btc * 30.0),
            transaction_hashes: vec!["tx1".to_string(), "tx2".to_string()],
        }),
        ..empty_proof(NodeType::Exchange)
    }
}

fn holdings_qualification(node_type: NodeType, holdings_btc: f64) -> QualificationProof {
    QualificationProof {
        holdings_proof: Some(HoldingsProof {
            addresses: vec!["addr1".to_string()],
            total_btc: fixed(holdings_btc),
            signature_challenge: "challenge".to_string(),
        }),
        ..empty_proof(node_type)
    }
}

fn commons_proof() -> CommonsContributorProof {
    CommonsContributorProof {
        merge_mining_proof: None,
        fee_forwarding_proof: None,
        zap_proof: None,
        marketplace_sales_proof: None,
        treasury_sales_proof: None,
        service_sales_proof: None,
    }
}

fn commons_qualification(shown: CommonsContributorProof) -> QualificationProof {
    QualificationProof {
        commons_contributor_proof: Some(shown),
        ..empty_proof(NodeType::CommonsContributor)
    }
}

fn setup_test_registry() -> EconomicNodeRegistry {
    EconomicNodeRegistry::new()
}

#[test]
fn test_calculate_weight_mining_pool() {
    let registry = setup_test_registry();
    let qual = create_mining_pool_qualification(5.0); // 5% hashpower

    let weight = as_number(registry.calculate_weight(NodeType::MiningPool, &qual).unwrap());
    // 5% hashpower = 0.05 weight (below cap, so uncapped)
    assert!(
        (weight - 0.05).abs() < 0.001,
        "Mining pool weight should be hashpower / 100 when below cap"
    );
}

#[test]
fn test_calculate_weight_mining_pool_capped() {
    let registry = setup_test_registry();
    // Test with 35% hashpower - should be capped at phase-based limit (10% or 20%)
    let qual = create_mining_pool_qualification(35.0);

    let weight = as_number(registry.calculate_weight(NodeType::MiningPool, &qual).unwrap());
    assert!(weight <= 0.20, "Mining pool weight should be capped at phase-based limit (max 20%)");
    assert!(weight >= 0.10, "Mining pool weight should be at least 10% cap in early phase");
}

#[test]
fn test_calculate_weight_mining_pool_small_below_cap() {
    let registry = setup_test_registry();
    // Test with 8% hashpower - should be uncapped (below 10% cap)
    let qual = create_mining_pool_qualification(8.0);

    let weight = as_number(registry.calculate_weight(NodeType::MiningPool, &qual).unwrap());
    assert!((weight - 0.08).abs() < 0.001, "Small mining pool should not be capped");
}

#[test]
fn test_calculate_weight_mining_pool_no_proof() {
    let registry = setup_test_registry();
    let qual = empty_proof(NodeType::MiningPool);

    let result = registry.calculate_weight(NodeType::MiningPool, &qual);
    assert!(result.is_err(), "Should fail without hashpower proof");
}

#[test]
fn test_calculate_weight_exchange() {
    let registry = setup_test_registry();
    let qual = create_exchange_qualification(5000.0, 50.0); // 50 BTC daily volume

    let weight = as_number(registry.calculate_weight(NodeType::Exchange, &qual).unwrap());
    // holdings: 5000/10000 * 0.7 = 0.35
    // volume: 50/100 * 0.3 = 0.15
    // total: 0.5
    assert!((weight - 0.5).abs() < 0.01, "Exchange weight should be 0.5");
}

#[test]
fn test_calculate_weight_exchange_capped() {
    let registry = setup_test_registry();
    let qual = create_exchange_qualification(20000.0, 200.0); // 200 BTC daily volume

    let weight = as_number(registry.calculate_weight(NodeType::Exchange, &qual).unwrap());
    // Should be capped at 1.0
    assert!(weight <= 1.0, "Weight should be capped at 1.0");
}

#[test]
fn test_calculate_weight_custodian() {
    let registry = setup_test_registry();
    let qual = holdings_qualification(NodeType::Custodian, 5000.0);

    let weight = as_number(registry.calculate_weight(NodeType::Custodian, &qual).unwrap());
    // 5000/10000 = 0.5
    assert!((weight - 0.5).abs() < 0.01, "Custodian weight should be 0.5");
}

#[test]
fn test_calculate_weight_major_holder() {
    let registry = setup_test_registry();
    let qual = holdings_qualification(NodeType::MajorHolder, 2500.0);

    let weight = as_number(registry.calculate_weight(NodeType::MajorHolder, &qual).unwrap());
    // 2500/5000 = 0.5
    assert!((weight - 0.5).abs() < 0.01, "Major holder weight should be 0.5");
}

#[test]
fn test_verify_qualification_mining_pool_meets_threshold() {
    let mut registry = setup_test_registry();
    let qual = create_mining_pool_qualification(35.0); // Above 1% threshold

    let verified = registry.verify_qualification(NodeType::MiningPool, &qual, NOW).unwrap();
    assert!(verified, "Should verify when hashpower meets threshold");
}

#[test]
fn test_verify_qualification_mining_pool_below_threshold() {
    let mut registry = setup_test_registry();
    let qual = create_mining_pool_qualification(0.5); // Below 1% threshold

    let verified = registry.verify_qualification(NodeType::MiningPool, &qual, NOW).unwrap();
    assert!(!verified, "Should not verify when hashpower below threshold");
}

#[test]
fn test_verify_qualification_mining_pool_no_proof() {
    let mut registry = setup_test_registry();
    let qual = empty_proof(NodeType::MiningPool);

    let verified = registry.verify_qualification(NodeType::MiningPool, &qual, NOW).unwrap();
    assert!(!verified, "Should not verify without hashpower proof");
}

#[test]
fn test_verify_qualification_exchange_meets_threshold() {
    let mut registry = setup_test_registry();
    let qual = create_exchange_qualification(10000.0, 100.0); // Meets thresholds

    let verified = registry.verify_qualification(NodeType::Exchange, &qual, NOW).unwrap();
    assert!(verified, "Should verify when exchange meets thresholds");
}

#[test]
fn test_verify_qualification_exchange_below_holdings() {
    let mut registry = setup_test_registry();
    let qual = create_exchange_qualification(9000.0, 100.0); // Below 10K BTC threshold

    let verified = registry.verify_qualification(NodeType::Exchange, &qual, NOW).unwrap();
    assert!(!verified, "Should not verify when holdings below threshold");
}

#[test]
fn test_verify_qualification_exchange_below_volume() {
    let mut registry = setup_test_registry();
    let qual = create_exchange_qualification(10000.0, 90.0); // Below 100 BTC daily threshold

    let verified = registry.verify_qualification(NodeType::Exchange, &qual, NOW).unwrap();
    assert!(!verified, "Should not verify when volume below threshold");
}

#[test]
fn test_get_node_by_id_not_found() {
    let registry = setup_test_registry();

    let result = registry.get_node_by_id(999);
    assert!(result.is_err(), "Should fail for non-existent node");
}

#[test]
fn test_get_active_nodes_empty() {
    let registry = setup_test_registry();

    let nodes = registry.get_active_nodes().unwrap();
    assert_eq!(nodes.len(), 0, "Should return empty list when no active nodes");
}

#[test]
fn test_mining_pool_weight_exact_values() {
    // 8% with a 10% cap: uncapped.
    assert_eq!(calculate_mining_pool_weight(fixed(8.0), Some(fixed(0.10))), 8_000_000);
    // 35% with a 10% cap: capped.
    assert_eq!(calculate_mining_pool_weight(fixed(35.0), Some(fixed(0.10))), 10_000_000);
    assert_eq!(calculate_mining_pool_weight(fixed(35.0), Some(fixed(0.20))), 20_000_000);
    assert_eq!(calculate_mining_pool_weight(fixed(35.0), None), 35_000_000);
    assert_eq!(calculate_mining_pool_weight(fixed(10.0), Some(fixed(0.10))), 10_000_000);
    assert_eq!(calculate_mining_pool_weight(0, Some(0)), 0);
    assert_eq!(calculate_mining_pool_weight(199, None), 1);
}

#[test]
fn test_exchange_weight_exact_values() {
    // 0.35 for the holdings and 0.15 for the volume.
    assert_eq!(calculate_exchange_weight(fixed(5000.0), fixed(50.0)), 50_000_000);
    assert_eq!(calculate_exchange_weight(fixed(5000.0), 0), 35_000_000);
    assert_eq!(calculate_exchange_weight(0, fixed(50.0)), 15_000_000);
    assert_eq!(calculate_exchange_weight(fixed(20000.0), fixed(200.0)), 100_000_000);
    assert_eq!(calculate_exchange_weight(u64::MAX, u64::MAX), 100_000_000);
    assert_eq!(calculate_exchange_weight(0, 0), 0);
}

#[test]
fn test_integer_sqrt() {
    assert_eq!(integer_sqrt(0), 0);
    assert_eq!(integer_sqrt(1), 1);
    assert_eq!(integer_sqrt(3), 1);
    assert_eq!(integer_sqrt(4), 2);
    assert_eq!(integer_sqrt(99), 9);
    assert_eq!(integer_sqrt(100), 10);
    assert_eq!(integer_sqrt(10_000_000_000_000_000), 100_000_000);
    assert_eq!(integer_sqrt(u128::MAX), u64::MAX as u128);
}

#[test]
fn test_commons_contributor_weight() {
    let mut shown = commons_proof();
    shown.merge_mining_proof = Some(MergeMiningProof {
        total_revenue_btc: fixed(0.10),
        period_days: 90,
        blocks_mined: vec!["b".to_string()],
    });
    shown.zap_proof = Some(ZapProof {
        total_zaps_btc: fixed(0.15),
        period_days: 90,
        zap_events: vec![],
    });
    // sqrt(0.25 / 1.0) = 0.5
    assert_eq!(calculate_total_contribution(&shown, 5_000_000_000_000), 25_000_000);
    assert_eq!(
        calculate_commons_weight(&shown, 5_000_000_000_000, 100_000_000, 1_000_000),
        50_000_000
    );
    // With the factor 4 the weight halves: sqrt(0.25 / 4) = 0.25
    assert_eq!(
        calculate_commons_weight(&shown, 5_000_000_000_000, 400_000_000, 1_000_000),
        25_000_000
    );
    // The least weight is a floor.
    assert_eq!(
        calculate_commons_weight(&shown, 5_000_000_000_000, 100_000_000, 70_000_000),
        70_000_000
    );
    assert_eq!(
        calculate_commons_weight(&commons_proof(), 5_000_000_000_000, 100_000_000, 1_000_000),
        1_000_000
    );
    // Dollar sales are converted at the price: 25 000 dollars at 50 000 are half a bitcoin.
    shown.treasury_sales_proof =
        Some(DollarSalesProof { total_sales_usd: fixed(25_000.0), period_days: 30 });
    assert_eq!(convert_dollars_to_sats(fixed(25_000.0), fixed(50_000.0)), 50_000_000);
    assert_eq!(convert_dollars_to_sats(fixed(25_000.0), 0), 0);
    assert_eq!(convert_dollars_to_sats(u64::MAX, 1), u64::MAX);
    assert_eq!(calculate_total_contribution(&shown, fixed(50_000.0)), 75_000_000);
    shown.service_sales_proof =
        Some(DollarSalesProof { total_sales_usd: fixed(12_500.0), period_days: 30 });
    // 0.25 + 0.5 + 0.25 = 1 bitcoin: weight one.
    assert_eq!(
        calculate_commons_weight(&shown, fixed(50_000.0), 100_000_000, 1_000_000),
        100_000_000
    );
    // A factor of zero: nothing gives the floor, anything gives the largest weight.
    assert_eq!(calculate_commons_weight(&commons_proof(), 1, 0, 5), 5);
    assert_eq!(calculate_commons_weight(&shown, fixed(50_000.0), 0, 5), u64::MAX);
}

#[test]
fn test_calculate_weight_is_deterministic() {
    let registry = setup_test_registry();
    let all = [
        (NodeType::MiningPool, create_mining_pool_qualification(12.5)),
        (NodeType::Exchange, create_exchange_qualification(1234.5, 67.8)),
        (NodeType::Custodian, holdings_qualification(NodeType::Custodian, 4321.0)),
        (NodeType::MajorHolder, holdings_qualification(NodeType::MajorHolder, 1234.0)),
        (NodeType::CommonsContributor, commons_qualification(commons_proof())),
    ];
    for (node_type, qual) in all.iter() {
        let first = registry.calculate_weight(*node_type, qual).unwrap();
        let second = registry.calculate_weight(*node_type, qual).unwrap();
        assert_eq!(first, second);
    }
}

#[test]
fn test_calculate_weight_missing_proofs_are_errors() {
    let registry = setup_test_registry();
    for node_type in [
        NodeType::MiningPool,
        NodeType::Exchange,
        NodeType::Custodian,
        NodeType::MajorHolder,
        NodeType::CommonsContributor,
    ] {
        let result = registry.calculate_weight(node_type, &empty_proof(node_type));
        assert!(matches!(result, Err(GovernanceError::CryptoError(_))));
    }
    // An exchange needs both of its proofs.
    let mut only_holdings = create_exchange_qualification(5000.0, 50.0);
    only_holdings.volume_proof = None;
    assert!(registry.calculate_weight(NodeType::Exchange, &only_holdings).is_err());
    let mut only_volume = create_exchange_qualification(5000.0, 50.0);
    only_volume.holdings_proof = None;
    assert!(registry.calculate_weight(NodeType::Exchange, &only_volume).is_err());
}

#[test]
fn test_weight_cap_follows_the_phase() {
    let mut registry = setup_test_registry();
    let qual = create_mining_pool_qualification(35.0);
    assert_eq!(registry.calculate_weight(NodeType::MiningPool, &qual).unwrap(), 10_000_000);

    let mut calculator = GovernancePhaseCalculator::new();
    calculator.update_metrics(60_000, 12, 15);
    registry.set_phase_calculator(Some(calculator));
    assert_eq!(registry.calculate_weight(NodeType::MiningPool, &qual).unwrap(), 20_000_000);

    calculator.update_metrics(250_000, 40, 150);
    registry.set_phase_calculator(Some(calculator));
    assert_eq!(registry.calculate_weight(NodeType::MiningPool, &qual).unwrap(), 10_000_000);

    registry.set_phase_calculator(None);
    assert_eq!(registry.calculate_weight(NodeType::MiningPool, &qual).unwrap(), 35_000_000);
}

#[test]
fn test_thresholds_from_configuration() {
    let thresholds = QualificationThresholds {
        minimum_hashpower_percent: Some(fixed(1.0)),
        minimum_holdings_btc: None,
        minimum_volume_btc: None,
    };
    assert!(!check_thresholds(
        NodeType::MiningPool,
        &thresholds,
        &create_mining_pool_qualification(0.5)
    ));
    assert!(check_thresholds(
        NodeType::MiningPool,
        &thresholds,
        &create_mining_pool_qualification(5.0)
    ));
    assert!(check_thresholds(
        NodeType::MiningPool,
        &thresholds,
        &create_mining_pool_qualification(1.0)
    ));
    let strict = QualificationThresholds {
        minimum_hashpower_percent: Some(fixed(10.0)),
        minimum_holdings_btc: None,
        minimum_volume_btc: None,
    };
    assert!(!check_thresholds(NodeType::MiningPool, &strict, &create_mining_pool_qualification(5.0)));

    // Another kind of node than an exchange is measured by the volume of a month.
    let volume = QualificationThresholds {
        minimum_hashpower_percent: None,
        minimum_holdings_btc: None,
        minimum_volume_btc: Some(fixed(100.0)),
    };
    let qual = create_exchange_qualification(0.0, 10.0);
    assert!(!check_thresholds(NodeType::Exchange, &volume, &qual));
    assert!(check_thresholds(NodeType::Custodian, &volume, &qual));
    assert_eq!(NodeType::MiningPool.qualification_thresholds().minimum_hashpower_percent, Some(fixed(1.0)));
    assert_eq!(NodeType::Exchange.qualification_thresholds().minimum_holdings_btc, Some(fixed(10_000.0)));
    assert_eq!(NodeType::Exchange.qualification_thresholds().minimum_volume_btc, Some(fixed(100.0)));
    assert_eq!(NodeType::Custodian.qualification_thresholds().minimum_holdings_btc, Some(fixed(10_000.0)));
    assert_eq!(NodeType::MajorHolder.qualification_thresholds().minimum_holdings_btc, Some(fixed(5_000.0)));
    assert_eq!(NodeType::CommonsContributor.qualification_thresholds().minimum_holdings_btc, None);
}

#[test]
fn test_node_type_status_and_signal_names() {
    for (t, name) in [
        (NodeType::MiningPool, "mining_pool"),
        (NodeType::Exchange, "exchange"),
        (NodeType::Custodian, "custodian"),
        (NodeType::MajorHolder, "major_holder"),
        (NodeType::CommonsContributor, "commons_contributor"),
    ] {
        assert_eq!(t.as_str(), name);
        assert_eq!(NodeType::from_str(name), Some(t));
    }
    assert_eq!(NodeType::from_str("payment_processor"), None);
    for (s, name) in [
        (NodeStatus::Pending, "pending"),
        (NodeStatus::Active, "active"),
        (NodeStatus::Suspended, "suspended"),
        (NodeStatus::Revoked, "revoked"),
    ] {
        assert_eq!(s.as_str(), name);
        assert_eq!(NodeStatus::from_str(name), Some(s));
    }
    assert_eq!(NodeStatus::from_str("deleted"), None);
    for (s, name) in [
        (SignalType::Veto, "veto"),
        (SignalType::Support, "support"),
        (SignalType::Abstain, "abstain"),
    ] {
        assert_eq!(s.as_str(), name);
        assert_eq!(SignalType::from_str(name), Some(s));
    }
    assert_eq!(SignalType::from_str("VETO"), None);
}

fn all_kinds(period: u32) -> CommonsSettings {
    CommonsSettings {
        merge_mining: Some(fixed(0.01)),
        fee_forwarding: Some(fixed(0.1)),
        zaps: Some(fixed(0.01)),
        marketplace: None,
        measurement_period_days: period,
        logic: QualificationLogic::Any,
        all_needs_one: false,
    }
}

#[test]
fn test_commons_contributor_qualification_logic() {
    let mut shown = commons_proof();
    shown.merge_mining_proof = Some(MergeMiningProof {
        total_revenue_btc: fixed(0.02),
        period_days: 90,
        blocks_mined: vec![],
    });
    shown.zap_proof = Some(ZapProof {
        total_zaps_btc: fixed(0.005),
        period_days: 120,
        zap_events: vec![],
    });
    let qual = commons_qualification(shown);

    // One met kind is enough for "any".
    let any = all_kinds(90);
    assert!(check_commons_contributor(&any, &qual));
    // "All" asks for every kind that counts.
    let all = CommonsSettings { logic: QualificationLogic::All, ..any };
    assert!(!check_commons_contributor(&all, &qual));
    let only_merge = CommonsSettings { fee_forwarding: None, zaps: None, ..all };
    assert!(check_commons_contributor(&only_merge, &qual));
    // The period counts as well.
    assert!(!check_commons_contributor(&all_kinds(91), &qual));
    // A kind that does not count cannot be met.
    let none = CommonsSettings { merge_mining: None, fee_forwarding: None, zaps: None, ..any };
    assert!(!check_commons_contributor(&none, &qual));
    let none_all = CommonsSettings { logic: QualificationLogic::All, ..none };
    assert!(check_commons_contributor(&none_all, &qual));
    let none_all_strict = CommonsSettings { all_needs_one: true, ..none_all };
    assert!(!check_commons_contributor(&none_all_strict, &qual));
    // Without any evidence of contributions nobody qualifies.
    assert!(!check_commons_contributor(&any, &empty_proof(NodeType::CommonsContributor)));
    assert!(!check_commons_contributor(&none_all, &empty_proof(NodeType::CommonsContributor)));
}

fn yaml_config(logic: &str) -> CommonsContributorThresholdsConfig {
    CommonsContributorThresholdsConfig {
        commons_contributor_thresholds: CommonsContributorThresholds {
            merge_mining: ContributionThreshold { enabled: true, minimum_contribution_btc: fixed(0.5) },
            fee_forwarding: ContributionThreshold { enabled: false, minimum_contribution_btc: 0 },
            zaps: ContributionThreshold { enabled: false, minimum_contribution_btc: 0 },
            marketplace: MarketplaceThreshold {
                enabled: true,
                minimum_contribution_btc: 0,
                minimum_sales_btc: None,
            },
            measurement_period_days: 30,
            qualification_logic: logic.to_string(),
        },
        weight_calculation: WeightCalculationConfig {
            normalization_factor: 400_000_000,
            minimum_weight: 2_000_000,
        },
    }
}

#[test]
fn test_commons_contributor_qualification_sources() {
    let mut shown = commons_proof();
    shown.merge_mining_proof = Some(MergeMiningProof {
        total_revenue_btc: fixed(0.02),
        period_days: 90,
        blocks_mined: vec!["b".to_string()],
    });
    let qual = commons_qualification(shown);

    // Built-in thresholds: 0.01 bitcoin over 90 days.
    let mut registry = setup_test_registry();
    assert!(registry.verify_qualification(NodeType::CommonsContributor, &qual, NOW).unwrap());
    assert!(registry.verify_commons_contributor_defaults(&qual).unwrap());

    // File-based thresholds: half a bitcoin of merge mining is not met, "OR".
    let mut registry = EconomicNodeRegistry::with_thresholds(Some(yaml_config("OR")));
    assert!(!registry.verify_qualification(NodeType::CommonsContributor, &qual, NOW).unwrap());
    assert!(registry.get_commons_contributor_thresholds().unwrap().is_some());
    // The weight uses the configured factor and floor: sqrt(0.02 / 4) = 0.0707...
    let weight = registry.calculate_weight(NodeType::CommonsContributor, &qual).unwrap();
    assert_eq!(weight, 7_071_067);

    // The reader goes before the file-based thresholds.
    let mut config = ConfigRegistry::new();
    config
        .register_config(
            "commons_contributor_min_merge_mining_btc",
            ConfigCategory::Thresholds,
            ConfigValue::Fixed(2_000_000),
            None,
            5,
            None,
            NOW,
        )
        .unwrap();
    let reader = ConfigReader::new(config);
    let mut registry = EconomicNodeRegistry::with_config_reader(
        Some(reader),
        Some(GovernancePhaseCalculator::new()),
    );
    registry.set_commons_contributor_thresholds(Some(yaml_config("OR")));
    assert!(registry.verify_qualification(NodeType::CommonsContributor, &qual, NOW).unwrap());

    // A configured mode that is no text is an error.
    let mut config = ConfigRegistry::new();
    config
        .register_config(
            "commons_contributor_qualification_logic",
            ConfigCategory::FeatureFlags,
            ConfigValue::PosInt(1),
            None,
            5,
            None,
            NOW,
        )
        .unwrap();
    let mut registry =
        EconomicNodeRegistry::with_config_reader(Some(ConfigReader::new(config)), None);
    assert!(matches!(
        registry.verify_qualification(NodeType::CommonsContributor, &qual, NOW),
        Err(GovernanceError::ConfigError(_))
    ));
    // Without evidence nothing is read, and the answer is no.
    assert!(!registry
        .verify_qualification(
            NodeType::CommonsContributor,
            &empty_proof(NodeType::CommonsContributor),
            NOW
        )
        .unwrap());
}

#[test]
fn test_proof_of_control() {
    let registry = setup_test_registry();
    let pool = create_mining_pool_qualification(5.0);
    assert!(registry.verify_cryptographic_proofs(NodeType::MiningPool, &pool, false).unwrap());
    let mut no_blocks = create_mining_pool_qualification(5.0);
    no_blocks.hashpower_proof.as_mut().unwrap().blocks_mined.clear();
    assert!(!check_control(NodeType::MiningPool, &no_blocks, true));
    assert!(!check_control(NodeType::MiningPool, &empty_proof(NodeType::MiningPool), true));

    for node_type in [NodeType::Exchange, NodeType::Custodian, NodeType::MajorHolder] {
        let qual = create_exchange_qualification(10_000.0, 100.0);
        assert!(check_control(node_type, &qual, true));
        assert!(!check_control(node_type, &qual, false));
        let mut no_addresses = create_exchange_qualification(10_000.0, 100.0);
        no_addresses.holdings_proof.as_mut().unwrap().addresses.clear();
        assert!(!check_control(node_type, &no_addresses, true));
        assert!(!check_control(node_type, &empty_proof(node_type), true));
    }

    let mut shown = commons_proof();
    assert!(!check_control(NodeType::CommonsContributor, &commons_qualification(commons_proof()), true));
    shown.merge_mining_proof = Some(MergeMiningProof {
        total_revenue_btc: 1,
        period_days: 1,
        blocks_mined: vec!["b".to_string()],
    });
    shown.fee_forwarding_proof = Some(FeeForwardingProof {
        total_fees_forwarded_btc: 1,
        period_days: 1,
        blocks_with_forwarding: vec![],
    });
    // One proof is sound and one is not: the whole check fails.
    let partial = commons_qualification(shown);
    assert!(!check_control(NodeType::CommonsContributor, &partial, true));
    let mut shown = commons_proof();
    shown.marketplace_sales_proof = Some(MarketplaceSalesProof {
        total_sales_btc: 1,
        period_days: 1,
        module_payments: vec!["p".to_string()],
    });
    assert!(check_control(NodeType::CommonsContributor, &commons_qualification(shown), false));
    assert!(!check_control(
        NodeType::CommonsContributor,
        &empty_proof(NodeType::CommonsContributor),
        true
    ));
}

#[test]
fn test_holdings_challenge_message() {
    let holdings = HoldingsProof {
        addresses: vec!["bc1a".to_string(), "bc1b".to_string(), "bc1c".to_string()],
        total_btc: 1,
        signature_challenge: "sig".to_string(),
    };
    assert_eq!(holdings_challenge_message("02abc", &holdings), "02abc||bc1a,bc1b,bc1c");
    let one = HoldingsProof { addresses: vec!["x".to_string()], total_btc: 1, signature_challenge: "s".into() };
    assert_eq!(holdings_challenge_message("k", &one), "k||x");
    let none = HoldingsProof { addresses: vec![], total_btc: 1, signature_challenge: "s".into() };
    assert_eq!(holdings_challenge_message("k", &none), "k||");
}

#[test]
fn test_registration_active_and_pending() {
    let mut registry = setup_test_registry();
    let id = registry
        .register_economic_node(
            NodeType::MiningPool,
            "Test Mining Pool",
            "test_public_key_1",
            create_mining_pool_qualification(5.0),
            Some("test_admin"),
            false,
            NOW,
        )
        .unwrap();
    assert_eq!(id, 1);
    let node = registry.get_node_by_id(1).unwrap();
    assert_eq!(node.id, 1);
    assert_eq!(node.node_type, NodeType::MiningPool);
    assert_eq!(node.entity_name, "Test Mining Pool");
    assert_eq!(node.public_key, "test_public_key_1");
    assert_eq!(node.weight, 5_000_000);
    assert_eq!(node.status, NodeStatus::Active);
    assert_eq!(node.registered_at, NOW);
    assert_eq!(node.verified_at, Some(NOW));
    assert_eq!(node.last_verified_at, None);
    assert_eq!(node.created_by, Some("test_admin".to_string()));
    assert_eq!(node.qualification_data.hashpower_proof.as_ref().unwrap().percentage, fixed(5.0));

    // An exchange whose signature does not verify is registered, but pending.
    let id = registry
        .register_economic_node(
            NodeType::Exchange,
            "Test Exchange",
            "test_public_key_2",
            create_exchange_qualification(10_000.0, 100.0),
            None,
            false,
            NOW + 1,
        )
        .unwrap();
    assert_eq!(id, 2);
    let node = registry.get_node_by_id(2).unwrap();
    assert_eq!(node.status, NodeStatus::Pending);
    assert_eq!(node.verified_at, None);
    assert_eq!(node.weight, 100_000_000);
    assert_eq!(node.created_by, None);

    let id = registry
        .register_economic_node(
            NodeType::Custodian,
            "Test Custodian",
            "test_public_key_3",
            holdings_qualification(NodeType::Custodian, 12_000.0),
            Some("p2p_registration"),
            true,
            NOW + 2,
        )
        .unwrap();
    assert_eq!(id, 3);
    assert_eq!(registry.get_node_by_id(3).unwrap().status, NodeStatus::Active);
    assert_eq!(registry.nodes.len(), 3);
}

#[test]
fn test_registration_same_public_key_fails_whatever_the_rest() {
    let mut registry = setup_test_registry();
    registry
        .register_economic_node(
            NodeType::MiningPool,
            "Pool",
            "key",
            create_mining_pool_qualification(5.0),
            None,
            true,
            NOW,
        )
        .unwrap();
    let again = registry.register_economic_node(
        NodeType::Exchange,
        "Exchange",
        "key",
        create_exchange_qualification(10_000.0, 100.0),
        Some("someone"),
        true,
        NOW + 5,
    );
    assert!(matches!(again, Err(GovernanceError::DatabaseError(_))));
    let again = registry.register_economic_node(
        NodeType::MiningPool,
        "Pool",
        "key",
        create_mining_pool_qualification(0.1),
        None,
        false,
        NOW,
    );
    assert!(matches!(again, Err(GovernanceError::DatabaseError(_))));
    assert_eq!(registry.nodes.len(), 1);
}

#[test]
fn test_registration_below_thresholds_is_refused() {
    let mut registry = setup_test_registry();
    let result = registry.register_economic_node(
        NodeType::MiningPool,
        "Insufficient Mining Pool",
        "test_public_key_4",
        create_mining_pool_qualification(0.5),
        Some("test_admin"),
        true,
        NOW,
    );
    assert!(matches!(result, Err(GovernanceError::CryptoError(_))));
    let result = registry.register_economic_node(
        NodeType::Exchange,
        "Insufficient Exchange",
        "test_public_key_5",
        create_exchange_qualification(500.0, 5.0),
        Some("test_admin"),
        true,
        NOW,
    );
    assert!(result.is_err());
    assert_eq!(registry.nodes.len(), 0);
    // The key of a refused registration stays free.
    assert!(registry
        .register_economic_node(
            NodeType::MiningPool,
            "Pool",
            "test_public_key_4",
            create_mining_pool_qualification(2.0),
            None,
            true,
            NOW,
        )
        .is_ok());
}

#[test]
fn test_node_status_management() {
    let mut registry = setup_test_registry();
    let node_id = registry
        .register_economic_node(
            NodeType::MiningPool,
            "Test Node",
            "test_public_key",
            create_mining_pool_qualification(5.0),
            Some("test_admin"),
            true,
            NOW,
        )
        .unwrap();

    registry.update_node_status(node_id, NodeStatus::Active).unwrap();
    let active_nodes = registry.get_active_nodes().unwrap();
    assert_eq!(active_nodes.len(), 1);
    assert_eq!(active_nodes[0].entity_name, "Test Node");

    registry.update_node_status(node_id, NodeStatus::Suspended).unwrap();
    let active_nodes = registry.get_active_nodes().unwrap();
    assert_eq!(active_nodes.len(), 0);

    // A revoked node stays in the registry and stays revoked.
    registry.update_node_status(node_id, NodeStatus::Revoked).unwrap();
    assert!(matches!(
        registry.update_node_status(node_id, NodeStatus::Active),
        Err(GovernanceError::CryptoError(_))
    ));
    registry.update_node_status(node_id, NodeStatus::Revoked).unwrap();
    assert_eq!(registry.get_node_by_id(node_id).unwrap().status, NodeStatus::Revoked);
    assert_eq!(registry.get_node_by_id(node_id).unwrap().weight, 5_000_000);
    // An unknown number changes nothing.
    registry.update_node_status(99, NodeStatus::Active).unwrap();
    assert_eq!(registry.nodes.len(), 1);
}

#[test]
fn test_active_nodes_are_ordered_by_weight() {
    let mut registry = setup_test_registry();
    registry.set_phase_calculator(None);
    for (key, hashpower) in [("a", 5.0), ("b", 20.0), ("c", 10.0), ("d", 20.0), ("e", 7.0)] {
        registry
            .register_economic_node(
                NodeType::MiningPool,
                key,
                key,
                create_mining_pool_qualification(hashpower),
                None,
                true,
                NOW,
            )
            .unwrap();
    }
    registry.update_node_status(3, NodeStatus::Suspended).unwrap();
    let ids: Vec<i32> = registry.get_active_nodes().unwrap().iter().map(|n| n.id).collect();
    assert_eq!(ids, vec![2, 4, 5, 1]);
    assert!(registry.find_active_node("c").is_none());
    assert_eq!(registry.find_active_node("e").unwrap().id, 5);
    assert!(registry.find_active_node("zzz").is_none());
}

#[test]
fn test_weight_recalculation() {
    let mut registry = setup_test_registry();
    registry.set_phase_calculator(None);
    registry
        .register_economic_node(
            NodeType::MiningPool,
            "Small Pool",
            "test_public_key_1",
            create_mining_pool_qualification(5.0),
            Some("test_admin"),
            true,
            NOW,
        )
        .unwrap();
    registry
        .register_economic_node(
            NodeType::MiningPool,
            "Large Pool",
            "test_public_key_2",
            create_mining_pool_qualification(30.0),
            Some("test_admin"),
            true,
            NOW,
        )
        .unwrap();
    assert_eq!(registry.get_node_by_id(2).unwrap().weight, 30_000_000);

    // With a phase calculator the cap applies from the next recalculation on.
    registry.set_phase_calculator(Some(GovernancePhaseCalculator::new()));
    registry.recalculate_all_weights().unwrap();
    assert_eq!(registry.get_node_by_id(1).unwrap().weight, 5_000_000);
    assert_eq!(registry.get_node_by_id(2).unwrap().weight, 10_000_000);
    // Recalculating again changes nothing.
    registry.recalculate_all_weights().unwrap();
    assert_eq!(registry.get_node_by_id(1).unwrap().weight, 5_000_000);
    assert_eq!(registry.get_node_by_id(2).unwrap().weight, 10_000_000);
    assert_eq!(registry.get_node_by_id(2).unwrap().status, NodeStatus::Active);
}

#[test]
fn test_registry_constructors() {
    let with_calculator = EconomicNodeRegistry::with_phase_calculator(None);
    assert!(with_calculator.phase_calculator.is_none());
    assert!(with_calculator.config_reader.is_none());
    assert_eq!(with_calculator.nodes.len(), 0);
    let qual = commons_qualification(commons_proof());
    assert_eq!(with_calculator.calculate_commons_contributor_weight(&qual).unwrap(), 1_000_000);
    assert!(with_calculator
        .calculate_commons_contributor_weight(&empty_proof(NodeType::CommonsContributor))
        .is_err());
    assert!(setup_test_registry().phase_calculator.is_some());
    assert!(setup_test_registry().get_commons_contributor_thresholds().unwrap().is_none());
}

#[test]
fn test_weigh_with_settings() {
    let settings = WeightSettings {
        mining_pool_weight_cap: Some(15_000_000),
        btc_price: fixed(50_000.0),
        normalization_factor: 100_000_000,
        minimum_weight: 1_000_000,
    };
    assert_eq!(
        weigh(&settings, NodeType::MiningPool, &create_mining_pool_qualification(35.0)).unwrap(),
        15_000_000
    );
    assert_eq!(
        weigh(&settings, NodeType::MajorHolder, &holdings_qualification(NodeType::MajorHolder, 6000.0))
            .unwrap(),
        100_000_000
    );
}

#[test]
fn test_phase_calculation() {
    let calculator = GovernancePhaseCalculator::new();
    assert_eq!(calculator.get_phase(0, 0, 0), GovernancePhase::Early);
    assert_eq!(calculator.get_phase(49_999, 100, 100), GovernancePhase::Early);
    assert_eq!(calculator.get_phase(50_000, 10, 10), GovernancePhase::Growth);
    assert_eq!(calculator.get_phase(199_999, 30, 100), GovernancePhase::Growth);
    assert_eq!(calculator.get_phase(200_000, 30, 100), GovernancePhase::Mature);
    // Where the metrics disagree the earliest phase stands.
    assert_eq!(calculator.get_phase(1_000_000, 5, 1_000), GovernancePhase::Early);
    assert_eq!(calculator.get_phase(1_000_000, 29, 1_000), GovernancePhase::Growth);
    assert_eq!(calculator.get_phase(10, 1_000, 1_000), GovernancePhase::Early);

    let parameters = calculator.get_adaptive_parameters().unwrap();
    assert_eq!(parameters.phase, GovernancePhase::Early);
    assert_eq!(parameters.mining_pool_weight_cap, 10_000_000);
    let mut grown = calculator;
    grown.update_metrics(60_000, 20, 20);
    assert_eq!(grown.get_adaptive_parameters().unwrap().mining_pool_weight_cap, 20_000_000);
    grown.update_metrics(300_000, 40, 200);
    assert_eq!(grown.get_adaptive_parameters().unwrap().phase, GovernancePhase::Mature);
    assert_eq!(grown.get_adaptive_parameters().unwrap().mining_pool_weight_cap, 10_000_000);

    assert_eq!(GovernancePhase::Early.as_str(), "early");
    assert_eq!(GovernancePhase::Growth.as_str(), "growth");
    assert_eq!(GovernancePhase::Mature.as_str(), "mature");
    assert_eq!(GovernancePhase::Mature.earlier(GovernancePhase::Growth), GovernancePhase::Growth);
    let gap = MetricBoundaries { early_max: 10, growth_min: 20, growth_max: 30, mature_min: 40 };
    assert_eq!(gap.phase(15), GovernancePhase::Early);
    assert_eq!(gap.phase(20), GovernancePhase::Growth);
    assert_eq!(gap.phase(35), GovernancePhase::Growth);
    assert_eq!(gap.phase(40), GovernancePhase::Mature);
    assert_eq!(PhaseBoundaries::default().nodes.mature_min, 30);
}

#[test]
fn test_phase_boundaries_are_read_through_the_reader() {
    let mut config = ConfigRegistry::new();
    config
        .register_config(
            "phase_growth_min_blocks",
            ConfigCategory::Thresholds,
            ConfigValue::PosInt(1_000),
            None,
            5,
            None,
            NOW,
        )
        .unwrap();
    config
        .register_config(
            "phase_early_max_blocks",
            ConfigCategory::Thresholds,
            ConfigValue::PosInt(1_000),
            None,
            5,
            None,
            NOW,
        )
        .unwrap();
    let mut reader = ConfigReader::new(config);
    let mut calculator = GovernancePhaseCalculator::new();
    calculator.load_boundaries(&mut reader, NOW).unwrap();
    assert_eq!(calculator.boundaries.blocks.early_max, 1_000);
    assert_eq!(calculator.boundaries.blocks.growth_min, 1_000);
    assert_eq!(calculator.boundaries.blocks.growth_max, 200_000);
    assert_eq!(calculator.boundaries.contributors.mature_min, 100);
    assert_eq!(calculator.get_phase(1_000, 10, 10), GovernancePhase::Growth);

    // A boundary that is no number is an error, and the boundaries stay.
    reader
        .registry
        .register_config(
            "phase_mature_min_nodes",
            ConfigCategory::Thresholds,
            ConfigValue::Text("many".to_string()),
            None,
            5,
            None,
            NOW,
        )
        .unwrap();
    let mut other = GovernancePhaseCalculator::new();
    assert!(matches!(
        other.load_boundaries(&mut reader, NOW),
        Err(GovernanceError::ConfigError(_))
    ));
    assert_eq!(other.boundaries.blocks.early_max, 50_000);
}

fn registry_with_minimum(value: Option<ConfigValue>) -> EconomicNodeRegistry {
    let mut config = ConfigRegistry::new();
    if let Some(value) = value {
        config
            .register_config(
                "mining_pool_min_hashpower_percent",
                ConfigCategory::Thresholds,
                value,
                None,
                5,
                None,
                NOW,
            )
            .unwrap();
    }
    EconomicNodeRegistry::with_config_reader(Some(ConfigReader::new(config)), None)
}

#[test]
fn test_mining_pool_minimum_comes_from_the_configuration() {
    let below = create_mining_pool_qualification(0.5);
    let at_one = create_mining_pool_qualification(1.0);
    let two = create_mining_pool_qualification(2.0);
    let three = create_mining_pool_qualification(3.0);

    // Without a reader the built-in minimum of one percent stands.
    let mut registry = setup_test_registry();
    assert!(!registry.verify_qualification(NodeType::MiningPool, &below, NOW).unwrap());
    assert!(registry.verify_qualification(NodeType::MiningPool, &at_one, NOW).unwrap());

    // With a reader and no configured value, one percent is the fallback.
    let mut registry = registry_with_minimum(None);
    assert!(!registry.verify_qualification(NodeType::MiningPool, &below, NOW).unwrap());
    assert!(registry.verify_qualification(NodeType::MiningPool, &at_one, NOW).unwrap());

    // A configured minimum of three percent turns a pool of two percent
    // away, and takes one of three percent.
    let mut registry = registry_with_minimum(Some(ConfigValue::PosInt(3)));
    assert!(!registry.verify_qualification(NodeType::MiningPool, &two, NOW).unwrap());
    assert!(registry.verify_qualification(NodeType::MiningPool, &three, NOW).unwrap());
    let refused = registry.register_economic_node(
        NodeType::MiningPool,
        "Two percent",
        "pool-key-2",
        create_mining_pool_qualification(2.0),
        None,
        true,
        NOW,
    );
    assert!(refused.is_err());
    assert_eq!(registry.nodes.len(), 0);
    // A pool without evidence of hashpower never qualifies.
    assert!(!registry
        .verify_qualification(NodeType::MiningPool, &empty_proof(NodeType::MiningPool), NOW)
        .unwrap());

    // A configured minimum of a quarter percent takes a pool of half a
    // percent.
    let mut registry = registry_with_minimum(Some(ConfigValue::Fixed(25_000_000)));
    assert!(registry.verify_qualification(NodeType::MiningPool, &below, NOW).unwrap());
    assert!(!registry
        .verify_qualification(NodeType::MiningPool, &create_mining_pool_qualification(0.2), NOW)
        .unwrap());

    // A configured minimum that is no number is an error.
    let mut registry = registry_with_minimum(Some(ConfigValue::Text("one".to_string())));
    assert!(matches!(
        registry.verify_qualification(NodeType::MiningPool, &three, NOW),
        Err(GovernanceError::ConfigError(_))
    ));
    // The other kinds do not read it.
    assert!(registry
        .verify_qualification(
            NodeType::Exchange,
            &create_exchange_qualification(10_000.0, 100.0),
            NOW
        )
        .unwrap());
}

#[test]
fn test_new_registry_has_a_calculator_at_the_start() {
    for registry in [EconomicNodeRegistry::new(), EconomicNodeRegistry::with_thresholds(None)] {
        let calculator = registry.phase_calculator.expect("a calculator");
        assert_eq!(calculator.block_height, 0);
        assert_eq!(calculator.active_node_count, 0);
        assert_eq!(calculator.active_contributor_count, 0);
        assert_eq!(calculator.boundaries.blocks.early_max, 50_000);
        assert_eq!(calculator.boundaries.blocks.growth_max, 200_000);
        assert_eq!(calculator.boundaries.nodes.early_max, 10);
        assert_eq!(calculator.boundaries.nodes.mature_min, 30);
        assert_eq!(calculator.boundaries.contributors.growth_max, 100);
        assert_eq!(calculator.get_phase(0, 0, 0), GovernancePhase::Early);
        assert_eq!(calculator.get_adaptive_parameters().unwrap().mining_pool_weight_cap, 10_000_000);
    }
}

#[test]
fn test_commons_qualification_stops_at_a_value_of_another_kind() {
    let qual = commons_qualification(commons_proof());
    let mut config = ConfigRegistry::new();
    config
        .register_config(
            "commons_contributor_min_zaps_btc",
            ConfigCategory::Thresholds,
            ConfigValue::Text("much".to_string()),
            None,
            5,
            None,
            NOW,
        )
        .unwrap();
    let mut registry =
        EconomicNodeRegistry::with_config_reader(Some(ConfigReader::new(config)), None);
    assert!(matches!(
        registry.verify_qualification(NodeType::CommonsContributor, &qual, NOW),
        Err(GovernanceError::ConfigError(_))
    ));
    let refused = registry.register_economic_node(
        NodeType::CommonsContributor,
        "Contributor",
        "contributor-key",
        commons_qualification(commons_proof()),
        None,
        true,
        NOW,
    );
    assert!(refused.is_err());
    assert_eq!(registry.nodes.len(), 0);
}
