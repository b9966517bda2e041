use bllvm_commons::economic_nodes::registry::EconomicNodeRegistry;
use bllvm_commons::economic_nodes::types::{
    ContactInfo, HashpowerProof, HoldingsProof, NodeStatus, NodeType, QualificationProof, SignalType,
};
use bllvm_commons::error::GovernanceError;
use bllvm_commons::governance::message_dedup::MessageDeduplicator;
use bllvm_commons::governance::p2p_receiver::{
    fork_decision_signing_message, registration_signing_message, veto_signing_message,
    EconomicNodeForkDecisionMessage, EconomicNodeRegistrationMessage, EconomicNodeStatusMessage,
    EconomicNodeVetoMessage, P2PReceiver,
};

const NOW: i64 = 1_700_000_000;
const DAY: i64 = 86_400;

#[test]
fn test_mark_processed_then_is_duplicate() {
    let mut dedup = MessageDeduplicator::new();
    assert!(!dedup.is_duplicate("m1", NOW).unwrap());
    dedup.mark_processed("m1", NOW).unwrap();
    assert!(dedup.is_duplicate("m1", NOW).unwrap());
    assert!(dedup.is_duplicate("m1", NOW + DAY - 1).unwrap());
    assert!(!dedup.is_duplicate("m1", NOW + DAY).unwrap());
    assert!(!dedup.is_duplicate("m2", NOW).unwrap());
}

#[test]
fn test_cleanup_past_the_ttl_forgets_the_message() {
    let mut dedup = MessageDeduplicator::new();
    dedup.mark_processed("old", NOW).unwrap();
    dedup.mark_processed("new", NOW + DAY).unwrap();
    dedup.cleanup(NOW + DAY + 1).unwrap();
    assert!(!dedup.is_duplicate("old", NOW + DAY + 1).unwrap());
    assert!(dedup.is_duplicate("new", NOW + DAY + 1).unwrap());
    assert!(dedup.cache.get("old").is_none());
    assert!(dedup.store.get("old").is_none());
    assert_eq!(dedup.cache.get("new"), Some(&(NOW + DAY)));
    assert_eq!(dedup.store.len(), 1);
}

#[test]
fn test_cleanup_keeps_what_is_young_enough() {
    let mut dedup = MessageDeduplicator::with_ttl(100);
    dedup.mark_processed("a", 1_000).unwrap();
    dedup.mark_processed("b", 1_050).unwrap();
    dedup.mark_processed("c", 1_100).unwrap();
    dedup.cleanup(1_150).unwrap(); // cutoff 1_050
    assert!(dedup.cache.get("a").is_none());
    assert!(dedup.store.get("a").is_none());
    // Exactly at the cutoff: gone from the cache, still in the store, and not seen.
    assert!(dedup.cache.get("b").is_none());
    assert_eq!(dedup.store.get("b"), Some(&1_050));
    assert!(!dedup.is_duplicate("b", 1_150).unwrap());
    assert!(dedup.is_duplicate("c", 1_150).unwrap());
}

#[test]
fn test_the_store_outlives_the_cache() {
    let mut dedup = MessageDeduplicator::new();
    dedup.mark_processed("m", NOW).unwrap();
    dedup.cache.clear(); // as after a restart
    assert!(dedup.is_duplicate("m", NOW + 10).unwrap());
    // Marking again moves the time forward in both layers.
    dedup.mark_processed("m", NOW + DAY).unwrap();
    assert!(dedup.is_duplicate("m", NOW + DAY + 10).unwrap());
    assert_eq!(dedup.store.len(), 1);
}

fn contact() -> ContactInfo {
    ContactInfo {
        entity_name: "Pool".to_string(),
        contact_email: "p@example.com".to_string(),
        website: None,
        github_username: None,
    }
}

fn pool_proof(percentage: u64) -> QualificationProof {
    QualificationProof {
        node_type: NodeType::MiningPool,
        hashpower_proof: Some(HashpowerProof {
            blocks_mined: vec!["b1".to_string()],
            time_period_days: 30,
            total_network_blocks: 100,
            percentage,
        }),
        holdings_proof: None,
        volume_proof: None,
        commons_contributor_proof: None,
        contact_info: contact(),
    }
}

fn holder_proof() -> QualificationProof {
    QualificationProof {
        node_type: NodeType::MajorHolder,
        hashpower_proof: None,
        holdings_proof: Some(HoldingsProof {
            addresses: vec!["a1".to_string()],
            total_btc: 600_000_000_000,
            signature_challenge: "sig".to_string(),
        }),
        volume_proof: None,
        commons_contributor_proof: None,
        contact_info: contact(),
    }
}

fn registration(node_type: &str, key: &str, message_id: &str) -> EconomicNodeRegistrationMessage {
    EconomicNodeRegistrationMessage {
        node_type: node_type.to_string(),
        entity_name: "Pool One".to_string(),
        public_key: key.to_string(),
        qualification_data: "{\"node_type\":\"mining_pool\"}".to_string(),
        timestamp: NOW,
        signature: "signature".to_string(),
        message_id: message_id.to_string(),
    }
}

fn veto(node_id: Option<i32>, key: &str, pr_id: i32, signal: &str, message_id: &str) -> EconomicNodeVetoMessage {
    EconomicNodeVetoMessage {
        node_id,
        public_key: key.to_string(),
        pr_id,
        signal_type: signal.to_string(),
        timestamp: NOW,
        signature: "veto-signature".to_string(),
        message_id: message_id.to_string(),
    }
}

fn receiver() -> P2PReceiver {
    P2PReceiver::new(EconomicNodeRegistry::new(), MessageDeduplicator::new())
}

#[test]
fn test_canonical_signed_strings() {
    let msg = registration("mining_pool", "02abc", "msg-1");
    assert_eq!(
        registration_signing_message(&msg),
        "economic_node_registration:mining_pool:Pool One:02abc:\
         6cf76d1fd8ab4c8e25b56c0b2d65ce3cc2b0ee8c8d5d8b9a6cfd2ff0d3fa44ef:1700000000:msg-1"
            .replace(
                "6cf76d1fd8ab4c8e25b56c0b2d65ce3cc2b0ee8c8d5d8b9a6cfd2ff0d3fa44ef",
                &bllvm_commons::hashing::sha256_hex("{\"node_type\":\"mining_pool\"}")
            )
    );
    let msg = veto(None, "02abc", 42, "veto", "msg-2");
    assert_eq!(veto_signing_message(&msg), "economic_node_veto:42:veto:02abc:1700000000:msg-2");
    let mut negative = veto(Some(1), "k", -7, "support", "m");
    negative.timestamp = -1;
    assert_eq!(veto_signing_message(&negative), "economic_node_veto:-7:support:k:-1:m");
    negative.timestamp = i64::MIN;
    negative.pr_id = i32::MIN;
    assert_eq!(
        veto_signing_message(&negative),
        "economic_node_veto:-2147483648:support:k:-9223372036854775808:m"
    );
    let fork = EconomicNodeForkDecisionMessage {
        node_id: None,
        public_key: "02abc".to_string(),
        chosen_ruleset: "ruleset-v2".to_string(),
        decision_reason: "because".to_string(),
        timestamp: 0,
        signature: "s".to_string(),
        message_id: "msg-3".to_string(),
    };
    assert_eq!(
        fork_decision_signing_message(&fork),
        "economic_node_fork_decision:ruleset-v2:02abc:0:msg-3"
    );
}

#[test]
fn test_registration_message_hash_is_the_digest_of_the_json_text() {
    let msg = registration("mining_pool", "02abc", "msg-1");
    let text = registration_signing_message(&msg);
    let parts: Vec<&str> = text.split(':').collect();
    assert_eq!(parts.len(), 7);
    assert_eq!(parts[4].len(), 64);
    assert_eq!(parts[4], bllvm_commons::hashing::sha256_hex(&msg.qualification_data));
    assert_ne!(parts[4], msg.qualification_data);
}

#[test]
fn test_process_registration() {
    let mut receiver = receiver();
    let response = receiver
        .process_registration(
            registration("mining_pool", "key-1", "m1"),
            Some(pool_proof(500_000_000)),
            true,
            false,
            NOW,
        )
        .unwrap();
    assert_eq!(response.node_id, 1);
    assert_eq!(response.status, "active");
    assert_eq!(response.message, "Registration successful");
    let node = receiver.registry.get_node_by_id(1).unwrap();
    assert_eq!(node.created_by, Some("p2p_registration".to_string()));
    assert_eq!(node.entity_name, "Pool One");
    assert_eq!(node.weight, 5_000_000);

    // The same message again is a duplicate and leaves no trace.
    let again = receiver.process_registration(
        registration("mining_pool", "key-2", "m1"),
        Some(pool_proof(500_000_000)),
        true,
        false,
        NOW + 1,
    );
    assert!(matches!(again, Err(GovernanceError::CryptoError(_))));
    assert_eq!(receiver.registry.nodes.len(), 1);

    // A message whose signature does not verify is refused and not remembered.
    let unsigned = receiver.process_registration(
        registration("mining_pool", "key-2", "m2"),
        Some(pool_proof(500_000_000)),
        false,
        false,
        NOW + 1,
    );
    assert!(matches!(unsigned, Err(GovernanceError::CryptoError(_))));
    assert!(!receiver.dedup.is_duplicate("m2", NOW + 1).unwrap());
    assert_eq!(receiver.registry.nodes.len(), 1);

    // A holder whose challenge signature fails is registered as pending.
    let pending = receiver
        .process_registration(
            registration("major_holder", "key-3", "m3"),
            Some(holder_proof()),
            true,
            false,
            NOW + 2,
        )
        .unwrap();
    assert_eq!(pending.node_id, 2);
    assert_eq!(pending.status, "pending");
    assert_eq!(receiver.registry.get_node_by_id(2).unwrap().status, NodeStatus::Pending);

    // Evidence that cannot be read, and an unknown kind of node: refused, but remembered.
    let unread = receiver.process_registration(registration("mining_pool", "key-4", "m4"), None, true, true, NOW);
    assert!(matches!(unread, Err(GovernanceError::CryptoError(_))));
    assert!(receiver.dedup.is_duplicate("m4", NOW).unwrap());
    let unknown = receiver.process_registration(
        registration("payment_processor", "key-5", "m5"),
        Some(pool_proof(500_000_000)),
        true,
        true,
        NOW,
    );
    assert!(matches!(unknown, Err(GovernanceError::CryptoError(_))));
    // A registered key is refused by the registry.
    let taken = receiver.process_registration(
        registration("mining_pool", "key-1", "m6"),
        Some(pool_proof(500_000_000)),
        true,
        true,
        NOW,
    );
    assert!(matches!(taken, Err(GovernanceError::DatabaseError(_))));
    assert_eq!(receiver.registry.nodes.len(), 2);
}

#[test]
fn test_process_veto() {
    let mut receiver = receiver();
    receiver
        .process_registration(
            registration("mining_pool", "key-1", "m1"),
            Some(pool_proof(500_000_000)),
            true,
            false,
            NOW,
        )
        .unwrap();

    // The node is found by its public key.
    let response = receiver.process_veto(veto(None, "key-1", 9, "veto", "v1"), true, NOW).unwrap();
    assert_eq!(response.pr_id, 9);
    assert_eq!(response.status, "processed");
    let manager = receiver.veto_manager.as_ref().unwrap();
    assert_eq!(manager.signals.len(), 1);
    let signal = manager.signals.get(0);
    assert_eq!(signal.node_id, 1);
    assert_eq!(signal.pr_id, 9);
    assert_eq!(signal.signal_type, SignalType::Veto);
    assert_eq!(signal.signature, "veto-signature");
    assert_eq!(signal.rationale, "");

    // A second signal of the node about the change is refused.
    let second = receiver.process_veto(veto(Some(1), "key-1", 9, "support", "v2"), true, NOW);
    assert!(matches!(second, Err(GovernanceError::DatabaseError(_))));
    // The message itself was handled and is a duplicate from now on.
    assert!(receiver.dedup.is_duplicate("v2", NOW).unwrap());
    let replay = receiver.process_veto(veto(None, "key-1", 10, "veto", "v1"), true, NOW);
    assert!(matches!(replay, Err(GovernanceError::CryptoError(_))));

    let unknown_key = receiver.process_veto(veto(None, "nobody", 9, "veto", "v3"), true, NOW);
    assert!(matches!(unknown_key, Err(GovernanceError::CryptoError(_))));
    let bad_signal = receiver.process_veto(veto(Some(1), "key-1", 11, "maybe", "v4"), true, NOW);
    assert!(matches!(bad_signal, Err(GovernanceError::CryptoError(_))));
    let unsigned = receiver.process_veto(veto(Some(1), "key-1", 12, "veto", "v5"), false, NOW);
    assert!(matches!(unsigned, Err(GovernanceError::CryptoError(_))));
    assert!(!receiver.dedup.is_duplicate("v5", NOW).unwrap());
    assert_eq!(receiver.veto_manager.as_ref().unwrap().signals.len(), 1);

    // A suspended node is not found by its key, but can be named by its number.
    receiver.registry.update_node_status(1, NodeStatus::Suspended).unwrap();
    assert!(receiver.process_veto(veto(None, "key-1", 13, "veto", "v6"), true, NOW).is_err());
    assert!(receiver.process_veto(veto(Some(1), "key-1", 13, "abstain", "v7"), true, NOW).is_ok());
}

#[test]
fn test_process_veto_without_a_manager() {
    let mut receiver = receiver().with_veto_manager(None);
    let response = receiver.process_veto(veto(Some(1), "k", 3, "veto", "v1"), true, NOW).unwrap();
    assert_eq!(response.pr_id, 3);
    assert_eq!(response.status, "received");
    assert!(receiver.dedup.is_duplicate("v1", NOW).unwrap());
    assert!(receiver.veto_manager.is_none());
}

fn status_query(identifier: &str, query_type: &str) -> EconomicNodeStatusMessage {
    EconomicNodeStatusMessage {
        request_id: 77,
        node_identifier: identifier.to_string(),
        query_type: query_type.to_string(),
        status: None,
    }
}

#[test]
fn test_process_status_query() {
    let mut receiver = receiver();
    receiver
        .process_registration(
            registration("mining_pool", "key-1", "m1"),
            Some(pool_proof(500_000_000)),
            true,
            false,
            NOW,
        )
        .unwrap();
    let by_id = receiver.process_status_query(status_query("1", "by_id")).unwrap();
    assert_eq!(by_id.request_id, 77);
    let data = by_id.status.unwrap();
    assert_eq!(data.node_id, 1);
    assert_eq!(data.node_type, "mining_pool");
    assert_eq!(data.entity_name, "Pool One");
    assert_eq!(data.status, "active");
    assert_eq!(data.weight, 5_000_000);
    assert_eq!(data.registered_at, NOW);
    assert_eq!(data.last_verified_at, None);

    let by_key = receiver.process_status_query(status_query("key-1", "by_public_key")).unwrap();
    assert_eq!(by_key.status.unwrap().node_id, 1);

    // A node that is not there is answered with nothing, not with an error.
    assert!(receiver.process_status_query(status_query("2", "by_id")).unwrap().status.is_none());
    assert!(receiver.process_status_query(status_query("-1", "by_id")).unwrap().status.is_none());
    assert!(receiver
        .process_status_query(status_query("nobody", "by_public_key"))
        .unwrap()
        .status
        .is_none());
    assert!(matches!(
        receiver.process_status_query(status_query("one", "by_id")),
        Err(GovernanceError::CryptoError(_))
    ));
    assert!(matches!(
        receiver.process_status_query(status_query("99999999999", "by_id")),
        Err(GovernanceError::CryptoError(_))
    ));
    assert!(matches!(
        receiver.process_status_query(status_query("1", "by_name")),
        Err(GovernanceError::CryptoError(_))
    ));
}

#[test]
fn test_process_fork_decision() {
    let mut receiver = receiver();
    let message = |id: &str| EconomicNodeForkDecisionMessage {
        node_id: Some(1),
        public_key: "k".to_string(),
        chosen_ruleset: "v2".to_string(),
        decision_reason: "r".to_string(),
        timestamp: NOW,
        signature: "s".to_string(),
        message_id: id.to_string(),
    };
    let response = receiver.process_fork_decision(message("f1"), true, NOW).unwrap();
    assert_eq!(response.ruleset, "v2");
    assert_eq!(response.status, "received");
    assert!(receiver.process_fork_decision(message("f1"), true, NOW + 1).is_err());
    assert!(receiver.process_fork_decision(message("f2"), false, NOW + 1).is_err());
    assert!(receiver.process_fork_decision(message("f2"), true, NOW + 1).is_ok());
    // After the time to live the number of a message can come again.
    assert!(receiver.process_fork_decision(message("f1"), true, NOW + DAY).is_ok());
}
