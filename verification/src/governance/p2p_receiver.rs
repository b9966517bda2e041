//! The intake of governance messages that economic nodes send over the
//! network.
//!
//! Every message is signed over a text that is built from its fields in a
//! fixed way. A message that was handled before, and a message whose
//! signature does not verify, is refused and leaves no trace. Any other
//! message is remembered as handled and then passed on.

use vstd::prelude::*;
use vstd::string::*;
use crate::economic_nodes::registry::{key_at, registration_outcome, EconomicNodeRegistry};
use crate::economic_nodes::types::{
    EconomicNode, NodeStatus, NodeType, QualificationProof, SignalType, VetoSignal,
};
use crate::economic_nodes::veto::{collected, VetoManager};
use crate::error::{crypto_error, crypto_error_about, GovernanceError};
use crate::governance::message_dedup::MessageDeduplicator;
use crate::hashing::{sha256_hex, sha256_hex_of};
use crate::text::{decimal_int, i64_to_text, parse_i32, parsed_i32, str_equal};

verus! {

/// A request to register an economic node.
#[derive(Debug)]
pub struct EconomicNodeRegistrationMessage {
    pub node_type: String,
    pub entity_name: String,
    pub public_key: String,
    /// The evidence, as the JSON text that was signed.
    pub qualification_data: String,
    pub timestamp: i64,
    pub signature: String,
    pub message_id: String,
}

/// A signal of a node about a pending change.
#[derive(Debug)]
pub struct EconomicNodeVetoMessage {
    pub node_id: Option<i32>,
    pub public_key: String,
    pub pr_id: i32,
    pub signal_type: String,
    pub timestamp: i64,
    pub signature: String,
    pub message_id: String,
}

/// What is known of a node.
#[derive(Debug)]
pub struct NodeStatusData {
    pub node_id: i32,
    pub node_type: String,
    pub entity_name: String,
    pub status: String,
    /// The weight of the node, in hundred-millionths.
    pub weight: u64,
    pub registered_at: i64,
    pub last_verified_at: Option<i64>,
}

/// A question about a node.
#[derive(Debug)]
pub struct EconomicNodeStatusMessage {
    pub request_id: u64,
    pub node_identifier: String,
    pub query_type: String,
    pub status: Option<NodeStatusData>,
}

/// The choice of a node between rule sets.
#[derive(Debug)]
pub struct EconomicNodeForkDecisionMessage {
    pub node_id: Option<i32>,
    pub public_key: String,
    pub chosen_ruleset: String,
    pub decision_reason: String,
    pub timestamp: i64,
    pub signature: String,
    pub message_id: String,
}

/// The answer to a registration.
#[derive(Debug)]
pub struct RegistrationResponse {
    pub node_id: i32,
    pub status: String,
    pub message: String,
}

/// The answer to a signal.
#[derive(Debug)]
pub struct VetoResponse {
    pub pr_id: i32,
    pub status: String,
    pub message: String,
}

/// The answer to a question about a node.
#[derive(Debug)]
pub struct StatusResponse {
    pub request_id: u64,
    pub status: Option<NodeStatusData>,
}

/// The answer to a choice between rule sets.
#[derive(Debug)]
pub struct ForkDecisionResponse {
    pub ruleset: String,
    pub status: String,
    pub message: String,
}

/// The text that the sender of a registration signs.
pub open spec fn registration_text(msg: EconomicNodeRegistrationMessage) -> Seq<char> {
    "economic_node_registration:"@ + msg.node_type@ + ":"@ + msg.entity_name@ + ":"@
        + msg.public_key@ + ":"@ + sha256_hex_of(msg.qualification_data@) + ":"@ + decimal_int(
        msg.timestamp as int,
    ) + ":"@ + msg.message_id@
}

/// The text that the sender of a signal signs.
pub open spec fn veto_text(msg: EconomicNodeVetoMessage) -> Seq<char> {
    "economic_node_veto:"@ + decimal_int(msg.pr_id as int) + ":"@ + msg.signal_type@ + ":"@
        + msg.public_key@ + ":"@ + decimal_int(msg.timestamp as int) + ":"@ + msg.message_id@
}

/// The text that the sender of a choice between rule sets signs.
pub open spec fn fork_decision_text(msg: EconomicNodeForkDecisionMessage) -> Seq<char> {
    "economic_node_fork_decision:"@ + msg.chosen_ruleset@ + ":"@ + msg.public_key@ + ":"@
        + decimal_int(msg.timestamp as int) + ":"@ + msg.message_id@
}

/// The text that the sender of a registration signs.
pub fn registration_signing_message(msg: &EconomicNodeRegistrationMessage) -> (text: String)
    ensures
        text@ == registration_text(*msg),
{
    let hash = sha256_hex(msg.qualification_data.as_str());
    let timestamp = i64_to_text(msg.timestamp);
    let mut text = "economic_node_registration:".to_owned();
    text.append(msg.node_type.as_str());
    text.append(":");
    text.append(msg.entity_name.as_str());
    text.append(":");
    text.append(msg.public_key.as_str());
    text.append(":");
    text.append(hash.as_str());
    text.append(":");
    text.append(timestamp.as_str());
    text.append(":");
    text.append(msg.message_id.as_str());
    text
}

/// The text that the sender of a signal signs.
pub fn veto_signing_message(msg: &EconomicNodeVetoMessage) -> (text: String)
    ensures
        text@ == veto_text(*msg),
{
    let pr_id = i64_to_text(msg.pr_id as i64);
    let timestamp = i64_to_text(msg.timestamp);
    let mut text = "economic_node_veto:".to_owned();
    text.append(pr_id.as_str());
    text.append(":");
    text.append(msg.signal_type.as_str());
    text.append(":");
    text.append(msg.public_key.as_str());
    text.append(":");
    text.append(timestamp.as_str());
    text.append(":");
    text.append(msg.message_id.as_str());
    text
}

/// The text that the sender of a choice between rule sets signs.
pub fn fork_decision_signing_message(msg: &EconomicNodeForkDecisionMessage) -> (text: String)
    ensures
        text@ == fork_decision_text(*msg),
{
    let timestamp = i64_to_text(msg.timestamp);
    let mut text = "economic_node_fork_decision:".to_owned();
    text.append(msg.chosen_ruleset.as_str());
    text.append(":");
    text.append(msg.public_key.as_str());
    text.append(":");
    text.append(timestamp.as_str());
    text.append(":");
    text.append(msg.message_id.as_str());
    text
}

/// The answer to a registration as the outcome of the registration.
pub open spec fn registration_result(result: Result<RegistrationResponse, GovernanceError>)
    -> Result<i32, GovernanceError> {
    match result {
        Ok(response) => Ok(response.node_id),
        Err(e) => Err(e),
    }
}

/// The answer to a signal as the outcome of taking the signal: the number
/// that the signal got.
pub open spec fn taken_as(result: Result<VetoResponse, GovernanceError>, id: int) -> Result<
    i32,
    GovernanceError,
> {
    match result {
        Ok(_) => Ok(id as i32),
        Err(e) => Err(e),
    }
}

/// The node that a signal comes from is `node_id`: the one that the
/// message names, and where it names none the active node with the
/// public key of the message.
pub open spec fn sender_is(
    nodes: Seq<EconomicNode>,
    named: Option<i32>,
    public_key: Seq<char>,
    node_id: i32,
) -> bool {
    match named {
        Some(id) => node_id == id,
        None => exists|i: int|
            key_at(nodes, public_key, i) && nodes[i].status == NodeStatus::Active && nodes[i].id
                == node_id,
    }
}

/// No node can be found for a signal: the message names none, and no
/// active node has the public key of the message.
pub open spec fn sender_unknown(nodes: Seq<EconomicNode>, named: Option<i32>, public_key: Seq<char>)
    -> bool {
    named is None && forall|i: int|
        0 <= i < nodes.len() ==> !((#[trigger] nodes[i]).public_key@ == public_key
            && nodes[i].status == NodeStatus::Active)
}

/// What is known of a node, as it is answered.
pub open spec fn describes(data: NodeStatusData, node: EconomicNode) -> bool {
    &&& data.node_id == node.id
    &&& data.node_type@ == node.node_type.name()
    &&& data.entity_name@ == node.entity_name@
    &&& data.status@ == node.status.name()
    &&& data.weight == node.weight
    &&& data.registered_at == node.registered_at
    &&& data.last_verified_at == node.last_verified_at
}

/// Receives governance messages.
pub struct P2PReceiver {
    /// The registry that registrations go to.
    pub registry: EconomicNodeRegistry,
    /// The memory of handled messages.
    pub dedup: MessageDeduplicator,
    /// The manager that signals go to, where there is one.
    pub veto_manager: Option<VetoManager>,
}

impl P2PReceiver {
    /// The signals of the manager, where there is one.
    pub open spec fn signals(self) -> Option<Seq<VetoSignal>> {
        match self.veto_manager {
            Some(manager) => Some(manager.signals@),
            None => None,
        }
    }

    /// A message is turned away at the door: it was handled before, or
    /// its signature does not verify.
    pub open spec fn turned_away(self, message_id: Seq<char>, signature_valid: bool, now: i64)
        -> bool {
        self.dedup@.is_duplicate(message_id, now) || !signature_valid
    }

    /// A receiver over a registry, with a manager for signals.
    pub fn new(registry: EconomicNodeRegistry, dedup: MessageDeduplicator) -> (receiver: P2PReceiver)
        ensures
            receiver.registry == registry,
            receiver.dedup == dedup,
            receiver.signals() == Some(Seq::<VetoSignal>::empty()),
    {
        let receiver = P2PReceiver { registry, dedup, veto_manager: Some(VetoManager::new()) };
        receiver
    }

    /// The receiver with another manager for signals, or with none.
    pub fn with_veto_manager(self, veto_manager: Option<VetoManager>) -> (receiver: P2PReceiver)
        ensures
            receiver.registry == self.registry,
            receiver.dedup == self.dedup,
            receiver.veto_manager == veto_manager,
    {
        P2PReceiver { registry: self.registry, dedup: self.dedup, veto_manager }
    }

    fn let_in(&mut self, message_id: &str, signature_valid: bool, now: i64) -> (result: Result<
        (),
        GovernanceError,
    >)
        ensures
            final(self).registry == old(self).registry,
            final(self).veto_manager == old(self).veto_manager,
            match result {
                Ok(_) => !old(self).turned_away(message_id@, signature_valid, now) && final(self).dedup@ == old(self).dedup@.marked(message_id@, now),
                Err(e) => e is CryptoError && old(self).turned_away(
                    message_id@,
                    signature_valid,
                    now,
                ) && final(self).dedup@ == old(self).dedup@,
            },
    {
        match self.dedup.is_duplicate(message_id, now) {
            Ok(false) => {},
            _ => {
                return Err(crypto_error("Duplicate message"));
            },
        }
        if !signature_valid {
            return Err(crypto_error("Invalid signature"));
        }
        let _ = self.dedup.mark_processed(message_id, now);
        Ok(())
    }

    /// Handles a registration. `qualification_proof` is the evidence as
    /// it was read from the message, nothing where it could not be read;
    /// `message_signature_valid` says whether the signature over the text
    /// of the message verifies, `holdings_signature_valid` whether the one
    /// over the challenge of the holdings does.
    pub fn process_registration(
        &mut self,
        msg: EconomicNodeRegistrationMessage,
        qualification_proof: Option<QualificationProof>,
        message_signature_valid: bool,
        holdings_signature_valid: bool,
        now: i64,
    ) -> (result: Result<RegistrationResponse, GovernanceError>)
        ensures
            final(self).veto_manager == old(self).veto_manager,
            if old(self).turned_away(msg.message_id@, message_signature_valid, now) {
                &&& result matches Err(e) && e is CryptoError
                &&& final(self).dedup@ == old(self).dedup@
                &&& final(self).registry == old(self).registry
            } else {
                &&& final(self).dedup@ == old(self).dedup@.marked(msg.message_id@, now)
                &&& match (qualification_proof, NodeType::from_name(msg.node_type@)) {
                    (Some(evidence), Some(node_type)) => {
                        &&& registration_outcome(
                            old(self).registry,
                            final(self).registry,
                            registration_result(result),
                            node_type,
                            msg.entity_name@,
                            msg.public_key@,
                            evidence,
                            Some("p2p_registration"@),
                            holdings_signature_valid,
                            now,
                        )
                        &&& result matches Ok(response) ==> response.status@ == final(self).registry.nodes@.last().status.name() && response.message@
                            == "Registration successful"@
                    },
                    _ => (result matches Err(e) && e is CryptoError) && final(self).registry
                        == old(self).registry,
                }
            },
    {
        match self.let_in(msg.message_id.as_str(), message_signature_valid, now) {
            Ok(_) => {},
            Err(e) => {
                return Err(e);
            },
        }
        let evidence = match qualification_proof {
            Some(evidence) => evidence,
            None => {
                return Err(crypto_error("Invalid qualification data"));
            },
        };
        let node_type = match NodeType::from_str(msg.node_type.as_str()) {
            Some(t) => t,
            None => {
                return Err(crypto_error_about("Invalid node type: ", msg.node_type.as_str()));
            },
        };
        let node_id = match self.registry.register_economic_node(
            node_type,
            msg.entity_name.as_str(),
            msg.public_key.as_str(),
            evidence,
            Some("p2p_registration"),
            holdings_signature_valid,
            now,
        ) {
            Ok(id) => id,
            Err(e) => {
                return Err(e);
            },
        };
        let status = match self.registry.get_node_by_id(node_id) {
            Ok(node) => node.status.as_str().to_owned(),
            Err(_) => String::new(),
        };
        Ok(RegistrationResponse { node_id, status, message: "Registration successful".to_owned() })
    }

    /// Handles a signal. Without a manager the signal is remembered as
    /// handled and answered as received. With a manager the signal goes
    /// to it under the number of the sending node: the one that the
    /// message names, and where it names none the active node with the
    /// public key of the message.
    pub fn process_veto(&mut self, msg: EconomicNodeVetoMessage, signature_valid: bool, now: i64) -> (result:
        Result<VetoResponse, GovernanceError>)
        ensures
            final(self).registry == old(self).registry,
            final(self).veto_manager is Some == old(self).veto_manager is Some,
            result matches Ok(response) ==> response.pr_id == msg.pr_id,
            if old(self).turned_away(msg.message_id@, signature_valid, now) {
                &&& result matches Err(e) && e is CryptoError
                &&& final(self).dedup@ == old(self).dedup@
                &&& final(self).signals() == old(self).signals()
            } else {
                &&& final(self).dedup@ == old(self).dedup@.marked(msg.message_id@, now)
                &&& match old(self).signals() {
                    None => result matches Ok(response) && response.status@ == "received"@,
                    Some(before) => {
                        if sender_unknown(old(self).registry.nodes@, msg.node_id, msg.public_key@) {
                            (result matches Err(e) && e is CryptoError) && final(self).signals()
                                == Some(before)
                        } else {
                            match SignalType::from_name(msg.signal_type@) {
                                None => (result matches Err(e) && e is CryptoError) && final(self).signals() == Some(before),
                                Some(signal_type) => exists|node_id: i32| #[trigger]
                                    sender_is(
                                        old(self).registry.nodes@,
                                        msg.node_id,
                                        msg.public_key@,
                                        node_id,
                                    ) && collected(
                                        before,
                                        final(self).signals()->0,
                                        taken_as(result, before.len() as int + 1),
                                        msg.pr_id,
                                        node_id,
                                        signal_type,
                                        msg.signature@,
                                        Seq::empty(),
                                        None,
                                        now,
                                    ) && (result matches Ok(response) ==> response.status@
                                        == "processed"@),
                            }
                        }
                    },
                }
            },
    {
        match self.let_in(msg.message_id.as_str(), signature_valid, now) {
            Ok(_) => {},
            Err(e) => {
                return Err(e);
            },
        }
        let mut taken: Option<VetoManager> = None;
        core::mem::swap(&mut taken, &mut self.veto_manager);
        let mut manager = match taken {
            Some(manager) => manager,
            None => {
                return Ok(
                    VetoResponse {
                        pr_id: msg.pr_id,
                        status: "received".to_owned(),
                        message: "Veto signal received but not processed (VetoManager unavailable)".to_owned(),
                    },
                );
            },
        };
        let found: Option<i32> = match msg.node_id {
            Some(id) => Some(id),
            None => match self.registry.find_active_node(msg.public_key.as_str()) {
                Some(node) => {
                    proof {
                        assert(key_at(self.registry.nodes@, msg.public_key@, node.id - 1));
                    }
                    Some(node.id)
                },
                None => None,
            },
        };
        let node_id = match found {
            Some(id) => id,
            None => {
                self.veto_manager = Some(manager);
                return Err(
                    crypto_error_about("Node not found for public key: ", msg.public_key.as_str()),
                );
            },
        };
        proof {
            assert(sender_is(self.registry.nodes@, msg.node_id, msg.public_key@, node_id));
        }
        let signal_type = match SignalType::from_str(msg.signal_type.as_str()) {
            Some(t) => t,
            None => {
                self.veto_manager = Some(manager);
                return Err(crypto_error_about("Invalid signal type: ", msg.signal_type.as_str()));
            },
        };
        proof {
            reveal_strlit("");
            assert(""@ =~= Seq::<char>::empty());
        }
        let outcome = manager.collect_veto_signal(
            msg.pr_id,
            node_id,
            signal_type,
            msg.signature.as_str(),
            "",
            now,
        );
        self.veto_manager = Some(manager);
        match outcome {
            Ok(_) => Ok(
                VetoResponse {
                    pr_id: msg.pr_id,
                    status: "processed".to_owned(),
                    message: "Veto signal processed and recorded".to_owned(),
                },
            ),
            Err(e) => Err(e),
        }
    }

    /// Answers a question about a node: by its number or by its public
    /// key. A node that is not there is answered with nothing, not with
    /// an error; a number that is no number and an unknown kind of
    /// question are errors.
    pub fn process_status_query(&self, msg: EconomicNodeStatusMessage) -> (result: Result<
        StatusResponse,
        GovernanceError,
    >)
        ensures
            result matches Ok(response) ==> response.request_id == msg.request_id,
            if msg.query_type@ == "by_id"@ {
                match parsed_i32(msg.node_identifier@) {
                    Some(node_id) => result matches Ok(response) && (if 1 <= node_id
                        <= self.registry.nodes@.len() {
                        response.status matches Some(data) && describes(
                            data,
                            self.registry.nodes@[node_id - 1],
                        )
                    } else {
                        response.status is None
                    }),
                    None => result matches Err(e) && e is CryptoError,
                }
            } else if msg.query_type@ == "by_public_key"@ {
                result matches Ok(response) && match response.status {
                    Some(data) => exists|i: int|
                        key_at(self.registry.nodes@, msg.node_identifier@, i)
                            && self.registry.nodes@[i].status == NodeStatus::Active && describes(
                            data,
                            #[trigger] self.registry.nodes@[i],
                        ),
                    None => sender_unknown(self.registry.nodes@, None, msg.node_identifier@),
                }
            } else {
                result matches Err(e) && e is CryptoError
            },
    {
        let node: Option<&EconomicNode> = if str_equal(msg.query_type.as_str(), "by_id") {
            let node_id = match parse_i32(msg.node_identifier.as_str()) {
                Some(id) => id,
                None => {
                    return Err(crypto_error("Invalid node ID"));
                },
            };
            match self.registry.get_node_by_id(node_id) {
                Ok(node) => Some(node),
                Err(_) => None,
            }
        } else if str_equal(msg.query_type.as_str(), "by_public_key") {
            let found = self.registry.find_active_node(msg.node_identifier.as_str());
            found
        } else {
            return Err(crypto_error("Invalid query type"));
        };
        let status = match node {
            Some(node) => Some(
                NodeStatusData {
                    node_id: node.id,
                    node_type: node.node_type.as_str().to_owned(),
                    entity_name: node.entity_name.clone(),
                    status: node.status.as_str().to_owned(),
                    weight: node.weight,
                    registered_at: node.registered_at,
                    last_verified_at: node.last_verified_at,
                },
            ),
            None => None,
        };
        Ok(StatusResponse { request_id: msg.request_id, status })
    }

    /// Handles a choice between rule sets: the choice is remembered as
    /// handled and answered as received.
    pub fn process_fork_decision(
        &mut self,
        msg: EconomicNodeForkDecisionMessage,
        signature_valid: bool,
        now: i64,
    ) -> (result: Result<ForkDecisionResponse, GovernanceError>)
        ensures
            final(self).registry == old(self).registry,
            final(self).veto_manager == old(self).veto_manager,
            if old(self).turned_away(msg.message_id@, signature_valid, now) {
                (result matches Err(e) && e is CryptoError) && final(self).dedup@ == old(self).dedup@
            } else {
                &&& final(self).dedup@ == old(self).dedup@.marked(msg.message_id@, now)
                &&& result matches Ok(response) && response.ruleset@ == msg.chosen_ruleset@
                    && response.status@ == "received"@
            },
    {
        match self.let_in(msg.message_id.as_str(), signature_valid, now) {
            Ok(_) => {},
            Err(e) => {
                return Err(e);
            },
        }
        Ok(
            ForkDecisionResponse {
                ruleset: msg.chosen_ruleset.clone(),
                status: "received".to_owned(),
                message: "Fork decision received".to_owned(),
            },
        )
    }
}

} // verus!
