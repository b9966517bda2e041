//! The signals of economic nodes about pending changes, and whether the
//! objections are heavy enough to block a change.
//!
//! A node speaks once about a change: a second signal of the same node
//! about the same change is refused, whatever it says. Only active nodes
//! are counted. The weight of the objecting mining pools is held against
//! the weight of all mining pools, the weight of the other objecting
//! nodes against the weight of all other nodes, and the change is blocked
//! where either share reaches its threshold.

use vstd::prelude::*;
use vstd::string::*;
use vstd::arithmetic::div_mod::{
    lemma_fundamental_div_mod, lemma_hoist_over_denominator, lemma_mod_pos_bound,
};
use crate::economic_nodes::registry::NodeList;
use crate::economic_nodes::types::{
    EconomicNode, NodeStatus, NodeType, SignalType, VetoSignal, VetoThreshold,
};
use crate::error::{database_error, GovernanceError};
use crate::governance::config_reader::{veto_settings, ConfigReader, PERCENT};
use crate::governance::config_value::{opt_str, opt_text, own_opt_str};
use crate::governance::merkle_veto::{
    hashes, law_path_leads_to_root, climb, merkle_path, merkle_root, path_of, root_of, steps,
    MerkleProof,
};
use crate::hashing::{sha256_hex, sha256_hex_of};
use crate::text::{decimal_int, i64_to_text, str_equal};

verus! {

/// One hundred percent as a fixed-point number of percent.
pub const HUNDRED_PERCENT: u64 = 10_000_000_000;

/// The tier in which a change needs support, not only the want of
/// objections.
pub const SIGNALING_TIER: u32 = 5;

/// The signal at position `i` is the one of this node about this change.
pub open spec fn signal_at(signals: Seq<VetoSignal>, pr_id: i32, node_id: i32, i: int) -> bool {
    0 <= i < signals.len() && signals[i].pr_id == pr_id && signals[i].node_id == node_id
}

/// The node has spoken about the change.
pub open spec fn has_signal(signals: Seq<VetoSignal>, pr_id: i32, node_id: i32) -> bool {
    exists|i: int| signal_at(signals, pr_id, node_id, i)
}

/// The node has given this signal about the change.
pub open spec fn gave_signal(
    signals: Seq<VetoSignal>,
    pr_id: i32,
    node_id: i32,
    signal_type: SignalType,
) -> bool {
    exists|i: int| signal_at(signals, pr_id, node_id, i) && signals[i].signal_type == signal_type
}

/// What holds of the signals of every manager: they are numbered from one
/// in the order of their coming, and no node has spoken twice about one
/// change.
pub open spec fn signals_wf(signals: Seq<VetoSignal>) -> bool {
    &&& signals.len() <= i32::MAX
    &&& forall|i: int| 0 <= i < signals.len() ==> (#[trigger] signals[i]).id == i + 1
    &&& forall|i: int, j: int|
        0 <= i < j < signals.len() ==> !((#[trigger] signals[i]).pr_id == (
        #[trigger] signals[j]).pr_id && signals[i].node_id == signals[j].node_id)
}

/// The node counts on one side: it is active, and it is a mining pool on
/// the mining side and anything else on the economic side.
pub open spec fn counts(node: EconomicNode, mining: bool) -> bool {
    node.status == NodeStatus::Active && (node.node_type == NodeType::MiningPool) == mining
}

/// The weight of the first `n` nodes that count on one side.
pub open spec fn side_weight(nodes: Seq<EconomicNode>, mining: bool, n: int) -> int
    decreases n,
{
    if n <= 0 {
        0
    } else {
        side_weight(nodes, mining, n - 1) + if counts(nodes[n - 1], mining) {
            nodes[n - 1].weight as int
        } else {
            0
        }
    }
}

/// The weight of those among the first `n` nodes that count on one side
/// and have given this signal about the change.
pub open spec fn signal_weight(
    nodes: Seq<EconomicNode>,
    signals: Seq<VetoSignal>,
    pr_id: i32,
    signal_type: SignalType,
    mining: bool,
    n: int,
) -> int
    decreases n,
{
    if n <= 0 {
        0
    } else {
        signal_weight(nodes, signals, pr_id, signal_type, mining, n - 1) + if counts(
            nodes[n - 1],
            mining,
        ) && gave_signal(signals, pr_id, nodes[n - 1].id, signal_type) {
            nodes[n - 1].weight as int
        } else {
            0
        }
    }
}

/// The share that a part is of a whole, in fixed-point percent; nothing
/// of nothing is zero.
pub open spec fn percent_of(part: int, whole: int) -> int {
    if whole <= 0 {
        0
    } else {
        part * HUNDRED_PERCENT as int / whole
    }
}

/// The share of one side's weight that has given this signal about the
/// change, in fixed-point percent.
pub open spec fn signal_percent(
    nodes: Seq<EconomicNode>,
    signals: Seq<VetoSignal>,
    pr_id: i32,
    signal_type: SignalType,
    mining: bool,
) -> int {
    percent_of(
        signal_weight(nodes, signals, pr_id, signal_type, mining, nodes.len() as int),
        side_weight(nodes, mining, nodes.len() as int),
    )
}

/// Whether the objections block: either share reaches its threshold.
pub open spec fn blocks(
    mining_percent: int,
    economic_percent: int,
    mining_threshold: i64,
    economic_threshold: i64,
) -> bool {
    mining_percent >= mining_threshold || economic_percent >= economic_threshold
}

/// How many of the first `n` signals are about the change and of this
/// kind; of any kind where none is named.
pub open spec fn signal_count(
    signals: Seq<VetoSignal>,
    pr_id: i32,
    signal_type: Option<SignalType>,
    n: int,
) -> int
    decreases n,
{
    if n <= 0 {
        0
    } else {
        signal_count(signals, pr_id, signal_type, n - 1) + if signals[n - 1].pr_id == pr_id && (
        signal_type is None || signal_type == Some(signals[n - 1].signal_type)) {
            1int
        } else {
            0int
        }
    }
}

/// What the taking of a signal does: a node that has spoken about the
/// change is refused with an error of the store and nothing changes; any
/// other signal is put at the end of the list, unless the list is full.
pub open spec fn collected(
    before: Seq<VetoSignal>,
    after: Seq<VetoSignal>,
    result: Result<i32, GovernanceError>,
    pr_id: i32,
    node_id: i32,
    signal_type: SignalType,
    signature: Seq<char>,
    rationale: Seq<char>,
    voting_key: Option<Seq<char>>,
    now: i64,
) -> bool {
    match result {
        Ok(id) => {
            &&& !has_signal(before, pr_id, node_id)
            &&& id == before.len() + 1
            &&& after.len() == before.len() + 1
            &&& after.subrange(0, before.len() as int) == before
            &&& after.last().id == id
            &&& after.last().pr_id == pr_id
            &&& after.last().node_id == node_id
            &&& after.last().signal_type == signal_type
            &&& after.last().signature@ == signature
            &&& after.last().rationale@ == rationale
            &&& after.last().timestamp == now
            &&& opt_text(after.last().voting_key) == voting_key
            &&& has_signal(after, pr_id, node_id)
        },
        Err(e) => {
            &&& after == before
            &&& e is DatabaseError
            &&& has_signal(before, pr_id, node_id) || before.len() == i32::MAX
        },
    }
}

/// The name under which a signal is published: its voting key, and for a
/// signal without one the number of its node behind `node:`.
pub open spec fn published_as(signal: VetoSignal) -> Seq<char> {
    match signal.voting_key {
        Some(key) => key@,
        None => "node:"@ + decimal_int(signal.node_id as int),
    }
}

/// The leaf that stands for a signal in the tree of its change: the hash
/// of the name under which it is published, a colon, and what it says.
pub open spec fn leaf_of(signal: VetoSignal) -> Seq<char> {
    sha256_hex_of(published_as(signal) + ":"@ + signal.signal_type.name())
}

/// The leaves of the tree of a change: those of the first `n` signals
/// that are about the change, in the order of their coming.
pub open spec fn leaves_of(signals: Seq<VetoSignal>, pr_id: i32, n: int) -> Seq<Seq<char>>
    decreases n,
{
    if n <= 0 {
        Seq::empty()
    } else if signals[n - 1].pr_id == pr_id {
        leaves_of(signals, pr_id, n - 1).push(leaf_of(signals[n - 1]))
    } else {
        leaves_of(signals, pr_id, n - 1)
    }
}

/// The signal at position `i` is the first one about the change that is
/// published under this name.
pub open spec fn first_published(signals: Seq<VetoSignal>, pr_id: i32, name: Seq<char>, i: int)
    -> bool {
    &&& 0 <= i < signals.len()
    &&& signals[i].pr_id == pr_id
    &&& published_as(signals[i]) == name
    &&& forall|j: int|
        0 <= j < i ==> !((#[trigger] signals[j]).pr_id == pr_id && published_as(signals[j])
            == name)
}

/// How the support for a change adds up.
#[derive(Debug, Clone, Copy)]
pub struct SupportThreshold {
    /// The supporting share of the mining weight, in fixed-point percent.
    pub mining_support_percent: u64,
    /// The supporting share of the economic weight, in fixed-point
    /// percent.
    pub economic_support_percent: u64,
    /// The share of the mining weight that is needed.
    pub mining_threshold_percent: i64,
    /// The share of the economic weight that is needed.
    pub economic_threshold_percent: i64,
    /// Whether the support reaches both thresholds.
    pub support_reached: bool,
}

/// Whether a verdict on the support for a change is the one that these
/// nodes and signals give under these thresholds: the supporting shares
/// of both sides, and support reached where both reach their threshold.
pub open spec fn weighs_support(
    outcome: SupportThreshold,
    nodes: Seq<EconomicNode>,
    signals: Seq<VetoSignal>,
    pr_id: i32,
    mining_threshold: i64,
    economic_threshold: i64,
) -> bool {
    &&& outcome.mining_support_percent == signal_percent(
        nodes,
        signals,
        pr_id,
        SignalType::Support,
        true,
    )
    &&& outcome.economic_support_percent == signal_percent(
        nodes,
        signals,
        pr_id,
        SignalType::Support,
        false,
    )
    &&& outcome.mining_threshold_percent == mining_threshold
    &&& outcome.economic_threshold_percent == economic_threshold
    &&& outcome.support_reached == (outcome.mining_support_percent >= mining_threshold
        && outcome.economic_support_percent >= economic_threshold)
}

/// How many signals there are about a change.
#[derive(Debug, Clone, Copy)]
pub struct VetoStatistics {
    pub total_signals: usize,
    pub veto_count: usize,
    pub support_count: usize,
    pub abstain_count: usize,
}

/// The signals in the order of their coming.
pub struct SignalList {
    signals: Vec<VetoSignal>,
}

impl View for SignalList {
    type V = Seq<VetoSignal>;

    closed spec fn view(&self) -> Seq<VetoSignal> {
        self.signals@
    }
}

impl SignalList {
    #[verifier::type_invariant]
    pub closed spec fn inv(&self) -> bool {
        signals_wf(self.signals@)
    }

    /// An empty list.
    pub fn new() -> (list: SignalList)
        ensures
            list@.len() == 0,
    {
        SignalList { signals: Vec::new() }
    }

    /// A list made of what was read back from the store. What was read
    /// must be what a list can hold: signals numbered from one in their
    /// order, and no node twice about one change. Anything else is an
    /// error of the store.
    pub fn restore(signals: Vec<VetoSignal>) -> (result: Result<SignalList, GovernanceError>)
        ensures
            match result {
                Ok(list) => list@ == signals@ && signals_wf(signals@),
                Err(e) => e is DatabaseError && !signals_wf(signals@),
            },
    {
        let n = signals.len();
        if n > 0x7fff_ffff {
            return Err(database_error("Stored signals are inconsistent"));
        }
        let mut i: usize = 0;
        while i < n
            invariant
                i <= n,
                n == signals@.len(),
                n <= i32::MAX,
                forall|k: int| 0 <= k < i ==> (#[trigger] signals@[k]).id == k + 1,
                forall|a: int, b: int|
                    0 <= a < b < i ==> !((#[trigger] signals@[a]).pr_id == (
                    #[trigger] signals@[b]).pr_id && signals@[a].node_id == signals@[b].node_id),
            decreases n - i,
        {
            if signals[i].id != (i + 1) as i32 {
                return Err(database_error("Stored signals are inconsistent"));
            }
            let mut j: usize = 0;
            while j < i
                invariant
                    j <= i,
                    i < n,
                    n == signals@.len(),
                    forall|a: int|
                        0 <= a < j ==> !((#[trigger] signals@[a]).pr_id == signals@[i as int].pr_id
                            && signals@[a].node_id == signals@[i as int].node_id),
                decreases i - j,
            {
                if signals[j].pr_id == signals[i].pr_id && signals[j].node_id
                    == signals[i].node_id {
                    return Err(database_error("Stored signals are inconsistent"));
                }
                j = j + 1;
            }
            i = i + 1;
        }
        Ok(SignalList { signals })
    }

    /// Number of signals.
    pub fn len(&self) -> (n: usize)
        ensures
            n == self@.len(),
            signals_wf(self@),
    {
        proof {
            use_type_invariant(self);
        }
        self.signals.len()
    }

    /// The signal at a position.
    pub fn get(&self, i: usize) -> (signal: &VetoSignal)
        requires
            i < self@.len(),
        ensures
            *signal == self@[i as int],
    {
        &self.signals[i]
    }

    /// The position of the signal of a node about a change.
    pub fn find(&self, pr_id: i32, node_id: i32) -> (at: Option<usize>)
        ensures
            signals_wf(self@),
            match at {
                Some(i) => signal_at(self@, pr_id, node_id, i as int),
                None => !has_signal(self@, pr_id, node_id),
            },
    {
        proof {
            use_type_invariant(self);
        }
        let mut i: usize = 0;
        while i < self.signals.len()
            invariant
                i <= self.signals@.len(),
                signals_wf(self@),
                forall|k: int| 0 <= k < i ==> !signal_at(self@, pr_id, node_id, k),
            decreases self.signals@.len() - i,
        {
            if self.signals[i].pr_id == pr_id && self.signals[i].node_id == node_id {
                return Some(i);
            }
            i = i + 1;
        }
        None
    }

    fn push(&mut self, signal: VetoSignal)
        requires
            old(self)@.len() < i32::MAX,
            signal.id == old(self)@.len() + 1,
            !has_signal(old(self)@, signal.pr_id, signal.node_id),
        ensures
            final(self)@ == old(self)@.push(signal),
            signals_wf(final(self)@),
    {
        proof {
            use_type_invariant(&*self);
        }
        let ghost before = self.signals@;
        let mut signals: Vec<VetoSignal> = Vec::new();
        core::mem::swap(&mut signals, &mut self.signals);
        signals.push(signal);
        proof {
            assert forall|i: int, j: int| 0 <= i < j < signals@.len() implies !((
            #[trigger] signals@[i]).pr_id == (#[trigger] signals@[j]).pr_id && signals@[i].node_id
                == signals@[j].node_id) by {
                if j == before.len() {
                    assert(!signal_at(before, signal.pr_id, signal.node_id, i));
                }
            }
        }
        self.signals = signals;
    }
}

/// Collects the signals and weighs the objections.
pub struct VetoManager {
    /// The signals given so far.
    pub signals: SignalList,
}

impl VetoManager {
    /// A manager without signals.
    pub fn new() -> (manager: VetoManager)
        ensures
            manager.signals@.len() == 0,
    {
        VetoManager { signals: SignalList::new() }
    }

    /// Takes the signal of a node about a change. A node that has spoken
    /// about the change already is refused, whatever it says now, and
    /// what it said stands. Any other signal is taken, as long as the
    /// list can hold one more.
    pub fn collect_veto_signal(
        &mut self,
        pr_id: i32,
        node_id: i32,
        signal_type: SignalType,
        signature: &str,
        rationale: &str,
        now: i64,
    ) -> (result: Result<i32, GovernanceError>)
        ensures
            signals_wf(final(self).signals@),
            collected(
                old(self).signals@,
                final(self).signals@,
                result,
                pr_id,
                node_id,
                signal_type,
                signature@,
                rationale@,
                None,
                now,
            ),
    {
        self.record(pr_id, node_id, signal_type, signature, rationale, None, now)
    }

    /// Takes the signal of a node that signs with a derived key: the
    /// signal is published under that key.
    pub fn collect_veto_signal_with_voting_key(
        &mut self,
        pr_id: i32,
        node_id: i32,
        signal_type: SignalType,
        signature: &str,
        rationale: &str,
        voting_key: &str,
        now: i64,
    ) -> (result: Result<i32, GovernanceError>)
        ensures
            signals_wf(final(self).signals@),
            collected(
                old(self).signals@,
                final(self).signals@,
                result,
                pr_id,
                node_id,
                signal_type,
                signature@,
                rationale@,
                Some(voting_key@),
                now,
            ),
    {
        self.record(pr_id, node_id, signal_type, signature, rationale, Some(voting_key), now)
    }

    fn record(
        &mut self,
        pr_id: i32,
        node_id: i32,
        signal_type: SignalType,
        signature: &str,
        rationale: &str,
        voting_key: Option<&str>,
        now: i64,
    ) -> (result: Result<i32, GovernanceError>)
        ensures
            signals_wf(final(self).signals@),
            collected(
                old(self).signals@,
                final(self).signals@,
                result,
                pr_id,
                node_id,
                signal_type,
                signature@,
                rationale@,
                opt_str(voting_key),
                now,
            ),
    {
        if self.signals.find(pr_id, node_id).is_some() {
            return Err(database_error("Node has already submitted a signal for this PR"));
        }
        let count = self.signals.len();
        if count >= 0x7fff_ffff {
            return Err(database_error("Failed to record signal: list is full"));
        }
        let id: i32 = (count + 1) as i32;
        let signal = VetoSignal {
            id,
            pr_id,
            node_id,
            signal_type,
            signature: signature.to_owned(),
            rationale: rationale.to_owned(),
            timestamp: now,
            voting_key: own_opt_str(voting_key),
        };
        let ghost before = self.signals@;
        self.signals.push(signal);
        proof {
            assert(self.signals@.subrange(0, before.len() as int) =~= before);
            assert(signal_at(self.signals@, pr_id, node_id, before.len() as int));
        }
        Ok(id)
    }

    /// Whether a node has given this signal about a change.
    pub fn node_gave_signal(&self, pr_id: i32, node_id: i32, signal_type: SignalType) -> (gave: bool)
        ensures
            gave == gave_signal(self.signals@, pr_id, node_id, signal_type),
    {
        match self.signals.find(pr_id, node_id) {
            Some(i) => {
                let signal = self.signals.get(i);
                signal.signal_type == signal_type
            },
            None => {
                false
            },
        }
    }

    /// The share of one side's weight that has given this signal about a
    /// change, in fixed-point percent.
    pub fn signal_share(&self, nodes: &NodeList, pr_id: i32, signal_type: SignalType, mining: bool)
        -> (percent: u64)
        ensures
            percent == signal_percent(nodes@, self.signals@, pr_id, signal_type, mining),
            percent <= HUNDRED_PERCENT,
    {
        let count = nodes.len();
        let mut whole: u128 = 0;
        let mut part: u128 = 0;
        let mut i: usize = 0;
        while i < count
            invariant
                i <= count,
                count == nodes@.len(),
                count <= i32::MAX,
                whole == side_weight(nodes@, mining, i as int),
                part == signal_weight(nodes@, self.signals@, pr_id, signal_type, mining, i as int),
                part <= whole <= i * u64::MAX,
            decreases count - i,
        {
            let node = nodes.get(i);
            let on_side = node.status == NodeStatus::Active && ((node.node_type
                == NodeType::MiningPool) == mining);
            if on_side {
                assert((i + 1) * u64::MAX == i * u64::MAX + u64::MAX) by (nonlinear_arith);
                assert(i * u64::MAX <= 0x7fff_ffff * u64::MAX) by (nonlinear_arith)
                    requires
                        i <= 0x7fff_ffff,
                ;
                whole = whole + node.weight as u128;
                if self.node_gave_signal(pr_id, node.id, signal_type) {
                    part = part + node.weight as u128;
                }
            } else {
                assert((i + 1) * u64::MAX == i * u64::MAX + u64::MAX) by (nonlinear_arith);
            }
            i = i + 1;
        }
        assert(whole <= 0x7fff_ffff * u64::MAX) by (nonlinear_arith)
            requires
                whole <= count * u64::MAX,
                count <= 0x7fff_ffff,
        ;
        share_in_percent(part, whole)
    }

    /// Whether the objections against a change block it under the given
    /// thresholds, with the objecting shares of both sides.
    pub fn check_veto_threshold(
        &self,
        nodes: &NodeList,
        pr_id: i32,
        mining_threshold: i64,
        economic_threshold: i64,
    ) -> (result: Result<VetoThreshold, GovernanceError>)
        ensures
            match result {
                Ok(outcome) => {
                    &&& outcome.mining_veto_percent == signal_percent(
                        nodes@,
                        self.signals@,
                        pr_id,
                        SignalType::Veto,
                        true,
                    )
                    &&& outcome.economic_veto_percent == signal_percent(
                        nodes@,
                        self.signals@,
                        pr_id,
                        SignalType::Veto,
                        false,
                    )
                    &&& outcome.mining_threshold_percent == mining_threshold
                    &&& outcome.economic_threshold_percent == economic_threshold
                    &&& outcome.veto_active == blocks(
                        outcome.mining_veto_percent as int,
                        outcome.economic_veto_percent as int,
                        mining_threshold,
                        economic_threshold,
                    )
                },
                Err(_) => false,
            },
    {
        let mining_veto_percent = self.signal_share(nodes, pr_id, SignalType::Veto, true);
        let economic_veto_percent = self.signal_share(nodes, pr_id, SignalType::Veto, false);
        let veto_active = (mining_veto_percent as i128) >= (mining_threshold as i128) || (
        economic_veto_percent as i128) >= (economic_threshold as i128);
        Ok(
            VetoThreshold {
                mining_veto_percent,
                economic_veto_percent,
                mining_threshold_percent: mining_threshold,
                economic_threshold_percent: economic_threshold,
                veto_active,
            },
        )
    }

    /// Whether a change has the support it needs under the given
    /// thresholds, with the supporting shares of both sides. Support must
    /// reach its threshold on both sides.
    pub fn check_support_threshold(
        &self,
        nodes: &NodeList,
        pr_id: i32,
        mining_threshold: i64,
        economic_threshold: i64,
    ) -> (result: Result<SupportThreshold, GovernanceError>)
        ensures
            match result {
                Ok(outcome) => {
                    &&& outcome.mining_support_percent == signal_percent(
                        nodes@,
                        self.signals@,
                        pr_id,
                        SignalType::Support,
                        true,
                    )
                    &&& outcome.economic_support_percent == signal_percent(
                        nodes@,
                        self.signals@,
                        pr_id,
                        SignalType::Support,
                        false,
                    )
                    &&& outcome.mining_threshold_percent == mining_threshold
                    &&& outcome.economic_threshold_percent == economic_threshold
                    &&& outcome.support_reached == (outcome.mining_support_percent
                        >= mining_threshold && outcome.economic_support_percent
                        >= economic_threshold)
                },
                Err(_) => false,
            },
    {
        let mining_support_percent = self.signal_share(nodes, pr_id, SignalType::Support, true);
        let economic_support_percent = self.signal_share(nodes, pr_id, SignalType::Support, false);
        let support_reached = (mining_support_percent as i128) >= (mining_threshold as i128) && (
        economic_support_percent as i128) >= (economic_threshold as i128);
        Ok(
            SupportThreshold {
                mining_support_percent,
                economic_support_percent,
                mining_threshold_percent: mining_threshold,
                economic_threshold_percent: economic_threshold,
                support_reached,
            },
        )
    }

    /// Whether the objections against a change block it under the
    /// thresholds that the reader gives for a tier. A configured
    /// threshold that is no number is an error. In the signalling tier
    /// the want of objections does not let a change pass: its support is
    /// weighed by `check_signaling_support`.
    pub fn check_veto_threshold_for_tier(
        &self,
        nodes: &NodeList,
        reader: &mut ConfigReader,
        pr_id: i32,
        tier: u32,
        now: i64,
    ) -> (result: Result<VetoThreshold, GovernanceError>)
        ensures
            final(reader).yaml_config == old(reader).yaml_config,
            final(reader).registry.spec_config_path() == old(reader).registry.spec_config_path(),
            match veto_settings(tier) {
                Some((mining_key, economic_key, mining_default, economic_default)) => {
                    &&& final(reader)@ == old(reader)@.after_read_fixed_pair(
                        mining_key,
                        mining_default,
                        economic_key,
                        now,
                    )
                    &&& match old(reader)@.read_fixed_pair(
                        mining_key,
                        mining_default,
                        economic_key,
                        economic_default,
                        now,
                    ) {
                        Some((mining, economic)) => result matches Ok(outcome)
                            && outcome.mining_threshold_percent == mining
                            && outcome.economic_threshold_percent == economic
                            && outcome.mining_veto_percent == signal_percent(
                            nodes@,
                            self.signals@,
                            pr_id,
                            SignalType::Veto,
                            true,
                        ) && outcome.economic_veto_percent == signal_percent(
                            nodes@,
                            self.signals@,
                            pr_id,
                            SignalType::Veto,
                            false,
                        ) && outcome.veto_active == blocks(
                            outcome.mining_veto_percent as int,
                            outcome.economic_veto_percent as int,
                            mining,
                            economic,
                        ),
                        None => result matches Err(e) && e is ConfigError,
                    }
                },
                None => final(reader)@ == old(reader)@ && (result matches Ok(outcome)
                    && outcome.mining_threshold_percent == 30 * PERCENT
                    && outcome.economic_threshold_percent == 40 * PERCENT
                    && outcome.mining_veto_percent == signal_percent(
                    nodes@,
                    self.signals@,
                    pr_id,
                    SignalType::Veto,
                    true,
                ) && outcome.economic_veto_percent == signal_percent(
                    nodes@,
                    self.signals@,
                    pr_id,
                    SignalType::Veto,
                    false,
                ) && outcome.veto_active == blocks(
                    outcome.mining_veto_percent as int,
                    outcome.economic_veto_percent as int,
                    (30 * PERCENT) as i64,
                    (40 * PERCENT) as i64,
                )),
            },
    {
        let (mining, economic) = match reader.get_veto_thresholds(tier, now) {
            Ok(pair) => pair,
            Err(e) => {
                return Err(e);
            },
        };
        self.check_veto_threshold(nodes, pr_id, mining, economic)
    }

    /// Whether a change of the signalling tier has the support it needs:
    /// in that tier a change does not pass for want of objections, it
    /// passes where the supporting shares of both sides reach the
    /// thresholds that the reader gives for the tier. A configured
    /// threshold that is no number is an error.
    pub fn check_signaling_support(
        &self,
        nodes: &NodeList,
        reader: &mut ConfigReader,
        pr_id: i32,
        now: i64,
    ) -> (result: Result<SupportThreshold, GovernanceError>)
        ensures
            final(reader).yaml_config == old(reader).yaml_config,
            final(reader).registry.spec_config_path() == old(reader).registry.spec_config_path(),
            final(reader)@ == old(reader)@.after_read_fixed_pair(
                "signaling_tier_5_mining_percent"@,
                (50 * PERCENT) as i64,
                "signaling_tier_5_economic_percent"@,
                now,
            ),
            match old(reader)@.read_fixed_pair(
                "signaling_tier_5_mining_percent"@,
                (50 * PERCENT) as i64,
                "signaling_tier_5_economic_percent"@,
                (60 * PERCENT) as i64,
                now,
            ) {
                Some((mining, economic)) => result matches Ok(outcome) && weighs_support(
                    outcome,
                    nodes@,
                    self.signals@,
                    pr_id,
                    mining,
                    economic,
                ),
                None => result matches Err(e) && e is ConfigError,
            },
    {
        let (mining, economic) = match reader.get_veto_thresholds(SIGNALING_TIER, now) {
            Ok(pair) => pair,
            Err(e) => {
                return Err(e);
            },
        };
        self.check_support_threshold(nodes, pr_id, mining, economic)
    }

    /// How many signals there are about a change, in all and of each
    /// kind.
    pub fn get_veto_statistics(&self, pr_id: i32) -> (result: Result<VetoStatistics, GovernanceError>)
        ensures
            match result {
                Ok(statistics) => {
                    let n = self.signals@.len() as int;
                    &&& statistics.total_signals == signal_count(self.signals@, pr_id, None, n)
                    &&& statistics.veto_count == signal_count(
                        self.signals@,
                        pr_id,
                        Some(SignalType::Veto),
                        n,
                    )
                    &&& statistics.support_count == signal_count(
                        self.signals@,
                        pr_id,
                        Some(SignalType::Support),
                        n,
                    )
                    &&& statistics.abstain_count == signal_count(
                        self.signals@,
                        pr_id,
                        Some(SignalType::Abstain),
                        n,
                    )
                },
                Err(_) => false,
            },
    {
        let count = self.signals.len();
        let mut total_signals: usize = 0;
        let mut veto_count: usize = 0;
        let mut support_count: usize = 0;
        let mut abstain_count: usize = 0;
        let mut i: usize = 0;
        while i < count
            invariant
                i <= count,
                count == self.signals@.len(),
                total_signals == signal_count(self.signals@, pr_id, None, i as int),
                veto_count == signal_count(self.signals@, pr_id, Some(SignalType::Veto), i as int),
                support_count == signal_count(
                    self.signals@,
                    pr_id,
                    Some(SignalType::Support),
                    i as int,
                ),
                abstain_count == signal_count(
                    self.signals@,
                    pr_id,
                    Some(SignalType::Abstain),
                    i as int,
                ),
                total_signals <= i,
                veto_count <= i,
                support_count <= i,
                abstain_count <= i,
            decreases count - i,
        {
            let signal = self.signals.get(i);
            if signal.pr_id == pr_id {
                total_signals = total_signals + 1;
                match signal.signal_type {
                    SignalType::Veto => {
                        veto_count = veto_count + 1;
                    },
                    SignalType::Support => {
                        support_count = support_count + 1;
                    },
                    SignalType::Abstain => {
                        abstain_count = abstain_count + 1;
                    },
                }
            }
            i = i + 1;
        }
        Ok(VetoStatistics { total_signals, veto_count, support_count, abstain_count })
    }

    fn leaves(&self, pr_id: i32) -> (leaves: Vec<String>)
        ensures
            hashes(leaves@) == leaves_of(self.signals@, pr_id, self.signals@.len() as int),
    {
        let count = self.signals.len();
        let mut leaves: Vec<String> = Vec::new();
        let mut i: usize = 0;
        while i < count
            invariant
                i <= count,
                count == self.signals@.len(),
                hashes(leaves@) == leaves_of(self.signals@, pr_id, i as int),
            decreases count - i,
        {
            let signal = self.signals.get(i);
            if signal.pr_id == pr_id {
                let leaf = signal_leaf(signal);
                leaves.push(leaf);
            }
            i = i + 1;
        }
        leaves
    }

    /// The root of the tree over the signals about a change, nothing for
    /// a change without signals.
    pub fn get_merkle_root_hash(&self, pr_id: i32) -> (result: Result<Option<String>, GovernanceError>)
        ensures
            match result {
                Ok(Some(root)) => {
                    let leaves = leaves_of(self.signals@, pr_id, self.signals@.len() as int);
                    leaves.len() > 0 && root@ == root_of(leaves)
                },
                Ok(None) => leaves_of(self.signals@, pr_id, self.signals@.len() as int).len() == 0,
                Err(_) => false,
            },
    {
        let leaves = self.leaves(pr_id);
        Ok(merkle_root(&leaves))
    }

    /// The inclusion proof for the first signal about a change that is
    /// published under a name: the leaf of the signal, the way from it to
    /// the root, and the root, to which the way leads. Nothing where no
    /// signal about the change is published under the name.
    pub fn get_merkle_proof_for_voting_key(&self, pr_id: i32, voting_key: &str) -> (result: Result<
        Option<MerkleProof>,
        GovernanceError,
    >)
        ensures
            match result {
                Ok(Some(proof)) => {
                    let leaves = leaves_of(self.signals@, pr_id, self.signals@.len() as int);
                    exists|i: int| #[trigger]
                        first_published(self.signals@, pr_id, voting_key@, i) && proof.leaf_hash@
                            == leaf_of(self.signals@[i]) && steps(proof.path@) == path_of(
                            leaves,
                            leaves_of(self.signals@, pr_id, i).len() as int,
                        ) && proof.root_hash@ == root_of(leaves) && climb(
                            proof.leaf_hash@,
                            steps(proof.path@),
                        ) == proof.root_hash@
                },
                Ok(None) => forall|i: int|
                    0 <= i < self.signals@.len() ==> !((#[trigger] self.signals@[i]).pr_id == pr_id
                        && published_as(self.signals@[i]) == voting_key@),
                Err(_) => false,
            },
    {
        let count = self.signals.len();
        let mut i: usize = 0;
        let mut position: usize = 0;
        while i < count
            invariant
                i <= count,
                count == self.signals@.len(),
                position == leaves_of(self.signals@, pr_id, i as int).len(),
                position <= i,
                forall|j: int|
                    0 <= j < i ==> !((#[trigger] self.signals@[j]).pr_id == pr_id && published_as(
                        self.signals@[j],
                    ) == voting_key@),
            decreases count - i,
        {
            let signal = self.signals.get(i);
            if signal.pr_id == pr_id {
                let name = signal_name(signal);
                if str_equal(name.as_str(), voting_key) {
                    let leaves = self.leaves(pr_id);
                    proof {
                        lemma_leaves_grow(self.signals@, pr_id, i + 1, count as int);
                        law_path_leads_to_root(hashes(leaves@), position as int);
                        assert(first_published(self.signals@, pr_id, voting_key@, i as int));
                    }
                    let path = merkle_path(&leaves, position);
                    let root_hash = match merkle_root(&leaves) {
                        Some(root) => root,
                        None => String::new(),
                    };
                    let leaf_hash = leaves[position].clone();
                    proof {
                        let upto = leaves_of(self.signals@, pr_id, i + 1);
                        assert(upto[position as int] == leaf_of(self.signals@[i as int]));
                    }
                    return Ok(Some(MerkleProof { leaf_hash, path, root_hash }));
                }
                position = position + 1;
            }
            i = i + 1;
        }
        Ok(None)
    }
}

/// The leaves of more signals begin with the leaves of fewer.
pub proof fn lemma_leaves_grow(signals: Seq<VetoSignal>, pr_id: i32, n: int, m: int)
    requires
        0 <= n <= m,
    ensures
        leaves_of(signals, pr_id, n).len() <= leaves_of(signals, pr_id, m).len(),
        leaves_of(signals, pr_id, m).subrange(0, leaves_of(signals, pr_id, n).len() as int)
            == leaves_of(signals, pr_id, n),
    decreases m - n,
{
    if n < m {
        lemma_leaves_grow(signals, pr_id, n, m - 1);
    }
}

/// The name under which a signal is published.
pub fn signal_name(signal: &VetoSignal) -> (name: String)
    ensures
        name@ == published_as(*signal),
{
    match &signal.voting_key {
        Some(key) => key.clone(),
        None => {
            let mut name = "node:".to_owned();
            let number = i64_to_text(signal.node_id as i64);
            name.append(number.as_str());
            name
        },
    }
}

/// The leaf that stands for a signal in the tree of its change.
pub fn signal_leaf(signal: &VetoSignal) -> (leaf: String)
    ensures
        leaf@ == leaf_of(*signal),
{
    let mut text = signal_name(signal);
    text.append(":");
    text.append(signal.signal_type.as_str());
    sha256_hex(text.as_str())
}

/// The share that a part is of a whole, in fixed-point percent.
fn share_in_percent(part: u128, whole: u128) -> (percent: u64)
    requires
        part <= whole,
        whole <= 0x7fff_ffff * u64::MAX,
    ensures
        percent == percent_of(part as int, whole as int),
        percent <= HUNDRED_PERCENT,
{
    if whole == 0 {
        return 0;
    }
    assert(0x7fff_ffffint * u64::MAX * 100_000 < u128::MAX) by (nonlinear_arith);
    assert(part * 100_000 <= 0x7fff_ffff * u64::MAX * 100_000) by (nonlinear_arith)
        requires
            part <= 0x7fff_ffff * u64::MAX,
    ;
    let scaled: u128 = part * 100_000;
    let quotient: u128 = scaled / whole;
    let rest: u128 = scaled % whole;
    proof {
        lemma_fundamental_div_mod(scaled as int, whole as int);
        lemma_mod_pos_bound(scaled as int, whole as int);
        assert(quotient <= 100_000) by (nonlinear_arith)
            requires
                scaled == whole * quotient + rest,
                scaled <= whole * 100_000,
                whole > 0,
                rest >= 0,
        ;
        assert(rest * 100_000 <= 0x7fff_ffff * u64::MAX * 100_000) by (nonlinear_arith)
            requires
                rest < whole,
                whole <= 0x7fff_ffff * u64::MAX,
        ;
    }
    let low: u128 = (rest * 100_000) / whole;
    proof {
        lemma_hoist_over_denominator(rest * 100_000, quotient * 100_000, whole as nat);
        assert(part * HUNDRED_PERCENT as int == rest * 100_000 + quotient * 100_000 * whole)
            by (nonlinear_arith)
            requires
                part * 100_000 == whole * quotient + rest,
                HUNDRED_PERCENT == 10_000_000_000,
        ;
        assert(part * HUNDRED_PERCENT as int / whole as int <= HUNDRED_PERCENT) by (nonlinear_arith)
            requires
                part <= whole,
                whole > 0,
                HUNDRED_PERCENT == 10_000_000_000,
        ;
    }
    (quotient * 100_000 + low) as u64
}

/// A node speaks once about a change: after its signal was taken, a
/// second signal of the same node about the same change is refused,
/// whatever it says, and the list stays as it is.
pub proof fn law_second_signal_is_refused(
    before: Seq<VetoSignal>,
    between: Seq<VetoSignal>,
    after: Seq<VetoSignal>,
    first: Result<i32, GovernanceError>,
    second: Result<i32, GovernanceError>,
    pr_id: i32,
    node_id: i32,
    first_signal: (SignalType, Seq<char>, Seq<char>, Option<Seq<char>>, i64),
    second_signal: (SignalType, Seq<char>, Seq<char>, Option<Seq<char>>, i64),
)
    requires
        collected(
            before,
            between,
            first,
            pr_id,
            node_id,
            first_signal.0,
            first_signal.1,
            first_signal.2,
            first_signal.3,
            first_signal.4,
        ),
        first is Ok,
        collected(
            between,
            after,
            second,
            pr_id,
            node_id,
            second_signal.0,
            second_signal.1,
            second_signal.2,
            second_signal.3,
            second_signal.4,
        ),
    ensures
        second matches Err(e) && e is DatabaseError,
        after == between,
{
}

/// A signal about another change or of another node is always taken, as
/// long as the list can hold one more.
pub proof fn law_first_signal_is_taken(
    before: Seq<VetoSignal>,
    after: Seq<VetoSignal>,
    result: Result<i32, GovernanceError>,
    pr_id: i32,
    node_id: i32,
    signal: (SignalType, Seq<char>, Seq<char>, Option<Seq<char>>, i64),
)
    requires
        collected(before, after, result, pr_id, node_id, signal.0, signal.1, signal.2, signal.3, signal.4),
        !has_signal(before, pr_id, node_id),
        before.len() < i32::MAX,
    ensures
        result is Ok,
        has_signal(after, pr_id, node_id),
{
}

} // verus!
