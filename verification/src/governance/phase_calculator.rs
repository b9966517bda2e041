//! The maturity phase of the network and the parameters that follow it.
//!
//! Three metrics are held against boundaries: the block height, the
//! number of active nodes and the number of active contributors. Each
//! metric alone stands in a phase. Where the metrics disagree the earliest
//! of their phases is the phase of the network: a network counts as
//! grown only when all three metrics say so.

use vstd::prelude::*;
use vstd::string::*;
use crate::error::GovernanceError;
use crate::governance::config_reader::{ConfigReader, ReaderView};

verus! {

/// The weight cap of a single mining pool in the early and in the mature
/// phase: ten percent, as a fixed-point number.
pub const LOW_POOL_WEIGHT_CAP: u64 = 10_000_000;

/// The weight cap of a single mining pool in the growth phase: twenty
/// percent, as a fixed-point number.
pub const GROWTH_POOL_WEIGHT_CAP: u64 = 20_000_000;

/// The maturity of the network.
#[derive(Debug, Clone, Copy, PartialEq, Eq, Structural)]
pub enum GovernancePhase {
    Early,
    Growth,
    Mature,
}

impl GovernancePhase {
    /// The phase as a number: the later the phase, the larger.
    pub open spec fn rank(self) -> int {
        match self {
            GovernancePhase::Early => 0,
            GovernancePhase::Growth => 1,
            GovernancePhase::Mature => 2,
        }
    }

    /// The name of the phase in keys of governance parameters.
    pub open spec fn name(self) -> Seq<char> {
        match self {
            GovernancePhase::Early => "early"@,
            GovernancePhase::Growth => "growth"@,
            GovernancePhase::Mature => "mature"@,
        }
    }

    /// The name of the phase in keys of governance parameters.
    pub fn as_str(&self) -> (s: &'static str)
        ensures
            s@ == self.name(),
    {
        match self {
            GovernancePhase::Early => "early",
            GovernancePhase::Growth => "growth",
            GovernancePhase::Mature => "mature",
        }
    }

    /// The earlier of two phases.
    pub open spec fn earlier_of(self, other: GovernancePhase) -> GovernancePhase {
        if self.rank() <= other.rank() {
            self
        } else {
            other
        }
    }

    /// The earlier of two phases.
    pub fn earlier(self, other: GovernancePhase) -> (phase: GovernancePhase)
        ensures
            phase == self.earlier_of(other),
    {
        match (self, other) {
            (GovernancePhase::Early, _) => GovernancePhase::Early,
            (_, GovernancePhase::Early) => GovernancePhase::Early,
            (GovernancePhase::Growth, _) => GovernancePhase::Growth,
            (_, GovernancePhase::Growth) => GovernancePhase::Growth,
            _ => GovernancePhase::Mature,
        }
    }
}

/// The boundaries of one metric.
#[derive(Debug, Clone, Copy)]
pub struct MetricBoundaries {
    /// The value at which the early phase ends.
    pub early_max: u64,
    /// The least value of the growth phase.
    pub growth_min: u64,
    /// The value at which the growth phase ends.
    pub growth_max: u64,
    /// The least value of the mature phase.
    pub mature_min: u64,
}

impl MetricBoundaries {
    /// The metric has left the early phase: it has reached the end of
    /// that phase and the start of the next.
    pub open spec fn grown(self, value: u64) -> bool {
        value >= self.early_max && value >= self.growth_min
    }

    /// The metric has left the growth phase as well.
    pub open spec fn matured(self, value: u64) -> bool {
        self.grown(value) && value >= self.growth_max && value >= self.mature_min
    }

    /// The phase in which a value of the metric stands.
    pub open spec fn phase_of(self, value: u64) -> GovernancePhase {
        if self.matured(value) {
            GovernancePhase::Mature
        } else if self.grown(value) {
            GovernancePhase::Growth
        } else {
            GovernancePhase::Early
        }
    }

    /// The phase in which a value of the metric stands.
    pub fn phase(&self, value: u64) -> (phase: GovernancePhase)
        ensures
            phase == self.phase_of(value),
    {
        let grown = value >= self.early_max && value >= self.growth_min;
        if grown && value >= self.growth_max && value >= self.mature_min {
            GovernancePhase::Mature
        } else if grown {
            GovernancePhase::Growth
        } else {
            GovernancePhase::Early
        }
    }
}

/// The boundaries of the three metrics.
#[derive(Debug, Clone, Copy)]
pub struct PhaseBoundaries {
    pub blocks: MetricBoundaries,
    pub nodes: MetricBoundaries,
    pub contributors: MetricBoundaries,
}

impl PhaseBoundaries {
    /// The boundaries that stand where nothing is configured.
    pub open spec fn standard() -> PhaseBoundaries {
        PhaseBoundaries {
            blocks: MetricBoundaries {
                early_max: 50_000,
                growth_min: 50_000,
                growth_max: 200_000,
                mature_min: 200_000,
            },
            nodes: MetricBoundaries { early_max: 10, growth_min: 10, growth_max: 30, mature_min: 30 },
            contributors: MetricBoundaries {
                early_max: 10,
                growth_min: 10,
                growth_max: 100,
                mature_min: 100,
            },
        }
    }

    /// The phase of a network with these metrics: the earliest of the
    /// phases in which the single metrics stand.
    pub open spec fn phase_of(
        self,
        block_height: u64,
        active_node_count: u64,
        active_contributor_count: u64,
    ) -> GovernancePhase {
        self.blocks.phase_of(block_height).earlier_of(
            self.nodes.phase_of(active_node_count),
        ).earlier_of(self.contributors.phase_of(active_contributor_count))
    }
}

impl Default for PhaseBoundaries {
    fn default() -> (boundaries: PhaseBoundaries)
        ensures
            boundaries == PhaseBoundaries::standard(),
    {
        PhaseBoundaries {
            blocks: MetricBoundaries {
                early_max: 50_000,
                growth_min: 50_000,
                growth_max: 200_000,
                mature_min: 200_000,
            },
            nodes: MetricBoundaries { early_max: 10, growth_min: 10, growth_max: 30, mature_min: 30 },
            contributors: MetricBoundaries {
                early_max: 10,
                growth_min: 10,
                growth_max: 100,
                mature_min: 100,
            },
        }
    }
}

/// The weight cap of a single mining pool in a phase.
pub open spec fn pool_weight_cap(phase: GovernancePhase) -> u64 {
    match phase {
        GovernancePhase::Early => LOW_POOL_WEIGHT_CAP,
        GovernancePhase::Growth => GROWTH_POOL_WEIGHT_CAP,
        GovernancePhase::Mature => LOW_POOL_WEIGHT_CAP,
    }
}

/// The parameters that follow the phase.
#[derive(Debug, Clone, Copy)]
pub struct AdaptiveParameters {
    /// The phase that the parameters belong to.
    pub phase: GovernancePhase,
    /// The most weight a single mining pool can have, in
    /// hundred-millionths.
    pub mining_pool_weight_cap: u64,
}

/// The keys of the twelve boundaries, in the order in which they are
/// read: for each metric the end of the early phase, the start and the
/// end of the growth phase, and the start of the mature phase.
pub open spec fn boundary_keys() -> Seq<Seq<char>> {
    seq![
        "phase_early_max_blocks"@,
        "phase_growth_min_blocks"@,
        "phase_growth_max_blocks"@,
        "phase_mature_min_blocks"@,
        "phase_early_max_nodes"@,
        "phase_growth_min_nodes"@,
        "phase_growth_max_nodes"@,
        "phase_mature_min_nodes"@,
        "phase_early_max_contributors"@,
        "phase_growth_min_contributors"@,
        "phase_growth_max_contributors"@,
        "phase_mature_min_contributors"@,
    ]
}

/// The built-in values of the twelve boundaries, in the order of their
/// keys.
pub open spec fn boundary_defaults() -> Seq<u32> {
    seq![
        50_000u32,
        50_000u32,
        200_000u32,
        200_000u32,
        10u32,
        10u32,
        30u32,
        30u32,
        10u32,
        10u32,
        100u32,
        100u32,
    ]
}

/// What the reader gives for the boundary at a position, nothing where the
/// configured value is no unsigned number.
pub open spec fn boundary_read(reader: ReaderView, i: int, now: i64) -> Option<u32> {
    reader.read_u32(boundary_keys()[i], boundary_defaults()[i], now)
}

/// The boundaries made of twelve values in the order of their keys.
pub open spec fn boundaries_of(values: Seq<u64>) -> PhaseBoundaries {
    PhaseBoundaries {
        blocks: MetricBoundaries {
            early_max: values[0],
            growth_min: values[1],
            growth_max: values[2],
            mature_min: values[3],
        },
        nodes: MetricBoundaries {
            early_max: values[4],
            growth_min: values[5],
            growth_max: values[6],
            mature_min: values[7],
        },
        contributors: MetricBoundaries {
            early_max: values[8],
            growth_min: values[9],
            growth_max: values[10],
            mature_min: values[11],
        },
    }
}

/// Calculates the phase of the network and its adaptive parameters.
#[derive(Debug, Clone, Copy)]
pub struct GovernancePhaseCalculator {
    /// The current block height.
    pub block_height: u64,
    /// The number of active nodes.
    pub active_node_count: u64,
    /// The number of active contributors.
    pub active_contributor_count: u64,
    /// The boundaries between the phases.
    pub boundaries: PhaseBoundaries,
}

impl GovernancePhaseCalculator {
    /// The calculator for a network at its start: every metric is zero,
    /// and the boundaries are the built-in ones.
    pub open spec fn at_start() -> GovernancePhaseCalculator {
        GovernancePhaseCalculator {
            block_height: 0,
            active_node_count: 0,
            active_contributor_count: 0,
            boundaries: PhaseBoundaries::standard(),
        }
    }

    /// A calculator for a network at its start, with the built-in
    /// boundaries.
    pub fn new() -> (calculator: GovernancePhaseCalculator)
        ensures
            calculator.block_height == 0,
            calculator.active_node_count == 0,
            calculator.active_contributor_count == 0,
            calculator.boundaries == PhaseBoundaries::standard(),
    {
        GovernancePhaseCalculator {
            block_height: 0,
            active_node_count: 0,
            active_contributor_count: 0,
            boundaries: PhaseBoundaries::default(),
        }
    }

    /// Sets the metrics of the network.
    pub fn update_metrics(
        &mut self,
        block_height: u64,
        active_node_count: u64,
        active_contributor_count: u64,
    )
        ensures
            *final(self) == (GovernancePhaseCalculator {
                block_height,
                active_node_count,
                active_contributor_count,
                ..*old(self)
            }),
    {
        self.block_height = block_height;
        self.active_node_count = active_node_count;
        self.active_contributor_count = active_contributor_count;
    }

    /// Reads the twelve boundaries through the reader, each with its
    /// built-in value as the fallback. A configured value that is no
    /// unsigned number is an error, and the boundaries stay as they were.
    pub fn load_boundaries(&mut self, reader: &mut ConfigReader, now: i64) -> (result: Result<
        (),
        GovernanceError,
    >)
        ensures
            final(reader).yaml_config == old(reader).yaml_config,
            final(reader).registry.spec_config_path() == old(reader).registry.spec_config_path(),
            final(self).block_height == old(self).block_height,
            final(self).active_node_count == old(self).active_node_count,
            final(self).active_contributor_count == old(self).active_contributor_count,
            match result {
                Ok(_) => {
                    &&& forall|i: int| 0 <= i < 12 ==> boundary_read(old(reader)@, i, now) is Some
                    &&& final(self).boundaries == boundaries_of(
                        Seq::new(12, |i: int| boundary_read(old(reader)@, i, now)->0 as u64),
                    )
                    &&& final(reader)@ == old(reader)@.after_reads(boundary_keys(), now)
                },
                Err(e) => {
                    &&& e is ConfigError
                    &&& final(self).boundaries == old(self).boundaries
                    &&& exists|n: int|
                        0 <= n < 12 && boundary_read(old(reader)@, n, now) is None && final(reader)@
                            == old(reader)@.after_reads(#[trigger] boundary_keys().take(n + 1), now)
                            && forall|i: int| 0 <= i < n ==> boundary_read(old(reader)@, i, now) is Some
                },
            },
    {
        let keys: [&str; 12] = [
            "phase_early_max_blocks",
            "phase_growth_min_blocks",
            "phase_growth_max_blocks",
            "phase_mature_min_blocks",
            "phase_early_max_nodes",
            "phase_growth_min_nodes",
            "phase_growth_max_nodes",
            "phase_mature_min_nodes",
            "phase_early_max_contributors",
            "phase_growth_min_contributors",
            "phase_growth_max_contributors",
            "phase_mature_min_contributors",
        ];
        let defaults: [u32; 12] = [
            50_000,
            50_000,
            200_000,
            200_000,
            10,
            10,
            30,
            30,
            10,
            10,
            100,
            100,
        ];
        let ghost before = reader@;
        let mut values: Vec<u64> = Vec::new();
        let mut i: usize = 0;
        while i < 12
            invariant
                i <= 12,
                values@.len() == i,
                before == old(reader)@,
                *self == *old(self),
                reader.yaml_config == old(reader).yaml_config,
                reader.registry.spec_config_path() == old(reader).registry.spec_config_path(),
                reader@ == before.after_reads(boundary_keys().take(i as int), now),
                forall|k: int|
                    0 <= k < i ==> #[trigger] boundary_read(before, k, now) == Some(
                        values@[k] as u32,
                    ) && values@[k] <= u32::MAX,
                defaults@ == boundary_defaults(),
                forall|k: int| 0 <= k < 12 ==> (#[trigger] keys@[k])@ == boundary_keys()[k],
            decreases 12 - i,
        {
            let key = keys[i];
            proof {
                let wanted = boundary_keys()[i as int];
                crate::governance::config_reader::lemma_reads_stable(
                    before,
                    boundary_keys().take(i as int),
                    wanted,
                    now,
                );
                assert(boundary_keys().take(i + 1).drop_last() =~= boundary_keys().take(i as int));
            }
            match reader.get_u32(key, defaults[i], now) {
                Ok(value) => {
                    values.push(value as u64);
                },
                Err(e) => {
                    return Err(e);
                },
            }
            i = i + 1;
        }
        proof {
            assert(boundary_keys().take(12) =~= boundary_keys());
        }
        self.boundaries = PhaseBoundaries {
            blocks: MetricBoundaries {
                early_max: values[0],
                growth_min: values[1],
                growth_max: values[2],
                mature_min: values[3],
            },
            nodes: MetricBoundaries {
                early_max: values[4],
                growth_min: values[5],
                growth_max: values[6],
                mature_min: values[7],
            },
            contributors: MetricBoundaries {
                early_max: values[8],
                growth_min: values[9],
                growth_max: values[10],
                mature_min: values[11],
            },
        };
        Ok(())
    }

    /// The phase of a network with the given metrics.
    pub fn get_phase(
        &self,
        block_height: u64,
        active_node_count: u64,
        active_contributor_count: u64,
    ) -> (phase: GovernancePhase)
        ensures
            phase == self.boundaries.phase_of(
                block_height,
                active_node_count,
                active_contributor_count,
            ),
    {
        let by_blocks = self.boundaries.blocks.phase(block_height);
        let by_nodes = self.boundaries.nodes.phase(active_node_count);
        let by_contributors = self.boundaries.contributors.phase(active_contributor_count);
        by_blocks.earlier(by_nodes).earlier(by_contributors)
    }

    /// The phase of the network as the calculator knows it.
    pub open spec fn current_phase(self) -> GovernancePhase {
        self.boundaries.phase_of(
            self.block_height,
            self.active_node_count,
            self.active_contributor_count,
        )
    }

    /// The parameters that follow the phase of the network.
    pub fn get_adaptive_parameters(&self) -> (result: Result<AdaptiveParameters, GovernanceError>)
        ensures
            result matches Ok(parameters) && parameters.phase == self.current_phase()
                && parameters.mining_pool_weight_cap == pool_weight_cap(self.current_phase()),
    {
        let phase = self.get_phase(
            self.block_height,
            self.active_node_count,
            self.active_contributor_count,
        );
        let mining_pool_weight_cap = match phase {
            GovernancePhase::Early => LOW_POOL_WEIGHT_CAP,
            GovernancePhase::Growth => GROWTH_POOL_WEIGHT_CAP,
            GovernancePhase::Mature => LOW_POOL_WEIGHT_CAP,
        };
        Ok(AdaptiveParameters { phase, mining_pool_weight_cap })
    }
}

/// The phase of a network never lies beyond the phase in which any one of
/// its metrics stands, and it is the phase of at least one of them.
pub proof fn law_phase_is_earliest(
    boundaries: PhaseBoundaries,
    block_height: u64,
    active_node_count: u64,
    active_contributor_count: u64,
)
    ensures
        ({
            let phase = boundaries.phase_of(
                block_height,
                active_node_count,
                active_contributor_count,
            );
            &&& phase.rank() <= boundaries.blocks.phase_of(block_height).rank()
            &&& phase.rank() <= boundaries.nodes.phase_of(active_node_count).rank()
            &&& phase.rank() <= boundaries.contributors.phase_of(active_contributor_count).rank()
            &&& phase == boundaries.blocks.phase_of(block_height) || phase
                == boundaries.nodes.phase_of(active_node_count) || phase
                == boundaries.contributors.phase_of(active_contributor_count)
        }),
{
}

} // verus!
