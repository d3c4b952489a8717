//! Admission control for one region: capacity sensing, priority-ordered
//! creation requests for its home bases, deterministic name-collision
//! resolution, and the creation metrics.

use vstd::prelude::*;

use crate::builder::spawn_basic_builder;
use crate::harvester::spawn_basic_harvester;
use crate::metrics::{inc_count, Metrics, MetricKey};
use crate::source::{passable_count, total_source_spots, Look};
use crate::types::{
    parts_cost, BaseInfo, BasicBuilder, BasicHarvester, CreationRequest, CreepInfo, CreepName,
    Deferred, Role, SpawnResult,
};

verus! {

/// Travel slack applied to the gathering-spot count: agents in transit do
/// not occupy a spot, so the region supports `spots * 5 / 3` harvesters.
pub const TRAVEL_SLACK_NUM: u32 = 5;

pub const TRAVEL_SLACK_DEN: u32 = 3;

/// Which kind of agent a region's bases should create this tick.
#[derive(Clone, Copy, PartialEq, Eq, Structural, Debug)]
pub enum SpawnStrategy {
    /// Create builders.
    Builders,
    /// Focus on harvesters, which feed the region's upgrade target.
    CtrlrUpgrade,
}

/// A region and what the admission controller senses of it: its resource
/// nodes' neighborhoods, its home bases, and its open build targets.
#[derive(Debug)]
pub struct RoomCtl {
    /// Opaque identity of the region.
    pub name: u64,
    /// One sensed neighborhood per resource node.
    pub sources: Vec<Vec<Look>>,
    /// The stockpiles of the region's home bases.
    pub spawns: Vec<BaseInfo>,
    /// Number of open build targets.
    pub construction_site_count: u32,
}

/// Gathering spots the region's terrain offers: the sum of the passable
/// counts over all its resource-node neighborhoods.
pub open spec fn region_spots(sources: Seq<Vec<Look>>) -> int
    decreases sources.len(),
{
    if sources.len() == 0 {
        0
    } else {
        region_spots(sources.drop_last()) + passable_count(sources.last()@)
    }
}

/// Every prefix sum of the region's spots is at least zero and at most the
/// whole region's count.
proof fn lemma_region_spots_prefix(sources: Seq<Vec<Look>>, i: int)
    requires
        0 <= i <= sources.len(),
    ensures
        0 <= region_spots(sources.take(i)) <= region_spots(sources),
    decreases sources.len() - i,
{
    if i == sources.len() {
        assert(sources.take(i) =~= sources);
        lemma_region_spots_nonneg(sources);
    } else {
        assert(sources.take(i + 1).drop_last() =~= sources.take(i));
        assert(sources.take(i + 1).last() == sources[i]);
        crate::source::lemma_passable_count_bounds(sources[i]@);
        lemma_region_spots_nonneg(sources.take(i));
        lemma_region_spots_prefix(sources, i + 1);
        assert(region_spots(sources.take(i + 1)) == region_spots(sources.take(i)) + passable_count(
            sources[i]@,
        ));
    }
}

proof fn lemma_region_spots_nonneg(sources: Seq<Vec<Look>>)
    ensures
        region_spots(sources) >= 0,
    decreases sources.len(),
{
    if sources.len() > 0 {
        lemma_region_spots_nonneg(sources.drop_last());
        crate::source::lemma_passable_count_bounds(sources.last()@);
    }
}

/// What one base's creation decision must be under a strategy: a request for
/// the strategy's role exactly when the stockpile covers the loadout cost,
/// and the deferred insufficient-resource condition otherwise.
pub open spec fn spawn_decision_ok(
    strategy: SpawnStrategy,
    base: BaseInfo,
    name_base: u64,
    decision: Result<CreationRequest, Deferred>,
) -> bool {
    let role = strategy_role(strategy);
    let cost = if role is Harvester {
        parts_cost(BasicHarvester::spec_parts())
    } else {
        parts_cost(BasicBuilder::spec_parts())
    };
    &&& decision is Ok <==> base.current >= cost
    &&& decision matches Ok(req) ==> req.role == role && req.name == (CreepName {
        base: name_base,
        suffix: 0,
    }) && req.parts@ == (if role is Harvester {
        BasicHarvester::spec_parts()
    } else {
        BasicBuilder::spec_parts()
    })
    &&& decision matches Err(d) ==> d == (Deferred::InsufficientResource {
        required: cost as u32,
        available: base.current,
    })
}

/// The role a strategy creates.
pub open spec fn strategy_role(strategy: SpawnStrategy) -> Role {
    match strategy {
        SpawnStrategy::CtrlrUpgrade => Role::Harvester,
        SpawnStrategy::Builders => Role::Builder,
    }
}

impl RoomCtl {
    /// Wraps one region's sensed state for the admission controller.
    pub fn new(
        name: u64,
        sources: Vec<Vec<Look>>,
        spawns: Vec<BaseInfo>,
        construction_site_count: u32,
    ) -> (room: RoomCtl)
        ensures
            room.name == name,
            room.sources@ == sources@,
            room.spawns@ == spawns@,
            room.construction_site_count == construction_site_count,
    {
        RoomCtl { name, sources, spawns, construction_site_count }
    }

    /// Number of gathering spots for harvesting in the region; with
    /// `creeps_travel`, scaled up by the travel-slack multiplier (rounded
    /// down) to account for agents in transit not occupying a spot.
    pub fn energy_spots(&self, creeps_travel: bool) -> (spots: u32)
        requires
            forall|i: int|
                0 <= i < self.sources@.len() ==> (#[trigger] self.sources@[i])@.len() <= u32::MAX,
            region_spots(self.sources@) * TRAVEL_SLACK_NUM <= u32::MAX,
        ensures
            creeps_travel ==> spots == region_spots(self.sources@) * TRAVEL_SLACK_NUM as int
                / TRAVEL_SLACK_DEN as int,
            !creeps_travel ==> spots == region_spots(self.sources@),
    {
        let mut total: u32 = 0;
        let mut i: usize = 0;
        proof {
            lemma_region_spots_prefix(self.sources@, 0);
        }
        while i < self.sources.len()
            invariant
                0 <= i <= self.sources@.len(),
                total == region_spots(self.sources@.take(i as int)),
                region_spots(self.sources@) * TRAVEL_SLACK_NUM <= u32::MAX,
                forall|k: int|
                    0 <= k < self.sources@.len() ==> (#[trigger] self.sources@[k])@.len()
                        <= u32::MAX,
            decreases self.sources@.len() - i,
        {
            proof {
                assert(self.sources@.take(i + 1).drop_last() =~= self.sources@.take(i as int));
                assert(self.sources@.take(i + 1).last() == self.sources@[i as int]);
                lemma_region_spots_prefix(self.sources@, i + 1);
            }
            let spots = total_source_spots(&self.sources[i]);
            total = total + spots;
            i = i + 1;
        }
        proof {
            assert(self.sources@.take(self.sources@.len() as int) =~= self.sources@);
        }
        if creeps_travel {
            (total * TRAVEL_SLACK_NUM) / TRAVEL_SLACK_DEN
        } else {
            total
        }
    }

    /// Number of open build targets in the region.
    pub fn construction_sites(&self) -> (count: u32)
        ensures
            count == self.construction_site_count,
    {
        self.construction_site_count
    }

    /// Runs the strategy over every home base of the region: one creation
    /// decision per base, in base order. Performing the requests (and
    /// resolving name collisions the live world reports) is the
    /// simulation's part.
    pub fn manage_spawns(&self, strategy: SpawnStrategy, name_base: u64) -> (decisions: Vec<
        Result<CreationRequest, Deferred>,
    >)
        ensures
            decisions@.len() == self.spawns@.len(),
            forall|i: int|
                0 <= i < decisions@.len() ==> spawn_decision_ok(
                    strategy,
                    self.spawns@[i],
                    name_base,
                    #[trigger] decisions@[i],
                ),
    {
        let mut decisions: Vec<Result<CreationRequest, Deferred>> = Vec::new();
        let mut i: usize = 0;
        while i < self.spawns.len()
            invariant
                0 <= i <= self.spawns@.len(),
                decisions@.len() == i,
                forall|k: int|
                    0 <= k < i ==> spawn_decision_ok(
                        strategy,
                        self.spawns@[k],
                        name_base,
                        #[trigger] decisions@[k],
                    ),
            decreases self.spawns@.len() - i,
        {
            let decision = match strategy {
                SpawnStrategy::CtrlrUpgrade => spawn_basic_harvester(&self.spawns[i], name_base),
                SpawnStrategy::Builders => spawn_basic_builder(&self.spawns[i], name_base),
            };
            decisions.push(decision);
            i = i + 1;
        }
        decisions
    }
}

/// Whether the list of live names already uses `name`.
pub(crate) fn contains_name(taken: &Vec<CreepName>, name: CreepName) -> (found: bool)
    ensures
        found == taken@.contains(name),
{
    let mut i: usize = 0;
    while i < taken.len()
        invariant
            0 <= i <= taken@.len(),
            forall|k: int| 0 <= k < i ==> taken@[k] != name,
        decreases taken@.len() - i,
    {
        if taken[i] == name {
            assert(taken@.contains(name));
            return true;
        }
        i = i + 1;
    }
    assert(!taken@.contains(name));
    false
}

/// Resolves a name collision deterministically: the name with base
/// `name_base` and the smallest suffix not yet taken. The retry is bounded
/// only by the name space, never a failure condition.
pub fn resolve_spawn_name(taken: &Vec<CreepName>, name_base: u64) -> (name: CreepName)
    requires
        !taken@.contains(CreepName { base: name_base, suffix: u64::MAX }),
    ensures
        name.base == name_base,
        !taken@.contains(name),
        forall|m: u64| m < name.suffix ==> taken@.contains(CreepName { base: name_base, suffix: m }),
{
    let mut suffix: u64 = 0;
    loop
        invariant
            !taken@.contains(CreepName { base: name_base, suffix: u64::MAX }),
            forall|m: u64|
                m < suffix ==> taken@.contains(CreepName { base: name_base, suffix: m }),
        ensures
            !taken@.contains(CreepName { base: name_base, suffix }),
            forall|m: u64|
                m < suffix ==> taken@.contains(CreepName { base: name_base, suffix: m }),
        decreases u64::MAX - suffix,
    {
        let name = CreepName { base: name_base, suffix };
        if !contains_name(taken, name) {
            break ;
        }
        assert(suffix < u64::MAX);
        suffix = suffix + 1;
    }
    CreepName { base: name_base, suffix }
}

/// The next name to try after the creation capability answered: the same
/// base with the suffix incremented when the name was already in use, and
/// nothing otherwise (success and other failures end the retry loop).
pub fn next_spawn_name(name: CreepName, result: SpawnResult) -> (next: Option<CreepName>)
    requires
        name.suffix < u64::MAX,
    ensures
        result == SpawnResult::NameExists ==> next == Some(
            CreepName { base: name.base, suffix: (name.suffix + 1) as u64 },
        ),
        result != SpawnResult::NameExists ==> next is None,
{
    if result == SpawnResult::NameExists {
        Some(CreepName { base: name.base, suffix: name.suffix + 1 })
    } else {
        None
    }
}

/// The counter a role's creations are recorded under.
pub open spec fn creation_metric(role: Role) -> MetricKey {
    match role {
        Role::Harvester => MetricKey::HarvesterCreeps,
        Role::Builder => MetricKey::BuilderCreeps,
    }
}

/// Records the outcome of a performed creation request: on success the
/// role's creation counter goes up by one; any other outcome leaves the
/// metrics untouched.
pub fn record_spawn_result(metrics: &mut Metrics, role: Role, result: SpawnResult)
    requires
        result == SpawnResult::Success ==> old(metrics).spec_count(creation_metric(role)) + 1
            <= u32::MAX,
    ensures
        result == SpawnResult::Success ==> final(metrics).spec_count(creation_metric(role)) == old(
            metrics,
        ).spec_count(creation_metric(role)) + 1,
        result == SpawnResult::Success ==> forall|other: MetricKey|
            other != creation_metric(role) ==> final(metrics).spec_count(other) == old(
                metrics,
            ).spec_count(other),
        result != SpawnResult::Success ==> *final(metrics) == *old(metrics),
{
    if result == SpawnResult::Success {
        match role {
            Role::Harvester => inc_count(metrics, MetricKey::HarvesterCreeps, 1),
            Role::Builder => inc_count(metrics, MetricKey::BuilderCreeps, 1),
        }
    }
}

} // verus!
