//! Core data types: roles, body parts, agent names, and capability result
//! codes. All of them are plain values that the surrounding simulation can
//! produce when sensing the world and consume when acting on a decision.

use vstd::prelude::*;

verus! {

/// A body part an agent can be assembled from.
#[derive(Clone, Copy, PartialEq, Eq, Structural, Debug)]
pub enum Part {
    Move,
    Work,
    Carry,
}

impl Part {
    /// Build cost of one part, in resource units.
    pub open spec fn spec_cost(self) -> u32 {
        match self {
            Part::Move => 50,
            Part::Work => 100,
            Part::Carry => 50,
        }
    }

    /// Returns the build cost of this part.
    pub fn cost(self) -> (c: u32)
        ensures
            c == self.spec_cost(),
    {
        match self {
            Part::Move => 50,
            Part::Work => 100,
            Part::Carry => 50,
        }
    }
}

/// Total build cost of a loadout of parts.
pub open spec fn parts_cost(parts: Seq<Part>) -> int
    decreases parts.len(),
{
    if parts.len() == 0 {
        0
    } else {
        parts_cost(parts.drop_last()) + parts.last().spec_cost()
    }
}

/// The closed set of agent roles.
#[derive(Clone, Copy, PartialEq, Eq, Structural, Debug)]
pub enum Role {
    Harvester,
    Builder,
}

/// A generated agent name: a tick-derived base plus a collision-resolution
/// suffix. Names of this shape are what the admission controller hands to the
/// creation capability.
#[derive(Clone, Copy, PartialEq, Eq, Structural, Debug)]
pub struct CreepName {
    pub base: u64,
    pub suffix: u64,
}

/// Sensed fill state of an agent's carried storage.
#[derive(Clone, Copy, PartialEq, Eq, Structural, Debug)]
pub struct StoreInfo {
    /// Resource units currently carried.
    pub used: u32,
    /// Carrying capacity still free.
    pub free: u32,
}

/// Sensed stockpile state of a home base.
#[derive(Clone, Copy, PartialEq, Eq, Structural, Debug)]
pub struct BaseInfo {
    /// Resource units currently stocked.
    pub current: u32,
    /// Total stockpile capacity.
    pub capacity: u32,
    /// Stockpile capacity still free.
    pub free: u32,
}

/// Result code of an action capability (harvest, transfer, withdraw, build,
/// upgrade) or a movement command, as reported by the simulation.
#[derive(Clone, Copy, PartialEq, Eq, Structural, Debug)]
pub enum ActionResult {
    Success,
    NotInRange,
    InvalidTarget,
    InsufficientResource,
    TargetFull,
    OtherFailure,
}

/// Result code of an agent-creation request.
#[derive(Clone, Copy, PartialEq, Eq, Structural, Debug)]
pub enum SpawnResult {
    Success,
    NameExists,
    OtherFailure,
}

/// Static per-role table: the loadout an agent type is assembled from, the
/// role tag its persisted state carries, and the resource cost of creating
/// it.
pub trait CreepInfo {
    /// The role this agent type runs under.
    spec fn spec_role() -> Role;

    /// The loadout of body parts.
    spec fn spec_parts() -> Seq<Part>;

    /// Returns the role this agent type runs under.
    fn role() -> (r: Role)
        ensures
            r == Self::spec_role(),
    ;

    /// Returns the loadout of body parts.
    fn parts() -> (p: Vec<Part>)
        ensures
            p@ == Self::spec_parts(),
    ;

    /// Returns the resource cost of creating one agent of this type: the sum
    /// of its part costs.
    fn cost() -> (c: u32)
        ensures
            c == parts_cost(Self::spec_parts()),
    ;
}

/// The loadout both basic agent types are assembled from.
pub open spec fn basic_loadout() -> Seq<Part> {
    seq![Part::Move, Part::Move, Part::Carry, Part::Work]
}

/// The basic loadout costs 250 resource units.
pub proof fn lemma_basic_loadout_cost()
    ensures
        parts_cost(basic_loadout()) == 250,
{
    reveal_with_fuel(parts_cost, 5);
    assert(basic_loadout().drop_last() =~= seq![Part::Move, Part::Move, Part::Carry]);
    assert(basic_loadout().drop_last().drop_last() =~= seq![Part::Move, Part::Move]);
    assert(basic_loadout().drop_last().drop_last().drop_last() =~= seq![Part::Move]);
    assert(basic_loadout().drop_last().drop_last().drop_last().drop_last() =~= Seq::<
        Part,
    >::empty());
}

/// The basic harvester agent type.
#[derive(Clone, Copy, PartialEq, Eq, Structural, Debug)]
pub struct BasicHarvester {}

impl CreepInfo for BasicHarvester {
    open spec fn spec_role() -> Role {
        Role::Harvester
    }

    open spec fn spec_parts() -> Seq<Part> {
        basic_loadout()
    }

    fn role() -> (r: Role) {
        Role::Harvester
    }

    fn parts() -> (p: Vec<Part>) {
        let mut p: Vec<Part> = Vec::new();
        p.push(Part::Move);
        p.push(Part::Move);
        p.push(Part::Carry);
        p.push(Part::Work);
        proof {
            assert(p@ =~= basic_loadout());
        }
        p
    }

    fn cost() -> (c: u32) {
        proof {
            lemma_basic_loadout_cost();
        }
        250
    }
}

/// The basic builder agent type: same loadout as the basic harvester, under
/// the builder role.
#[derive(Clone, Copy, PartialEq, Eq, Structural, Debug)]
pub struct BasicBuilder {}

impl CreepInfo for BasicBuilder {
    open spec fn spec_role() -> Role {
        Role::Builder
    }

    open spec fn spec_parts() -> Seq<Part> {
        basic_loadout()
    }

    fn role() -> (r: Role) {
        Role::Builder
    }

    fn parts() -> (p: Vec<Part>) {
        let mut p: Vec<Part> = Vec::new();
        p.push(Part::Move);
        p.push(Part::Move);
        p.push(Part::Carry);
        p.push(Part::Work);
        proof {
            assert(p@ =~= basic_loadout());
        }
        p
    }

    fn cost() -> (c: u32) {
        proof {
            lemma_basic_loadout_cost();
        }
        250
    }
}

/// Types of harvester agents.
pub enum HarvesterType {
    BasicHarvester(BasicHarvester),
}

/// Types of builder agents.
pub enum BuilderType {
    BasicBuilder(BasicBuilder),
}

/// High-level agent types.
pub enum CreepType {
    Harvester(HarvesterType),
    Builder(BuilderType),
}

/// A creation request the admission controller hands to the simulation's
/// creation capability: the new agent's role (its persisted state starts
/// with the role tag set and every task flag clear), its name, and its
/// loadout.
#[derive(PartialEq, Eq, Debug)]
pub struct CreationRequest {
    pub role: Role,
    pub name: CreepName,
    pub parts: Vec<Part>,
}

/// A deferred condition: an expected, non-fatal inability to act this tick,
/// retried on a later tick. Never an error.
#[derive(Clone, Copy, PartialEq, Eq, Structural, Debug)]
pub enum Deferred {
    /// The base's stockpile cannot yet pay for the requested agent.
    InsufficientResource { required: u32, available: u32 },
}

} // verus!
