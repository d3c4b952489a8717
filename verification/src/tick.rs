//! Tick orchestration decisions.
//!
//! The tick-driving collaborator advances every live agent first, counts the
//! roles it saw, and only then evaluates spawn admission per region with
//! those up-to-date counts — reversing that order would let the controller
//! work from counts one tick's churn out of date. The functions here are the
//! decisions that loop needs: which strategy a region runs under, whether
//! this tick runs the periodic cleanup pass, and which persisted records the
//! cleanup discards.

use vstd::prelude::*;

use crate::roomctl::{contains_name, SpawnStrategy};
use crate::types::{CreepName, Role};

verus! {

/// The cleanup pass runs once every this many ticks.
pub const CLEANUP_INTERVAL: u32 = 32;

/// Offset within the cleanup interval at which the pass runs.
pub const CLEANUP_PHASE: u32 = 3;

/// Live agents of each role, counted while advancing them this tick.
#[derive(Clone, Copy, PartialEq, Eq, Structural, Debug)]
pub struct RoleCounts {
    pub harvesters: u32,
    pub builders: u32,
}

/// How many agents of `role` a tick saw.
pub open spec fn count_role(roles: Seq<Role>, role: Role) -> int
    decreases roles.len(),
{
    if roles.len() == 0 {
        0
    } else {
        count_role(roles.drop_last(), role) + if roles.last() == role {
            1int
        } else {
            0int
        }
    }
}

proof fn lemma_count_role_bounds(roles: Seq<Role>, role: Role)
    ensures
        0 <= count_role(roles, role) <= roles.len(),
    decreases roles.len(),
{
    if roles.len() > 0 {
        lemma_count_role_bounds(roles.drop_last(), role);
    }
}

/// Counts the live agents of each role.
pub fn count_roles(roles: &Vec<Role>) -> (counts: RoleCounts)
    requires
        roles@.len() <= u32::MAX,
    ensures
        counts.harvesters == count_role(roles@, Role::Harvester),
        counts.builders == count_role(roles@, Role::Builder),
{
    let mut harvesters: u32 = 0;
    let mut builders: u32 = 0;
    let mut i: usize = 0;
    while i < roles.len()
        invariant
            0 <= i <= roles@.len() <= u32::MAX,
            harvesters == count_role(roles@.take(i as int), Role::Harvester),
            builders == count_role(roles@.take(i as int), Role::Builder),
        decreases roles@.len() - i,
    {
        proof {
            assert(roles@.take(i + 1).drop_last() =~= roles@.take(i as int));
            assert(roles@.take(i + 1).last() == roles@[i as int]);
            lemma_count_role_bounds(roles@.take(i + 1), Role::Harvester);
            lemma_count_role_bounds(roles@.take(i + 1), Role::Builder);
        }
        match roles[i] {
            Role::Harvester => {
                harvesters = harvesters + 1;
            },
            Role::Builder => {
                builders = builders + 1;
            },
        }
        i = i + 1;
    }
    proof {
        assert(roles@.take(roles@.len() as int) =~= roles@);
    }
    RoleCounts { harvesters, builders }
}

/// Picks the strategy a region's bases run under this tick, top priority
/// first: more harvesters while the region's travel-adjusted gathering
/// capacity is not saturated; otherwise more builders while fewer than half
/// the open build targets have one; otherwise nothing this tick.
pub fn spawn_strategy(counts: RoleCounts, energy_spots: u32, construction_sites: u32) -> (strategy:
    Option<SpawnStrategy>)
    ensures
        counts.harvesters < energy_spots ==> strategy == Some(SpawnStrategy::CtrlrUpgrade),
        counts.harvesters >= energy_spots && counts.builders < construction_sites / 2 ==> strategy
            == Some(SpawnStrategy::Builders),
        counts.harvesters >= energy_spots && counts.builders >= construction_sites / 2
            ==> strategy is None,
{
    if counts.harvesters < energy_spots {
        Some(SpawnStrategy::CtrlrUpgrade)
    } else if counts.builders < construction_sites / 2 {
        Some(SpawnStrategy::Builders)
    } else {
        None
    }
}

/// Whether this tick runs the periodic pass that discards persisted records
/// of agents that no longer exist.
pub fn should_run_cleanup(time: u32) -> (run: bool)
    ensures
        run == (time % CLEANUP_INTERVAL == CLEANUP_PHASE),
{
    time % CLEANUP_INTERVAL == CLEANUP_PHASE
}

/// The records the cleanup pass discards: the stored names whose agent is no
/// longer alive, in stored order.
pub open spec fn stale_records(stored: Seq<CreepName>, alive: Seq<CreepName>) -> Seq<CreepName>
    decreases stored.len(),
{
    if stored.len() == 0 {
        Seq::empty()
    } else {
        let rest = stale_records(stored.drop_last(), alive);
        if !alive.contains(stored.last()) {
            rest.push(stored.last())
        } else {
            rest
        }
    }
}

/// A name comes out of the stale selection exactly when it is stored and its
/// agent is no longer alive.
pub proof fn lemma_stale_records_exact(stored: Seq<CreepName>, alive: Seq<CreepName>)
    ensures
        forall|name: CreepName| #[trigger]
            stale_records(stored, alive).contains(name) <==> stored.contains(name)
                && !alive.contains(name),
    decreases stored.len(),
{
    if stored.len() > 0 {
        lemma_stale_records_exact(stored.drop_last(), alive);
        let last = stored.last();
        let rest = stale_records(stored.drop_last(), alive);
        let stale = stale_records(stored, alive);
        assert forall|name: CreepName|
            stored.contains(name) && !alive.contains(name) implies #[trigger] stale.contains(
            name,
        ) by {
            if name == last {
                assert(stale == rest.push(last));
                assert(stale[stale.len() - 1] == name);
                assert(stale.contains(name));
            } else {
                let k = choose|k: int| 0 <= k < stored.len() && stored[k] == name;
                assert(stored.drop_last()[k] == name);
                assert(stored.drop_last().contains(name));
                assert(rest.contains(name));
                let j = choose|j: int| 0 <= j < rest.len() && rest[j] == name;
                assert(stale[j] == name);
                assert(stale.contains(name));
            }
        }
        assert forall|name: CreepName| #[trigger]
            stale.contains(name) implies stored.contains(name) && !alive.contains(name) by {
            let j = choose|j: int| 0 <= j < stale.len() && stale[j] == name;
            if !alive.contains(last) && j == stale.len() - 1 {
                assert(name == last);
                assert(stored[stored.len() - 1] == name);
                assert(stored.contains(name));
            } else {
                assert(rest[j] == name);
                assert(rest.contains(name));
                assert(stored.drop_last().contains(name));
                let k = choose|k: int|
                    0 <= k < stored.drop_last().len() && stored.drop_last()[k] == name;
                assert(stored[k] == name);
                assert(stored.contains(name));
            }
        }
    }
}

/// Selects the persisted agent records to discard: those whose name no
/// longer belongs to a live agent.
pub fn stale_creep_records(stored: &Vec<CreepName>, alive: &Vec<CreepName>) -> (stale: Vec<
    CreepName,
>)
    ensures
        stale@ == stale_records(stored@, alive@),
{
    let mut stale: Vec<CreepName> = Vec::new();
    let mut i: usize = 0;
    while i < stored.len()
        invariant
            0 <= i <= stored@.len(),
            stale@ == stale_records(stored@.take(i as int), alive@),
        decreases stored@.len() - i,
    {
        proof {
            assert(stored@.take(i + 1).drop_last() =~= stored@.take(i as int));
            assert(stored@.take(i + 1).last() == stored@[i as int]);
        }
        if !contains_name(alive, stored[i]) {
            stale.push(stored[i]);
        }
        proof {
            assert(stale@ =~= stale_records(stored@.take(i + 1), alive@));
        }
        i = i + 1;
    }
    proof {
        assert(stored@.take(stored@.len() as int) =~= stored@);
    }
    stale
}

} // verus!
