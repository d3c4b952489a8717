//! Task state machine of the harvester role.
//!
//! A harvester cycles through gathering at a resource node, delivering to its
//! home base, and delivering to the region's upgrade target. The state is
//! persisted between ticks; once per tick the simulation senses the world
//! into a [`HarvesterSensed`], calls [`run_basic_harvester`] for the agent's
//! decision, performs the returned command, and feeds the result code to
//! [`apply_action_result`], which may hand back one bounded follow-up
//! command (same-tick rerouting).

use vstd::prelude::*;

use crate::types::{
    parts_cost, ActionResult, BaseInfo, BasicHarvester, CreationRequest, CreepInfo, CreepName,
    Deferred, Role, StoreInfo,
};

verus! {

/// One resource node as sensed from an agent's region, in the region's
/// stable enumeration order.
#[derive(Clone, Copy, PartialEq, Eq, Structural, Debug)]
pub struct SourceInfo {
    /// Opaque identity of the node.
    pub id: u64,
    /// Free gathering spots around the node (may be negative when
    /// overcrowded).
    pub free_spots: i64,
    /// Whether the agent currently stands next to the node.
    pub adjacent: bool,
}

/// Resolution of the agent's persisted gathering target.
#[derive(Clone, Copy, PartialEq, Eq, Structural, Debug)]
pub struct TargetStatus {
    /// Whether the agent currently stands next to the target.
    pub adjacent: bool,
}

/// Everything the harvester state machine reads from the live world for one
/// agent on one tick.
#[derive(Debug)]
pub struct HarvesterSensed {
    /// The agent's carried storage.
    pub store: StoreInfo,
    /// All resource nodes of the agent's region, in stable enumeration order.
    pub sources: Vec<SourceInfo>,
    /// Resolution of the persisted gathering target; `None` when the target
    /// no longer resolves to a live node.
    pub target: Option<TargetStatus>,
    /// The agent's home base stockpile; `None` when the region has no base
    /// (a reported anomaly, never fatal).
    pub base: Option<BaseInfo>,
    /// Whether the region has a valid upgrade target.
    pub has_upgrade_target: bool,
}

/// The harvester's persistent task state. Exactly one state holds at every
/// evaluation boundary.
#[derive(Clone, Copy, PartialEq, Eq, Structural, Debug)]
pub enum HarvesterState {
    /// No task flag set: the next tick decides what to do.
    IdleDeciding,
    /// Gathering at the recorded resource node.
    Gathering { target: u64 },
    /// Carrying the load to the home base.
    DeliveringToBase,
    /// Carrying the load to the upgrade target.
    DeliveringToUpgrade,
}

/// The independent boolean fields the persistence collaborator stores. The
/// state machine works on [`HarvesterState`]; these flags exist only at the
/// persistence boundary.
#[derive(Clone, Copy, PartialEq, Eq, Debug)]
pub struct TaskFlags {
    pub harvesting: bool,
    pub move_to_spawn: bool,
    pub move_to_controller: bool,
    /// Persisted target reference, if any.
    pub dest_id: Option<u64>,
}

/// Serialization of a task state into persisted flags.
pub open spec fn flags_of(state: HarvesterState) -> TaskFlags {
    match state {
        HarvesterState::IdleDeciding => TaskFlags {
            harvesting: false,
            move_to_spawn: false,
            move_to_controller: false,
            dest_id: None,
        },
        HarvesterState::Gathering { target } => TaskFlags {
            harvesting: true,
            move_to_spawn: false,
            move_to_controller: false,
            dest_id: Some(target),
        },
        HarvesterState::DeliveringToBase => TaskFlags {
            harvesting: false,
            move_to_spawn: true,
            move_to_controller: false,
            dest_id: None,
        },
        HarvesterState::DeliveringToUpgrade => TaskFlags {
            harvesting: false,
            move_to_spawn: false,
            move_to_controller: true,
            dest_id: None,
        },
    }
}

/// How many task flags are set.
pub open spec fn task_flag_count(flags: TaskFlags) -> int {
    (if flags.harvesting {
        1int
    } else {
        0int
    }) + (if flags.move_to_spawn {
        1int
    } else {
        0int
    }) + (if flags.move_to_controller {
        1int
    } else {
        0int
    })
}

/// Decoding of persisted flags back into a task state. A harvesting flag
/// without a stored target is unusable and decodes to the deciding state, as
/// does any record with no flag set.
pub open spec fn state_of_flags(flags: TaskFlags) -> HarvesterState {
    if flags.harvesting && flags.dest_id is Some {
        HarvesterState::Gathering { target: flags.dest_id->0 }
    } else if flags.harvesting {
        HarvesterState::IdleDeciding
    } else if flags.move_to_spawn {
        HarvesterState::DeliveringToBase
    } else if flags.move_to_controller {
        HarvesterState::DeliveringToUpgrade
    } else {
        HarvesterState::IdleDeciding
    }
}

/// Serializes a task state into the flags the persistence collaborator
/// stores.
pub fn to_task_flags(state: HarvesterState) -> (flags: TaskFlags)
    ensures
        flags == flags_of(state),
{
    match state {
        HarvesterState::IdleDeciding => TaskFlags {
            harvesting: false,
            move_to_spawn: false,
            move_to_controller: false,
            dest_id: None,
        },
        HarvesterState::Gathering { target } => TaskFlags {
            harvesting: true,
            move_to_spawn: false,
            move_to_controller: false,
            dest_id: Some(target),
        },
        HarvesterState::DeliveringToBase => TaskFlags {
            harvesting: false,
            move_to_spawn: true,
            move_to_controller: false,
            dest_id: None,
        },
        HarvesterState::DeliveringToUpgrade => TaskFlags {
            harvesting: false,
            move_to_spawn: false,
            move_to_controller: true,
            dest_id: None,
        },
    }
}

/// Decodes persisted flags into a task state.
pub fn state_from_flags(flags: TaskFlags) -> (state: HarvesterState)
    ensures
        state == state_of_flags(flags),
{
    if flags.harvesting {
        match flags.dest_id {
            Some(target) => HarvesterState::Gathering { target },
            None => HarvesterState::IdleDeciding,
        }
    } else if flags.move_to_spawn {
        HarvesterState::DeliveringToBase
    } else if flags.move_to_controller {
        HarvesterState::DeliveringToUpgrade
    } else {
        HarvesterState::IdleDeciding
    }
}

/// A command the simulation performs on the harvester's behalf.
#[derive(Clone, Copy, PartialEq, Eq, Structural, Debug)]
pub enum Command {
    /// Move toward the resource node with this identity.
    MoveToSource(u64),
    /// Harvest from the adjacent resource node with this identity.
    Harvest(u64),
    /// Transfer the whole carried load to the home base.
    TransferToBase,
    /// Move toward the home base.
    MoveToBase,
    /// Spend the carried load on the region's upgrade target.
    UpgradeController,
    /// Move toward the upgrade target.
    MoveToUpgrade,
}

/// Rank used to bound same-tick rerouting: each follow-up command that
/// [`apply_action_result`] emits has a strictly smaller rank than the command
/// it reacts to, so a tick performs at most three commands per agent.
pub open spec fn command_rank(command: Command) -> int {
    match command {
        Command::TransferToBase => 2,
        Command::Harvest(_) => 1,
        Command::UpgradeController => 1,
        Command::MoveToSource(_) => 0,
        Command::MoveToBase => 0,
        Command::MoveToUpgrade => 0,
    }
}

/// A decision for one agent: the task state to persist and the command, if
/// any, to perform now.
#[derive(Clone, Copy, PartialEq, Eq, Debug)]
pub struct Decision {
    pub state: HarvesterState,
    pub command: Option<Command>,
}

/// Outcome of reacting to a command's result code: the task state to
/// persist, at most one follow-up command, and the resource units known to
/// have been delivered to the base (for the metrics aggregate).
#[derive(Clone, Copy, PartialEq, Eq, Debug)]
pub struct Reaction {
    pub state: HarvesterState,
    pub command: Option<Command>,
    pub delivered: u32,
}

/// First index of the resource node with the greatest number of free spots;
/// ties go to the node encountered first in the stable enumeration order.
pub open spec fn first_best_index(sources: Seq<SourceInfo>) -> int
    recommends
        sources.len() > 0,
    decreases sources.len(),
{
    if sources.len() <= 1 {
        0
    } else {
        let rest = first_best_index(sources.drop_first()) + 1;
        if sources[0].free_spots >= sources[rest].free_spots {
            0int
        } else {
            rest
        }
    }
}

/// `first_best_index` is in range, picks a maximal number of free spots, and
/// every earlier node offers strictly fewer.
pub proof fn lemma_first_best_index_props(sources: Seq<SourceInfo>)
    requires
        sources.len() > 0,
    ensures
        0 <= first_best_index(sources) < sources.len(),
        forall|j: int|
            0 <= j < sources.len() ==> (#[trigger] sources[j]).free_spots <= sources[first_best_index(
                sources,
            )].free_spots,
        forall|j: int|
            0 <= j < first_best_index(sources) ==> (#[trigger] sources[j]).free_spots
                < sources[first_best_index(sources)].free_spots,
    decreases sources.len(),
{
    if sources.len() > 1 {
        let tail = sources.drop_first();
        lemma_first_best_index_props(tail);
        assert(forall|j: int| 1 <= j < sources.len() ==> #[trigger] sources[j] == tail[j - 1]);
    }
}

/// What the tick-by-tick decision is, rule by rule:
/// 1. a full gatherer stops gathering and falls through to the delivery
///    decision in the same tick;
/// 2. an empty non-gatherer picks the node with the most free spots (first
///    one on ties), or stays deciding when the region has no node;
/// 3. a gatherer moves to its node until adjacent, then harvests; a target
///    that no longer resolves clears the state so the next tick reselects;
/// 4. a deciding agent with a load delivers to the base when the stockpile
///    is below half and has room, otherwise to the upgrade target when one
///    exists, otherwise it stays deciding and retries next tick;
/// 5. a base deliverer attempts the transfer;
/// 6. an upgrade deliverer attempts the upgrade, or returns to deciding when
///    the target has vanished.
pub open spec fn harvester_model(state: HarvesterState, sensed: HarvesterSensed) -> Decision {
    if state is Gathering && sensed.store.free == 0 {
        delivery_decision(sensed)
    } else if !(state is Gathering) && sensed.store.used == 0 {
        if sensed.sources@.len() == 0 {
            Decision { state: HarvesterState::IdleDeciding, command: None }
        } else {
            let chosen = sensed.sources@[first_best_index(sensed.sources@)];
            Decision {
                state: HarvesterState::Gathering { target: chosen.id },
                command: Some(
                    if chosen.adjacent {
                        Command::Harvest(chosen.id)
                    } else {
                        Command::MoveToSource(chosen.id)
                    },
                ),
            }
        }
    } else {
        match state {
            HarvesterState::IdleDeciding => delivery_decision(sensed),
            HarvesterState::Gathering { target } => gathering_step(target, sensed),
            HarvesterState::DeliveringToBase => Decision {
                state,
                command: Some(Command::TransferToBase),
            },
            HarvesterState::DeliveringToUpgrade => if sensed.has_upgrade_target {
                Decision { state, command: Some(Command::UpgradeController) }
            } else {
                Decision { state: HarvesterState::IdleDeciding, command: None }
            },
        }
    }
}

/// The delivery decision: base first when its stockpile is below half and
/// has free room, otherwise the upgrade target, otherwise keep deciding.
pub open spec fn delivery_decision(sensed: HarvesterSensed) -> Decision {
    if sensed.base matches Some(b) && b.current < b.capacity / 2 && b.free > 0 {
        Decision { state: HarvesterState::DeliveringToBase, command: Some(Command::TransferToBase) }
    } else if sensed.has_upgrade_target {
        Decision {
            state: HarvesterState::DeliveringToUpgrade,
            command: Some(Command::UpgradeController),
        }
    } else {
        Decision { state: HarvesterState::IdleDeciding, command: None }
    }
}

/// Gathering behavior toward the recorded target: move until adjacent, then
/// harvest; a target that no longer resolves clears the state.
pub open spec fn gathering_step(target: u64, sensed: HarvesterSensed) -> Decision {
    match sensed.target {
        Some(status) => Decision {
            state: HarvesterState::Gathering { target },
            command: Some(
                if status.adjacent {
                    Command::Harvest(target)
                } else {
                    Command::MoveToSource(target)
                },
            ),
        },
        None => Decision { state: HarvesterState::IdleDeciding, command: None },
    }
}

/// What reacting to a result code does:
/// - a harvest that reports an invalid or exhausted node clears the
///   gathering state, so the next tick reselects instead of retrying;
/// - a transfer that succeeds reports the delivered load; one out of range
///   asks for a move toward the base; a full base reroutes to the upgrade
///   target in the same tick;
/// - an upgrade out of range asks for a move; a vanished upgrade target
///   clears the state;
/// - any other result changes nothing and is retried next tick.
pub open spec fn harvester_react_model(
    state: HarvesterState,
    command: Command,
    result: ActionResult,
    sensed: HarvesterSensed,
) -> Reaction {
    match command {
        Command::Harvest(_) => if result == ActionResult::InvalidTarget || result
            == ActionResult::InsufficientResource {
            Reaction { state: HarvesterState::IdleDeciding, command: None, delivered: 0 }
        } else {
            Reaction { state, command: None, delivered: 0 }
        },
        Command::TransferToBase => if result == ActionResult::Success {
            Reaction { state, command: None, delivered: sensed.store.used }
        } else if result == ActionResult::NotInRange {
            Reaction { state, command: Some(Command::MoveToBase), delivered: 0 }
        } else if result == ActionResult::TargetFull {
            if sensed.has_upgrade_target {
                Reaction {
                    state: HarvesterState::DeliveringToUpgrade,
                    command: Some(Command::UpgradeController),
                    delivered: 0,
                }
            } else {
                Reaction { state: HarvesterState::IdleDeciding, command: None, delivered: 0 }
            }
        } else {
            Reaction { state, command: None, delivered: 0 }
        },
        Command::UpgradeController => if result == ActionResult::NotInRange {
            Reaction { state, command: Some(Command::MoveToUpgrade), delivered: 0 }
        } else if result == ActionResult::InvalidTarget {
            Reaction { state: HarvesterState::IdleDeciding, command: None, delivered: 0 }
        } else {
            Reaction { state, command: None, delivered: 0 }
        },
        _ => Reaction { state, command: None, delivered: 0 },
    }
}

/// Picks the resource node with the most free spots, first one on ties.
fn choose_source(sources: &Vec<SourceInfo>) -> (best: usize)
    requires
        sources@.len() > 0,
    ensures
        best == first_best_index(sources@),
        best < sources@.len(),
{
    let mut best: usize = 0;
    let mut j: usize = 1;
    proof {
        lemma_first_best_index_props(sources@.take(1));
        assert(sources@.take(1).len() == 1);
    }
    while j < sources.len()
        invariant
            1 <= j <= sources@.len(),
            best < j,
            best == first_best_index(sources@.take(j as int)),
        decreases sources@.len() - j,
    {
        proof {
            lemma_first_best_index_push(sources@.take(j as int), sources@[j as int]);
            assert(sources@.take(j as int).push(sources@[j as int]) =~= sources@.take(j + 1));
            lemma_first_best_index_props(sources@.take(j as int));
        }
        if sources[j].free_spots > sources[best].free_spots {
            best = j;
        }
        j = j + 1;
    }
    proof {
        assert(sources@.take(sources@.len() as int) =~= sources@);
    }
    best
}

/// Appending one node moves the first-best index to it exactly when it
/// offers strictly more free spots than the best so far.
proof fn lemma_first_best_index_push(sources: Seq<SourceInfo>, appended: SourceInfo)
    requires
        sources.len() > 0,
    ensures
        first_best_index(sources.push(appended)) == if appended.free_spots > sources[first_best_index(
            sources,
        )].free_spots {
            sources.len() as int
        } else {
            first_best_index(sources)
        },
    decreases sources.len(),
{
    lemma_first_best_index_props(sources);
    let grown = sources.push(appended);
    assert(grown[sources.len() as int] == appended);
    if sources.len() == 1 {
        assert(grown.drop_first() =~= seq![appended]);
        assert(first_best_index(seq![appended]) == 0);
        assert(first_best_index(grown) == if grown[0].free_spots >= grown[1].free_spots {
            0int
        } else {
            1int
        });
        assert(first_best_index(sources) == 0);
    } else {
        let tail = sources.drop_first();
        assert(grown.drop_first() =~= tail.push(appended));
        lemma_first_best_index_push(tail, appended);
        lemma_first_best_index_props(tail);
        assert(forall|j: int| 1 <= j < sources.len() ==> #[trigger] grown[j] == tail[j - 1]);
        let tail_best = first_best_index(tail);
        let rest = first_best_index(grown.drop_first()) + 1;
        assert(first_best_index(grown) == if grown[0].free_spots >= grown[rest].free_spots {
            0int
        } else {
            rest
        });
        assert(first_best_index(sources) == if sources[0].free_spots >= sources[tail_best
            + 1].free_spots {
            0int
        } else {
            tail_best + 1
        });
        assert(sources[tail_best + 1] == tail[tail_best]);
        if appended.free_spots > tail[tail_best].free_spots {
            assert(rest == sources.len() as int);
            assert(grown[rest] == appended);
        } else {
            assert(rest == tail_best + 1);
            assert(grown[rest] == tail[tail_best]);
        }
    }
}

/// Advances one harvester by one tick: evaluates the transition rules on the
/// persisted state and the sensed world, returning the state to persist and
/// the command, if any, to perform now.
pub fn run_basic_harvester(state: HarvesterState, sensed: &HarvesterSensed) -> (decision: Decision)
    ensures
        decision == harvester_model(state, *sensed),
        decision.command matches Some(c) ==> command_rank(c) <= 2,
{
    let gathering = match state {
        HarvesterState::Gathering { .. } => true,
        _ => false,
    };
    if gathering && sensed.store.free == 0 {
        decide_delivery(sensed)
    } else if !gathering && sensed.store.used == 0 {
        if sensed.sources.len() == 0 {
            Decision { state: HarvesterState::IdleDeciding, command: None }
        } else {
            let best = choose_source(&sensed.sources);
            let chosen = sensed.sources[best];
            Decision {
                state: HarvesterState::Gathering { target: chosen.id },
                command: Some(
                    if chosen.adjacent {
                        Command::Harvest(chosen.id)
                    } else {
                        Command::MoveToSource(chosen.id)
                    },
                ),
            }
        }
    } else {
        match state {
            HarvesterState::IdleDeciding => decide_delivery(sensed),
            HarvesterState::Gathering { target } => match sensed.target {
                Some(status) => Decision {
                    state: HarvesterState::Gathering { target },
                    command: Some(
                        if status.adjacent {
                            Command::Harvest(target)
                        } else {
                            Command::MoveToSource(target)
                        },
                    ),
                },
                None => Decision { state: HarvesterState::IdleDeciding, command: None },
            },
            HarvesterState::DeliveringToBase => Decision {
                state,
                command: Some(Command::TransferToBase),
            },
            HarvesterState::DeliveringToUpgrade => if sensed.has_upgrade_target {
                Decision { state, command: Some(Command::UpgradeController) }
            } else {
                Decision { state: HarvesterState::IdleDeciding, command: None }
            },
        }
    }
}

/// The executable delivery decision of rule 4.
fn decide_delivery(sensed: &HarvesterSensed) -> (decision: Decision)
    ensures
        decision == delivery_decision(*sensed),
{
    let base_takes_delivery = match sensed.base {
        Some(b) => b.current < b.capacity / 2 && b.free > 0,
        None => false,
    };
    if base_takes_delivery {
        Decision { state: HarvesterState::DeliveringToBase, command: Some(Command::TransferToBase) }
    } else if sensed.has_upgrade_target {
        Decision {
            state: HarvesterState::DeliveringToUpgrade,
            command: Some(Command::UpgradeController),
        }
    } else {
        Decision { state: HarvesterState::IdleDeciding, command: None }
    }
}

/// Reacts to the result code of a performed command: returns the state to
/// persist, at most one follow-up command of strictly smaller rank, and the
/// load known to have been delivered to the base.
pub fn apply_action_result(
    state: HarvesterState,
    command: Command,
    result: ActionResult,
    sensed: &HarvesterSensed,
) -> (reaction: Reaction)
    ensures
        reaction == harvester_react_model(state, command, result, *sensed),
        reaction.command matches Some(next) ==> command_rank(next) < command_rank(command),
{
    match command {
        Command::Harvest(_) => {
            if result == ActionResult::InvalidTarget || result
                == ActionResult::InsufficientResource {
                Reaction { state: HarvesterState::IdleDeciding, command: None, delivered: 0 }
            } else {
                Reaction { state, command: None, delivered: 0 }
            }
        },
        Command::TransferToBase => {
            if result == ActionResult::Success {
                Reaction { state, command: None, delivered: sensed.store.used }
            } else if result == ActionResult::NotInRange {
                Reaction { state, command: Some(Command::MoveToBase), delivered: 0 }
            } else if result == ActionResult::TargetFull {
                if sensed.has_upgrade_target {
                    Reaction {
                        state: HarvesterState::DeliveringToUpgrade,
                        command: Some(Command::UpgradeController),
                        delivered: 0,
                    }
                } else {
                    Reaction { state: HarvesterState::IdleDeciding, command: None, delivered: 0 }
                }
            } else {
                Reaction { state, command: None, delivered: 0 }
            }
        },
        Command::UpgradeController => {
            if result == ActionResult::NotInRange {
                Reaction { state, command: Some(Command::MoveToUpgrade), delivered: 0 }
            } else if result == ActionResult::InvalidTarget {
                Reaction { state: HarvesterState::IdleDeciding, command: None, delivered: 0 }
            } else {
                Reaction { state, command: None, delivered: 0 }
            }
        },
        _ => Reaction { state, command: None, delivered: 0 },
    }
}

/// A gatherer whose storage is full never stays in the gathering state: the
/// tick's decision moves it to a delivery state or back to deciding.
pub proof fn lemma_full_store_exits_gathering(state: HarvesterState, sensed: HarvesterSensed)
    requires
        state is Gathering,
        sensed.store.free == 0,
    ensures
        !(harvester_model(state, sensed).state is Gathering),
{
}

/// An empty agent with no task flag set ends the decision in the gathering
/// state whenever the region has a resource node at all, and stays deciding
/// exactly when it has none.
pub proof fn lemma_empty_idle_starts_gathering(sensed: HarvesterSensed)
    requires
        sensed.store.used == 0,
    ensures
        sensed.sources@.len() > 0 ==> harvester_model(
            HarvesterState::IdleDeciding,
            sensed,
        ).state is Gathering,
        sensed.sources@.len() == 0 ==> harvester_model(HarvesterState::IdleDeciding, sensed).state
            == HarvesterState::IdleDeciding,
{
}

/// Mutual exclusion of the persisted task flags: the serialization of any
/// task state sets at most one of {harvesting, move_to_spawn,
/// move_to_controller}. Every transition returns a task state, so no
/// sequence of transitions can ever persist two flags at once.
pub proof fn lemma_task_flags_exclusive(state: HarvesterState)
    ensures
        task_flag_count(flags_of(state)) <= 1,
{
}

/// Neither the per-tick decision nor the reaction to a result code can break
/// the flag exclusion: both hand back states whose serialization sets at
/// most one task flag.
pub proof fn lemma_transitions_keep_flag_exclusion(
    state: HarvesterState,
    command: Command,
    result: ActionResult,
    sensed: HarvesterSensed,
)
    ensures
        task_flag_count(flags_of(harvester_model(state, sensed).state)) <= 1,
        task_flag_count(flags_of(harvester_react_model(state, command, result, sensed).state))
            <= 1,
{
    lemma_task_flags_exclusive(harvester_model(state, sensed).state);
    lemma_task_flags_exclusive(harvester_react_model(state, command, result, sensed).state);
}

/// Decoding the persisted flags of a task state restores that state: the
/// persistence boundary loses nothing.
pub proof fn lemma_flags_round_trip(state: HarvesterState)
    ensures
        state_of_flags(flags_of(state)) == state,
{
}

/// Requests the creation of a basic harvester from the given home base: a
/// creation request named `name_base` with suffix 0 when the stockpile can
/// pay the loadout cost, and the deferred insufficient-resource condition
/// otherwise. Deciding a free name against the live world is the caller's
/// loop over [`crate::roomctl::next_spawn_name`].
pub fn spawn_basic_harvester(spawn: &BaseInfo, name_base: u64) -> (request: Result<
    CreationRequest,
    Deferred,
>)
    ensures
        request is Ok <==> spawn.current >= parts_cost(BasicHarvester::spec_parts()),
        request matches Ok(req) ==> req.role == Role::Harvester && req.name == (CreepName {
            base: name_base,
            suffix: 0,
        }) && req.parts@ == BasicHarvester::spec_parts(),
        request matches Err(d) ==> d == (Deferred::InsufficientResource {
            required: parts_cost(BasicHarvester::spec_parts()) as u32,
            available: spawn.current,
        }),
{
    let cost = BasicHarvester::cost();
    if spawn.current >= cost {
        Ok(
            CreationRequest {
                role: BasicHarvester::role(),
                name: CreepName { base: name_base, suffix: 0 },
                parts: BasicHarvester::parts(),
            },
        )
    } else {
        Err(Deferred::InsufficientResource { required: cost, available: spawn.current })
    }
}

} // verus!
