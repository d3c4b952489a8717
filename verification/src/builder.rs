//! Task state machine of the builder role.
//!
//! A builder alternates between collecting resource from the home base and
//! spending it on build targets. Once per tick the simulation senses the
//! world into a [`BuilderSensed`], calls [`run_basic_builder`] for the
//! decision, performs the returned command, and feeds the result code to
//! [`apply_action_result`].

use vstd::prelude::*;

use crate::types::{
    parts_cost, ActionResult, BaseInfo, BasicBuilder, CreationRequest, CreepInfo, CreepName,
    Deferred, Role, StoreInfo,
};

verus! {

/// Minimum free stockpile room under which the home base counts as holding a
/// buffer a builder may draw from: with less than this much room free, the
/// base is nearly full and can spare the resource.
pub const COLLECT_BUFFER: u32 = 50;

/// Everything the builder state machine reads from the live world for one
/// agent on one tick.
#[derive(Debug)]
pub struct BuilderSensed {
    /// The agent's carried storage.
    pub store: StoreInfo,
    /// Open build targets of the region, in discovery order.
    pub sites: Vec<u64>,
    /// Whether the persisted build target still resolves to a live site.
    pub target_valid: bool,
    /// The agent's home base stockpile; `None` when the region has no base.
    pub base: Option<BaseInfo>,
}

/// Which task the builder is on.
#[derive(Clone, Copy, PartialEq, Eq, Structural, Debug)]
pub enum BuilderTask {
    /// Spending the carried load on a build target.
    Building,
    /// Drawing resource from the home base.
    Collecting,
}

/// The builder's persistent state: its task and the build target it is
/// assigned to, if any. The assignment survives a collecting phase.
#[derive(Clone, Copy, PartialEq, Eq, Debug)]
pub struct BuilderState {
    pub task: BuilderTask,
    pub target: Option<u64>,
}

/// A command the simulation performs on the builder's behalf.
#[derive(Clone, Copy, PartialEq, Eq, Structural, Debug)]
pub enum BuilderCommand {
    /// Move toward the build target with this identity.
    MoveToSite(u64),
    /// Spend carried resource on the build target with this identity.
    Build(u64),
    /// Draw resource from the home base.
    WithdrawFromBase,
    /// Move toward the home base.
    MoveToBase,
}

/// Rank used to bound same-tick follow-ups, as for the harvester: a reaction
/// only ever emits a command of strictly smaller rank.
pub open spec fn builder_command_rank(command: BuilderCommand) -> int {
    match command {
        BuilderCommand::Build(_) => 1,
        BuilderCommand::WithdrawFromBase => 1,
        BuilderCommand::MoveToSite(_) => 0,
        BuilderCommand::MoveToBase => 0,
    }
}

/// A decision for one builder: the state to persist and the command, if any,
/// to perform now.
#[derive(Clone, Copy, PartialEq, Eq, Debug)]
pub struct BuilderDecision {
    pub state: BuilderState,
    pub command: Option<BuilderCommand>,
}

/// What the tick-by-tick decision is:
/// - full storage puts the builder on the building task, empty storage on
///   the collecting task; in between it stays where it was;
/// - while building, it keeps its assigned target if that still resolves,
///   otherwise takes the first open site in discovery order, and issues a
///   build attempt; with no site at all it waits;
/// - while collecting, it draws from the base when the base holds the
///   minimum buffer (less than [`COLLECT_BUFFER`] stockpile room free),
///   otherwise it waits.
pub open spec fn builder_model(state: BuilderState, sensed: BuilderSensed) -> BuilderDecision {
    let task = if sensed.store.free == 0 {
        BuilderTask::Building
    } else if sensed.store.used == 0 {
        BuilderTask::Collecting
    } else {
        state.task
    };
    if task is Building {
        building_step(state.target, sensed)
    } else {
        collecting_step(state.target, sensed)
    }
}

/// Building behavior: settle the target assignment, then attempt to build.
pub open spec fn building_step(target: Option<u64>, sensed: BuilderSensed) -> BuilderDecision {
    let assigned = if target is Some && sensed.target_valid {
        target
    } else if sensed.sites@.len() > 0 {
        Some(sensed.sites@[0])
    } else {
        None
    };
    match assigned {
        Some(site) => BuilderDecision {
            state: BuilderState { task: BuilderTask::Building, target: Some(site) },
            command: Some(BuilderCommand::Build(site)),
        },
        None => BuilderDecision {
            state: BuilderState { task: BuilderTask::Building, target: None },
            command: None,
        },
    }
}

/// Collecting behavior: draw from the base only when it holds the buffer.
pub open spec fn collecting_step(target: Option<u64>, sensed: BuilderSensed) -> BuilderDecision {
    let state = BuilderState { task: BuilderTask::Collecting, target };
    if sensed.base matches Some(b) && b.free < COLLECT_BUFFER {
        BuilderDecision { state, command: Some(BuilderCommand::WithdrawFromBase) }
    } else {
        BuilderDecision { state, command: None }
    }
}

/// What reacting to a result code does:
/// - a build against a vanished or finished site clears the assignment but
///   keeps the building task, so the next tick picks a replacement; one out
///   of range asks for a move toward the site; one out of resource puts the
///   builder on the collecting task;
/// - a withdrawal that succeeds puts the builder on the building task; one
///   out of range asks for a move toward the base;
/// - any other result changes nothing and is retried next tick.
pub open spec fn builder_react_model(
    state: BuilderState,
    command: BuilderCommand,
    result: ActionResult,
) -> BuilderDecision {
    match command {
        BuilderCommand::Build(site) => if result == ActionResult::InvalidTarget {
            BuilderDecision {
                state: BuilderState { task: state.task, target: None },
                command: None,
            }
        } else if result == ActionResult::NotInRange {
            BuilderDecision { state, command: Some(BuilderCommand::MoveToSite(site)) }
        } else if result == ActionResult::InsufficientResource {
            BuilderDecision {
                state: BuilderState { task: BuilderTask::Collecting, target: state.target },
                command: None,
            }
        } else {
            BuilderDecision { state, command: None }
        },
        BuilderCommand::WithdrawFromBase => if result == ActionResult::Success {
            BuilderDecision {
                state: BuilderState { task: BuilderTask::Building, target: state.target },
                command: None,
            }
        } else if result == ActionResult::NotInRange {
            BuilderDecision { state, command: Some(BuilderCommand::MoveToBase) }
        } else {
            BuilderDecision { state, command: None }
        },
        _ => BuilderDecision { state, command: None },
    }
}

/// Advances one builder by one tick: evaluates the transition rules on the
/// persisted state and the sensed world, returning the state to persist and
/// the command, if any, to perform now.
pub fn run_basic_builder(state: BuilderState, sensed: &BuilderSensed) -> (decision:
    BuilderDecision)
    ensures
        decision == builder_model(state, *sensed),
        decision.command matches Some(c) ==> builder_command_rank(c) <= 1,
{
    let task = if sensed.store.free == 0 {
        BuilderTask::Building
    } else if sensed.store.used == 0 {
        BuilderTask::Collecting
    } else {
        state.task
    };
    match task {
        BuilderTask::Building => {
            let assigned: Option<u64> = match state.target {
                Some(site) => if sensed.target_valid {
                    Some(site)
                } else if sensed.sites.len() > 0 {
                    Some(sensed.sites[0])
                } else {
                    None
                },
                None => if sensed.sites.len() > 0 {
                    Some(sensed.sites[0])
                } else {
                    None
                },
            };
            match assigned {
                Some(site) => BuilderDecision {
                    state: BuilderState { task: BuilderTask::Building, target: Some(site) },
                    command: Some(BuilderCommand::Build(site)),
                },
                None => BuilderDecision {
                    state: BuilderState { task: BuilderTask::Building, target: None },
                    command: None,
                },
            }
        },
        BuilderTask::Collecting => {
            let draws = match sensed.base {
                Some(b) => b.free < COLLECT_BUFFER,
                None => false,
            };
            let state = BuilderState { task: BuilderTask::Collecting, target: state.target };
            if draws {
                BuilderDecision { state, command: Some(BuilderCommand::WithdrawFromBase) }
            } else {
                BuilderDecision { state, command: None }
            }
        },
    }
}

/// Reacts to the result code of a performed command: returns the state to
/// persist and at most one follow-up command of strictly smaller rank.
pub fn apply_action_result(
    state: BuilderState,
    command: BuilderCommand,
    result: ActionResult,
) -> (decision: BuilderDecision)
    ensures
        decision == builder_react_model(state, command, result),
        decision.command matches Some(next) ==> builder_command_rank(next) < builder_command_rank(
            command,
        ),
{
    match command {
        BuilderCommand::Build(site) => {
            if result == ActionResult::InvalidTarget {
                BuilderDecision {
                    state: BuilderState { task: state.task, target: None },
                    command: None,
                }
            } else if result == ActionResult::NotInRange {
                BuilderDecision { state, command: Some(BuilderCommand::MoveToSite(site)) }
            } else if result == ActionResult::InsufficientResource {
                BuilderDecision {
                    state: BuilderState { task: BuilderTask::Collecting, target: state.target },
                    command: None,
                }
            } else {
                BuilderDecision { state, command: None }
            }
        },
        BuilderCommand::WithdrawFromBase => {
            if result == ActionResult::Success {
                BuilderDecision {
                    state: BuilderState { task: BuilderTask::Building, target: state.target },
                    command: None,
                }
            } else if result == ActionResult::NotInRange {
                BuilderDecision { state, command: Some(BuilderCommand::MoveToBase) }
            } else {
                BuilderDecision { state, command: None }
            }
        },
        _ => BuilderDecision { state, command: None },
    }
}

/// Requests the creation of a basic builder from the given home base: a
/// creation request named `name_base` with suffix 0 when the stockpile can
/// pay the loadout cost, and the deferred insufficient-resource condition
/// otherwise. Deciding a free name against the live world is the caller's
/// loop over [`crate::roomctl::next_spawn_name`].
pub fn spawn_basic_builder(spawn: &BaseInfo, name_base: u64) -> (request: Result<
    CreationRequest,
    Deferred,
>)
    ensures
        request is Ok <==> spawn.current >= parts_cost(BasicBuilder::spec_parts()),
        request matches Ok(req) ==> req.role == Role::Builder && req.name == (CreepName {
            base: name_base,
            suffix: 0,
        }) && req.parts@ == BasicBuilder::spec_parts(),
        request matches Err(d) ==> d == (Deferred::InsufficientResource {
            required: parts_cost(BasicBuilder::spec_parts()) as u32,
            available: spawn.current,
        }),
{
    let cost = BasicBuilder::cost();
    if spawn.current >= cost {
        Ok(
            CreationRequest {
                role: BasicBuilder::role(),
                name: CreepName { base: name_base, suffix: 0 },
                parts: BasicBuilder::parts(),
            },
        )
    } else {
        Err(Deferred::InsufficientResource { required: cost, available: spawn.current })
    }
}

/// Full storage always puts the builder on the building task, and empty
/// storage always on the collecting task, whatever it was doing before
/// (storage with room for more than it holds cannot be both).
pub proof fn lemma_storage_drives_task(state: BuilderState, sensed: BuilderSensed)
    ensures
        sensed.store.free == 0 ==> builder_model(state, sensed).state.task is Building,
        sensed.store.free > 0 && sensed.store.used == 0 ==> builder_model(
            state,
            sensed,
        ).state.task is Collecting,
{
}

} // verus!
