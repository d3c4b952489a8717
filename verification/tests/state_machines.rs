use screepsctl::builder::{
    run_basic_builder, BuilderCommand, BuilderDecision, BuilderSensed, BuilderState, BuilderTask,
};
use screepsctl::harvester::{
    run_basic_harvester, state_from_flags, to_task_flags, Command, HarvesterSensed, HarvesterState,
    SourceInfo, TargetStatus,
};
use screepsctl::types::{ActionResult, BaseInfo, StoreInfo};

fn source(id: u64, free_spots: i64, adjacent: bool) -> SourceInfo {
    SourceInfo { id, free_spots, adjacent }
}

fn low_base() -> Option<BaseInfo> {
    // stockpile below half, with room
    Some(BaseInfo { current: 100, capacity: 300, free: 200 })
}

fn sensed(store: StoreInfo, sources: Vec<SourceInfo>) -> HarvesterSensed {
    HarvesterSensed { store, sources, target: None, base: low_base(), has_upgrade_target: true }
}

#[test]
fn full_gatherer_leaves_gathering_within_the_tick() {
    let w = sensed(StoreInfo { used: 50, free: 0 }, vec![source(7, 3, false)]);
    let d = run_basic_harvester(HarvesterState::Gathering { target: 7 }, &w);
    assert!(!matches!(d.state, HarvesterState::Gathering { .. }));
    assert_eq!(d.state, HarvesterState::DeliveringToBase);
    assert_eq!(d.command, Some(Command::TransferToBase));
}

#[test]
fn empty_idle_agent_starts_gathering_at_best_source() {
    let w = sensed(
        StoreInfo { used: 0, free: 50 },
        vec![source(1, 2, false), source(2, 5, false), source(3, 5, true)],
    );
    let d = run_basic_harvester(HarvesterState::IdleDeciding, &w);
    // source 2 has the most free spots; the tie with source 3 goes to the
    // first encountered
    assert_eq!(d.state, HarvesterState::Gathering { target: 2 });
    assert_eq!(d.command, Some(Command::MoveToSource(2)));
}

#[test]
fn empty_idle_agent_without_sources_stays_idle() {
    let w = sensed(StoreInfo { used: 0, free: 50 }, Vec::new());
    let d = run_basic_harvester(HarvesterState::IdleDeciding, &w);
    assert_eq!(d.state, HarvesterState::IdleDeciding);
    assert_eq!(d.command, None);
}

#[test]
fn empty_deliverer_reselects_a_source() {
    let w = sensed(StoreInfo { used: 0, free: 50 }, vec![source(9, 1, true)]);
    let d = run_basic_harvester(HarvesterState::DeliveringToBase, &w);
    assert_eq!(d.state, HarvesterState::Gathering { target: 9 });
    // the freshly chosen node is adjacent, so the same tick harvests
    assert_eq!(d.command, Some(Command::Harvest(9)));
}

#[test]
fn gatherer_moves_until_adjacent_then_harvests() {
    let mut w = sensed(StoreInfo { used: 10, free: 40 }, vec![source(4, 2, false)]);
    w.target = Some(TargetStatus { adjacent: false });
    let d = run_basic_harvester(HarvesterState::Gathering { target: 4 }, &w);
    assert_eq!(d.state, HarvesterState::Gathering { target: 4 });
    assert_eq!(d.command, Some(Command::MoveToSource(4)));

    w.target = Some(TargetStatus { adjacent: true });
    let d = run_basic_harvester(HarvesterState::Gathering { target: 4 }, &w);
    assert_eq!(d.command, Some(Command::Harvest(4)));
}

#[test]
fn unresolvable_target_clears_gathering_for_reselection() {
    let w = sensed(StoreInfo { used: 10, free: 40 }, vec![source(4, 2, false)]);
    let d = run_basic_harvester(HarvesterState::Gathering { target: 99 }, &w);
    assert_eq!(d.state, HarvesterState::IdleDeciding);
    assert_eq!(d.command, None);
}

#[test]
fn delivery_prefers_base_below_half_with_room() {
    let w = sensed(StoreInfo { used: 50, free: 0 }, Vec::new());
    let d = run_basic_harvester(HarvesterState::IdleDeciding, &w);
    assert_eq!(d.state, HarvesterState::DeliveringToBase);
    assert_eq!(d.command, Some(Command::TransferToBase));
}

#[test]
fn delivery_goes_to_upgrade_when_base_is_half_full() {
    let mut w = sensed(StoreInfo { used: 50, free: 0 }, Vec::new());
    w.base = Some(BaseInfo { current: 150, capacity: 300, free: 150 });
    let d = run_basic_harvester(HarvesterState::IdleDeciding, &w);
    assert_eq!(d.state, HarvesterState::DeliveringToUpgrade);
    assert_eq!(d.command, Some(Command::UpgradeController));
}

#[test]
fn delivery_waits_when_no_sink_exists() {
    let mut w = sensed(StoreInfo { used: 50, free: 0 }, Vec::new());
    w.base = Some(BaseInfo { current: 200, capacity: 300, free: 100 });
    w.has_upgrade_target = false;
    let d = run_basic_harvester(HarvesterState::IdleDeciding, &w);
    assert_eq!(d.state, HarvesterState::IdleDeciding);
    assert_eq!(d.command, None);
}

#[test]
fn vanished_upgrade_target_returns_to_deciding() {
    let mut w = sensed(StoreInfo { used: 30, free: 20 }, Vec::new());
    w.has_upgrade_target = false;
    let d = run_basic_harvester(HarvesterState::DeliveringToUpgrade, &w);
    assert_eq!(d.state, HarvesterState::IdleDeciding);
    assert_eq!(d.command, None);
}

#[test]
fn exhausted_node_clears_gathering_instead_of_retrying() {
    let w = sensed(StoreInfo { used: 10, free: 40 }, vec![source(4, 2, true)]);
    let r = screepsctl::harvester::apply_action_result(
        HarvesterState::Gathering { target: 4 },
        Command::Harvest(4),
        ActionResult::InsufficientResource,
        &w,
    );
    assert_eq!(r.state, HarvesterState::IdleDeciding);
    assert_eq!(r.command, None);
}

#[test]
fn transfer_out_of_range_asks_for_a_move() {
    let w = sensed(StoreInfo { used: 50, free: 0 }, Vec::new());
    let r = screepsctl::harvester::apply_action_result(
        HarvesterState::DeliveringToBase,
        Command::TransferToBase,
        ActionResult::NotInRange,
        &w,
    );
    assert_eq!(r.state, HarvesterState::DeliveringToBase);
    assert_eq!(r.command, Some(Command::MoveToBase));
    assert_eq!(r.delivered, 0);
}

#[test]
fn full_base_reroutes_to_upgrade_in_the_same_tick() {
    let w = sensed(StoreInfo { used: 50, free: 0 }, Vec::new());
    let r = screepsctl::harvester::apply_action_result(
        HarvesterState::DeliveringToBase,
        Command::TransferToBase,
        ActionResult::TargetFull,
        &w,
    );
    assert_eq!(r.state, HarvesterState::DeliveringToUpgrade);
    assert_eq!(r.command, Some(Command::UpgradeController));
}

#[test]
fn successful_transfer_reports_the_delivered_load() {
    let w = sensed(StoreInfo { used: 37, free: 13 }, Vec::new());
    let r = screepsctl::harvester::apply_action_result(
        HarvesterState::DeliveringToBase,
        Command::TransferToBase,
        ActionResult::Success,
        &w,
    );
    assert_eq!(r.state, HarvesterState::DeliveringToBase);
    assert_eq!(r.command, None);
    assert_eq!(r.delivered, 37);
}

#[test]
fn task_flags_are_mutually_exclusive_and_round_trip() {
    let states = [
        HarvesterState::IdleDeciding,
        HarvesterState::Gathering { target: 11 },
        HarvesterState::DeliveringToBase,
        HarvesterState::DeliveringToUpgrade,
    ];
    for state in states {
        let flags = to_task_flags(state);
        let set = [flags.harvesting, flags.move_to_spawn, flags.move_to_controller];
        assert!(set.iter().filter(|b| **b).count() <= 1);
        assert_eq!(state_from_flags(flags), state);
    }
}

fn builder_sensed(store: StoreInfo, sites: Vec<u64>, target_valid: bool) -> BuilderSensed {
    BuilderSensed { store, sites, target_valid, base: Some(BaseInfo { current: 280, capacity: 300, free: 20 }) }
}

#[test]
fn full_builder_builds_at_first_open_site() {
    let w = builder_sensed(StoreInfo { used: 50, free: 0 }, vec![21, 22], false);
    let d = run_basic_builder(BuilderState { task: BuilderTask::Collecting, target: None }, &w);
    assert_eq!(
        d,
        BuilderDecision {
            state: BuilderState { task: BuilderTask::Building, target: Some(21) },
            command: Some(BuilderCommand::Build(21)),
        }
    );
}

#[test]
fn builder_keeps_a_valid_assignment() {
    let w = builder_sensed(StoreInfo { used: 30, free: 20 }, vec![21, 22], true);
    let d = run_basic_builder(BuilderState { task: BuilderTask::Building, target: Some(22) }, &w);
    assert_eq!(d.state.target, Some(22));
    assert_eq!(d.command, Some(BuilderCommand::Build(22)));
}

#[test]
fn builder_without_sites_waits_on_the_building_task() {
    let w = builder_sensed(StoreInfo { used: 50, free: 0 }, Vec::new(), false);
    let d = run_basic_builder(BuilderState { task: BuilderTask::Building, target: None }, &w);
    assert_eq!(d.state, BuilderState { task: BuilderTask::Building, target: None });
    assert_eq!(d.command, None);
}

#[test]
fn finished_site_clears_assignment_but_keeps_building() {
    let d = screepsctl::builder::apply_action_result(
        BuilderState { task: BuilderTask::Building, target: Some(21) },
        BuilderCommand::Build(21),
        ActionResult::InvalidTarget,
    );
    assert_eq!(d.state, BuilderState { task: BuilderTask::Building, target: None });
    assert_eq!(d.command, None);
}

#[test]
fn builder_out_of_resource_turns_to_collecting() {
    let d = screepsctl::builder::apply_action_result(
        BuilderState { task: BuilderTask::Building, target: Some(21) },
        BuilderCommand::Build(21),
        ActionResult::InsufficientResource,
    );
    assert_eq!(d.state.task, BuilderTask::Collecting);
    assert_eq!(d.state.target, Some(21));
}

#[test]
fn empty_builder_collects_when_base_holds_the_buffer() {
    let w = builder_sensed(StoreInfo { used: 0, free: 50 }, vec![21], false);
    let d = run_basic_builder(BuilderState { task: BuilderTask::Building, target: Some(21) }, &w);
    assert_eq!(d.state.task, BuilderTask::Collecting);
    assert_eq!(d.command, Some(BuilderCommand::WithdrawFromBase));
}

#[test]
fn collecting_builder_waits_while_base_lacks_the_buffer() {
    let mut w = builder_sensed(StoreInfo { used: 0, free: 50 }, Vec::new(), false);
    w.base = Some(BaseInfo { current: 100, capacity: 300, free: 200 });
    let d = run_basic_builder(BuilderState { task: BuilderTask::Collecting, target: None }, &w);
    assert_eq!(d.command, None);
    assert_eq!(d.state.task, BuilderTask::Collecting);
}

#[test]
fn successful_withdrawal_turns_to_building() {
    let d = screepsctl::builder::apply_action_result(
        BuilderState { task: BuilderTask::Collecting, target: None },
        BuilderCommand::WithdrawFromBase,
        ActionResult::Success,
    );
    assert_eq!(d.state.task, BuilderTask::Building);
    assert_eq!(d.command, None);
}

#[test]
fn withdrawal_out_of_range_asks_for_a_move() {
    let d = screepsctl::builder::apply_action_result(
        BuilderState { task: BuilderTask::Collecting, target: None },
        BuilderCommand::WithdrawFromBase,
        ActionResult::NotInRange,
    );
    assert_eq!(d.command, Some(BuilderCommand::MoveToBase));
}
