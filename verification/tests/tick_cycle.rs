use screepsctl::metrics::{
    inc_count, inc_energy, inc_harvesters, init_metrics, log, tick_metrics, MetricKey, Metrics,
};
use screepsctl::tick::{count_roles, should_run_cleanup, stale_creep_records};
use screepsctl::types::{CreepName, Role};

#[test]
fn metrics_start_at_zero() {
    let m = init_metrics();
    assert_eq!(m, Metrics { harvester_creeps: 0, builder_creeps: 0, energy: 0 });
}

#[test]
fn counters_accumulate_within_a_tick() {
    let mut m = init_metrics();
    inc_harvesters(&mut m, 1);
    inc_harvesters(&mut m, 2);
    inc_energy(&mut m, 40);
    inc_count(&mut m, MetricKey::BuilderCreeps, 5);
    assert_eq!(m.harvester_creeps, 3);
    assert_eq!(m.builder_creeps, 5);
    assert_eq!(m.energy, 40);
}

#[test]
fn tick_reset_forgets_the_prior_tick() {
    // whatever accumulated, the next tick starts from zero
    let mut m = init_metrics();
    inc_harvesters(&mut m, 7);
    inc_energy(&mut m, 900);
    tick_metrics(&mut m);
    assert_eq!(m, Metrics { harvester_creeps: 0, builder_creeps: 0, energy: 0 });

    // resetting an already-reset aggregate changes nothing
    tick_metrics(&mut m);
    assert_eq!(m, Metrics { harvester_creeps: 0, builder_creeps: 0, energy: 0 });
}

#[test]
fn end_of_tick_report_lists_every_counter() {
    let mut m = init_metrics();
    inc_energy(&mut m, 12);
    let report = log(&m);
    assert_eq!(
        report,
        vec![
            (MetricKey::HarvesterCreeps, 0),
            (MetricKey::BuilderCreeps, 0),
            (MetricKey::Energy, 12),
        ]
    );
}

#[test]
fn roles_are_counted_while_agents_run() {
    let roles = vec![
        Role::Harvester,
        Role::Builder,
        Role::Harvester,
        Role::Harvester,
    ];
    let counts = count_roles(&roles);
    assert_eq!(counts.harvesters, 3);
    assert_eq!(counts.builders, 1);
}

#[test]
fn cleanup_runs_on_its_fixed_cadence() {
    assert!(should_run_cleanup(3));
    assert!(should_run_cleanup(35));
    assert!(should_run_cleanup(3 + 32 * 100));
    assert!(!should_run_cleanup(0));
    assert!(!should_run_cleanup(4));
    assert!(!should_run_cleanup(32));
}

#[test]
fn cleanup_discards_exactly_the_dead_records() {
    let stored = vec![
        CreepName { base: 1, suffix: 0 },
        CreepName { base: 2, suffix: 0 },
        CreepName { base: 2, suffix: 1 },
        CreepName { base: 3, suffix: 0 },
    ];
    let alive = vec![CreepName { base: 2, suffix: 0 }];
    let stale = stale_creep_records(&stored, &alive);
    assert_eq!(
        stale,
        vec![
            CreepName { base: 1, suffix: 0 },
            CreepName { base: 2, suffix: 1 },
            CreepName { base: 3, suffix: 0 },
        ]
    );

    let none_alive: Vec<CreepName> = Vec::new();
    assert_eq!(stale_creep_records(&stored, &none_alive), stored);
    assert_eq!(stale_creep_records(&none_alive, &alive), none_alive);
}
