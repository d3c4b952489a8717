//! Tick-scoped metrics: counters written by the other components during a
//! tick and read once at tick end. A single owned aggregator is passed
//! explicitly into everything that reports; its lifecycle is reset at tick
//! start, accumulate during the tick, snapshot at tick end. Nothing is
//! carried over silently.

use vstd::prelude::*;

verus! {

/// Name of one tick-scoped counter.
#[derive(Clone, Copy, PartialEq, Eq, Structural, Debug)]
pub enum MetricKey {
    /// Harvester agents created this tick.
    HarvesterCreeps,
    /// Builder agents created this tick.
    BuilderCreeps,
    /// Resource units delivered to home bases this tick.
    Energy,
}

/// The tick-scoped counter aggregate.
#[derive(Clone, Copy, PartialEq, Eq, Structural, Debug)]
pub struct Metrics {
    pub harvester_creeps: u32,
    pub builder_creeps: u32,
    pub energy: u32,
}

impl Metrics {
    /// Value of the counter named by `key`.
    pub open spec fn spec_count(self, key: MetricKey) -> u32 {
        match key {
            MetricKey::HarvesterCreeps => self.harvester_creeps,
            MetricKey::BuilderCreeps => self.builder_creeps,
            MetricKey::Energy => self.energy,
        }
    }

    /// A fresh aggregate, every counter zero.
    pub fn init() -> (m: Metrics)
        ensures
            forall|key: MetricKey| m.spec_count(key) == 0,
    {
        Metrics { harvester_creeps: 0, builder_creeps: 0, energy: 0 }
    }

    /// Steps the aggregate to the next tick: every counter returns to zero,
    /// whatever it had accumulated.
    pub fn tick(&mut self)
        ensures
            *final(self) == ticked(*old(self)),
            forall|key: MetricKey| final(self).spec_count(key) == 0,
    {
        self.harvester_creeps = 0;
        self.builder_creeps = 0;
        self.energy = 0;
    }
}

/// Builds the aggregate a tick-driving collaborator owns for the whole run.
pub fn init_metrics() -> (m: Metrics)
    ensures
        forall|key: MetricKey| m.spec_count(key) == 0,
{
    Metrics::init()
}

/// Resets the counters at a tick boundary.
pub fn tick_metrics(metrics: &mut Metrics)
    ensures
        *final(metrics) == ticked(*old(metrics)),
        forall|key: MetricKey| final(metrics).spec_count(key) == 0,
{
    metrics.tick();
}

/// Adds `val` to the counter named by `key`, leaving every other counter
/// unchanged.
pub fn inc_count(metrics: &mut Metrics, key: MetricKey, val: u32)
    requires
        old(metrics).spec_count(key) + val <= u32::MAX,
    ensures
        final(metrics).spec_count(key) == old(metrics).spec_count(key) + val,
        forall|other: MetricKey|
            other != key ==> final(metrics).spec_count(other) == old(metrics).spec_count(other),
{
    match key {
        MetricKey::HarvesterCreeps => {
            metrics.harvester_creeps = metrics.harvester_creeps + val;
        },
        MetricKey::BuilderCreeps => {
            metrics.builder_creeps = metrics.builder_creeps + val;
        },
        MetricKey::Energy => {
            metrics.energy = metrics.energy + val;
        },
    }
}

/// Records `count` harvester agents created this tick.
pub fn inc_harvesters(metrics: &mut Metrics, count: u32)
    requires
        old(metrics).harvester_creeps + count <= u32::MAX,
    ensures
        final(metrics).spec_count(MetricKey::HarvesterCreeps) == old(metrics).spec_count(
            MetricKey::HarvesterCreeps,
        ) + count,
        forall|other: MetricKey|
            other != MetricKey::HarvesterCreeps ==> final(metrics).spec_count(other) == old(
                metrics,
            ).spec_count(other),
{
    inc_count(metrics, MetricKey::HarvesterCreeps, count);
}

/// Records `count` builder agents created this tick.
pub fn inc_builders(metrics: &mut Metrics, count: u32)
    requires
        old(metrics).builder_creeps + count <= u32::MAX,
    ensures
        final(metrics).spec_count(MetricKey::BuilderCreeps) == old(metrics).spec_count(
            MetricKey::BuilderCreeps,
        ) + count,
        forall|other: MetricKey|
            other != MetricKey::BuilderCreeps ==> final(metrics).spec_count(other) == old(
                metrics,
            ).spec_count(other),
{
    inc_count(metrics, MetricKey::BuilderCreeps, count);
}

/// Records `count` resource units delivered to a home base this tick.
pub fn inc_energy(metrics: &mut Metrics, count: u32)
    requires
        old(metrics).energy + count <= u32::MAX,
    ensures
        final(metrics).spec_count(MetricKey::Energy) == old(metrics).spec_count(MetricKey::Energy)
            + count,
        forall|other: MetricKey|
            other != MetricKey::Energy ==> final(metrics).spec_count(other) == old(
                metrics,
            ).spec_count(other),
{
    inc_count(metrics, MetricKey::Energy, count);
}

/// End-of-tick report: each counter paired with its name, in a fixed order,
/// for a reporting collaborator to print or archive.
pub fn log(metrics: &Metrics) -> (report: Vec<(MetricKey, u32)>)
    ensures
        report@ =~= seq![
            (MetricKey::HarvesterCreeps, metrics.harvester_creeps),
            (MetricKey::BuilderCreeps, metrics.builder_creeps),
            (MetricKey::Energy, metrics.energy),
        ],
{
    let mut report: Vec<(MetricKey, u32)> = Vec::new();
    report.push((MetricKey::HarvesterCreeps, metrics.harvester_creeps));
    report.push((MetricKey::BuilderCreeps, metrics.builder_creeps));
    report.push((MetricKey::Energy, metrics.energy));
    report
}

/// Resetting at a tick boundary leaves no trace of the prior tick: whatever
/// two aggregates accumulated, stepping each to the next tick yields the
/// same all-zero counters.
pub proof fn lemma_tick_reset_forgets_history(before_a: Metrics, before_b: Metrics)
    ensures
        forall|key: MetricKey| ticked(before_a).spec_count(key) == 0,
        ticked(before_a) == ticked(before_b),
{
    assert(ticked(before_a) =~= ticked(before_b));
}

/// The aggregate `Metrics::tick` leaves behind, whatever it started from.
pub open spec fn ticked(m: Metrics) -> Metrics {
    Metrics { harvester_creeps: 0, builder_creeps: 0, energy: 0 }
}

} // verus!
