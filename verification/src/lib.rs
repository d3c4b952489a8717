//! Decision core of a tick-driven worker-agent simulation.
//!
//! Each tick, the core advances every worker agent through its task state
//! machine, decides whether a home base should create new agents, and
//! aggregates tick-scoped metrics. The surrounding simulation (world queries,
//! movement, action capabilities, persistence) is a collaborator: it senses
//! the world into the plain data types defined here, runs the decision
//! functions, performs the commands they return, and feeds the result codes
//! back in.

pub mod builder;
pub mod harvester;
pub mod metrics;
pub mod roomctl;
pub mod source;
pub mod tick;
pub mod types;
