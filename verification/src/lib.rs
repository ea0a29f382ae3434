//! The compaction manager of a collection store: it starts up from a service
//! configuration, runs the compaction jobs that a scheduler hands out, and
//! schedules itself again.
//!
//! The manager decides; the services around it (log, system database, storage,
//! index providers, dispatcher, scheduler, orchestrator) are reached by whoever
//! drives it. Each piece of work that waits for a service is a step function from
//! a state and an event to the next state and the request to carry out.

pub mod backend;
pub mod batch;
pub mod collection;
pub mod config;
pub mod error;
pub mod handler;
pub mod interval;
pub mod job;
pub mod laws;
pub mod manager;
pub mod message;
pub mod startup;
