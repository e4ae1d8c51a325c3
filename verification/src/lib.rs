//! Orchestration engine for a pipeline of agents that turn a product request
//! into generated, built and smoke-tested backend code.
//!
//! The library holds every decision of the pipeline: the shared fact sheet,
//! the per-agent state machines, the manager that sequences them and the
//! bounded build, run, probe and retry loop. It performs no outside work
//! itself. Each agent is driven one event at a time: the caller performs the
//! action an agent asked for and hands back what happened.

pub mod apis;
pub mod helpers;
pub mod models;
