//! Orchestration of remote benchmark nodes: the per-node lifecycle state
//! machine, the bounded retry discipline of the dependency installer, and the
//! deterministic matrix of result files to collect.
//!
//! Every decision is a verified function on plain values. The caller performs
//! the remote work a machine asks for and hands back what happened.

pub mod batch;
pub mod collect;
pub mod grid;
pub mod install;
pub mod node;
pub mod orchestrator;
pub mod region;
pub mod runner;
pub mod setup;
pub mod text;
