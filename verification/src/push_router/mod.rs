//! Routing of requests to workers, with sticky sessions and their migration.

pub mod config;
pub mod decision;
pub mod decision_results;
pub mod direct;
pub mod dispatch;
pub mod error;
pub mod gate;
pub mod gate_results;
pub mod laws;
pub mod migration;
pub mod prefill;
pub mod router;
pub mod selection;
pub mod selection_results;
