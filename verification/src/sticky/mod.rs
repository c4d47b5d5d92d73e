//! Sticky session routing.

pub mod coordinator;
pub mod laws;
pub mod results;
pub mod revisions;
pub mod router;
pub mod session_results;
pub mod state;
