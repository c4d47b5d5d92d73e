//! Session-affine request routing for a fleet of LLM workers.
//!
//! Multi-turn sessions are kept on the `(worker, dp_rank)` that holds their
//! warm prefix ([`sticky`]). When that rank is overloaded, a prefill turn may
//! move the session to a colder rank through a shadow transition that only
//! becomes visible once the cold worker confirms completion.

pub mod json;
pub mod maps;
pub mod protocols;
pub mod push_router;
pub mod results;
pub mod sticky;
pub mod text;
pub mod time;
