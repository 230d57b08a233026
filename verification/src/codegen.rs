//! The planner: which statements go into the generated start-up and dispatch
//! code of an application, and in which order.
//!
//! A plan names statements; it does not spell them. Turning a plan into
//! tokens is left to the procedural macro that uses this crate.

pub mod bindings;
pub mod plan;
pub mod util;
