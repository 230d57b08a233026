//! Priority-ceiling locking and interrupt-controller programming for a static,
//! interrupt-driven task model on single-core RISC-V targets.
//!
//! * [`export`] holds what runs on the target: the contract every interrupt
//!   controller backend meets, the driver operations and the `lock` / `run`
//!   protocol written against that contract, and a simulated controller.
//! * [`syntax`] holds the task graph, the analysis that derives each
//!   resource's priority ceiling from it, and the backend arguments accepted
//!   in the application attribute.
//! * [`analyze`] derives what the planner needs from the task graph.
//! * [`codegen`] plans the start-up and dispatch statements for each backend.

pub mod analyze;
pub mod codegen;
pub mod export;
pub mod syntax;
