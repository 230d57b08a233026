//! What the application attribute hands to the analysis and the planner.

pub mod analyze;
pub mod ast;
pub mod backend;
pub mod parse;
