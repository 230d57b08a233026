//! The runtime half: everything the planned statements call into.

pub mod backend;
pub mod driver;
pub mod laws;
pub mod protocol;
pub mod simulator;
pub mod stack;

pub use backend::{Backend, Interrupt, Polarity, Profile, Source, State, Trig, Write};
pub use driver::{disable, enable, global_disable, global_enable, pend, set_level, unpend};
pub use protocol::{lock, run};
pub use simulator::Simulator;
pub use stack::{check_stack, StackOverflow};
