//! The plans of each backend. Exactly one backend is chosen for a build.

pub mod riscv_atalanta;
pub mod riscv_rt;
