//! The choice of a backend, and the arguments that each backend accepts in
//! the application attribute.

use vstd::prelude::*;
use crate::export::backend::Profile;
use crate::syntax::parse::Error;

pub mod riscv_atalanta;
pub mod riscv_rt;

verus! {

/// A backend that a build can be made for.
#[derive(Clone, Copy, PartialEq, Eq, Debug, Structural)]
pub enum Target {
    /// A vectored controller with per-source level and trigger fields.
    RiscvAtalanta,
    /// The generic RISC-V runtime with a threshold register.
    RiscvRt,
}

impl Target {
    /// How the backend masks: both write a ceiling as it is, and both can
    /// mask every level with the threshold.
    pub fn profile(&self) -> (p: Profile)
        ensures
            p == Profile::clic(),
    {
        Profile::clic()
    }
}

/// Chooses the backend of a build from the backends that were switched on.
/// Exactly one must be: none, or more than one, fails the build.
pub fn select(enabled: &Vec<Target>) -> (r: Result<Target, Error>)
    ensures
        enabled@.len() == 1 ==> (r matches Ok(target) && target == enabled@[0]),
        enabled@.len() == 0 ==> (r matches Err(e) && e@ == "No backend selected"@),
        enabled@.len() > 1 ==> (r matches Err(e) && e@ == "More than one backend selected"@),
{
    if enabled.len() == 1 {
        Ok(enabled[0])
    } else if enabled.len() == 0 {
        Err(Error::new("No backend selected"))
    } else {
        Err(Error::new("More than one backend selected"))
    }
}

} // verus!
