//! Backend arguments of the vectored-controller backend.

use vstd::prelude::*;
use crate::syntax::parse::Error;

verus! {

/// The arguments of the backend. It has none.
#[derive(Debug)]
pub struct BackendArgs();

impl BackendArgs {
    /// Rejects the arguments, whatever they are: the backend accepts none.
    pub fn parse(input: &str) -> (r: Result<BackendArgs, Error>)
        ensures
            r matches Err(e) && e@ == "riscv-atalanta backend does not accept any arguments"@,
    {
        Err(Error::new("riscv-atalanta backend does not accept any arguments"))
    }
}

} // verus!
