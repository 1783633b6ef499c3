//! Option model for the optional companion binding-generator build.
//!
//! The orchestrator only carries this configuration through; no pipeline is
//! derived from it here.

use vstd::prelude::*;

verus! {

#[derive(Debug)]
pub struct LibClang {
    pub debug_commands: bool,
}

impl LibClang {
    pub fn new() -> (r: Self)
        ensures
            !r.debug_commands,
    {
        LibClang { debug_commands: false }
    }
}

} // verus!
