//! Cycle-time monitoring module: currently a placeholder in the cycle
//! schedule with no inputs and no outputs, kept so the per-cycle contract
//! stays uniform.

use vstd::prelude::*;

verus! {

pub struct CycleTimeWarnings {}

/// Creation-time context: nothing is configured.
pub struct CreationContext {}

/// Cycle-time context: nothing is consumed.
pub struct CycleContext {}

/// Main outputs: nothing is produced.
#[derive(Debug, PartialEq, Eq, Structural)]
pub struct MainOutputs {}

impl CycleTimeWarnings {
    pub fn new(_context: CreationContext) -> (r: CycleTimeWarnings) {
        CycleTimeWarnings {  }
    }

    pub fn cycle(&mut self, _context: CycleContext) -> (r: MainOutputs)
        ensures
            r == (MainOutputs {  }),
            *final(self) == *old(self),
    {
        MainOutputs {  }
    }
}

} // verus!
