//! A delay marker type.
//!
//! The type itself carries no state; the sleeping itself is a platform
//! facility and lives with the code that drives the engine.

use vstd::prelude::*;

verus! {

/// Delay structure.
#[derive(Debug, Clone, Copy, PartialEq, Eq, Structural)]
pub struct Delay {}

impl Delay {
    /// Create a new delay structure.
    pub fn new() -> (r: Delay)
        ensures
            r == (Delay {  }),
    {
        Delay {  }
    }
}

impl Default for Delay {
    /// The same value as [`Delay::new`].
    fn default() -> (r: Delay)
        ensures
            r == (Delay {  }),
    {
        Delay::new()
    }
}

} // verus!
