//! Body of the watchdog requests.

use vstd::prelude::*;

use super::{Status, Validate};

verus! {

/// A watchdog timeout.
#[derive(Debug, Clone, Copy, PartialEq, Eq, Structural)]
pub struct Param {
    pub timeout: u32,
}

impl Default for Param {
    fn default() -> (r: Self)
        ensures
            r.timeout == 0,
    {
        Param { timeout: 0 }
    }
}

impl Validate for Param {
    /// Every timeout is acceptable.
    fn validate(&self) -> (r: Result<(), Status>)
        ensures
            r == Ok::<(), Status>(()),
    {
        Ok(())
    }
}

} // verus!
