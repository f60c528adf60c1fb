//! Bodies of the USB hub requests.

use vstd::prelude::*;
use vstd::string::StringExecFns;

use super::{Status, Validate};

verus! {

/// Switches the hub, or one of its ports, on or off.
#[derive(Debug, Clone, PartialEq, Eq, Structural)]
pub struct Param {
    pub state: bool,
}

/// Asks for a reset of the hub; it is carried out only for the text `yes`.
#[derive(Debug, Clone, PartialEq, Eq)]
pub struct Reset {
    pub reset: String,
}

impl Default for Param {
    fn default() -> (r: Self)
        ensures
            r.state == false,
    {
        Param { state: false }
    }
}

impl Default for Reset {
    fn default() -> (r: Self)
        ensures
            r.reset@ == Seq::<char>::empty(),
    {
        Reset { reset: String::new() }
    }
}

impl Validate for Param {
    /// Every switch request is acceptable.
    fn validate(&self) -> (r: Result<(), Status>)
        ensures
            r == Ok::<(), Status>(()),
    {
        Ok(())
    }
}

impl Validate for Reset {
    /// Every reset request is acceptable here; its text is checked where the
    /// reset is carried out.
    fn validate(&self) -> (r: Result<(), Status>)
        ensures
            r == Ok::<(), Status>(()),
    {
        Ok(())
    }
}

} // verus!
