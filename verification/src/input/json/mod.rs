//! JSON request bodies and their validation.

use vstd::prelude::*;

pub mod usbhub;
pub mod watchdog;

verus! {

/// The HTTP status that refuses a request body.
#[derive(Debug, Clone, Copy, PartialEq, Eq, Structural)]
pub struct Status {
    pub code: u16,
}

/// A request body that can check its own values before it is used.
pub trait Validate {
    /// `Ok` where the values are acceptable, the refusing status otherwise.
    fn validate(&self) -> Result<(), Status>;
}

} // verus!
