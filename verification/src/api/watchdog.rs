//! The watchdog of the board and the software shutdown it drives.

use vstd::prelude::*;
use vstd::string::StringExecFns;

use crate::response::{bad_request, CResponse, STATUS_BAD_REQUEST};
use crate::text::same_text;

verus! {

/// The watchdog's settings and state as the API reports them.
#[derive(Debug, Clone, Copy, PartialEq, Eq, Structural)]
pub struct Timeout {
    pub timeout: u32,
    pub timeout_left: u32,
    pub shutdown_timeout: u32,
    pub emergency_mode: bool,
}

/// The watchdog report made of the four readings of the driver: the
/// configured timeout, the time left before it runs out, the shutdown
/// timeout, and whether the emergency mode is on.
pub fn stats(timeout: u32, timeout_left: u32, shutdown_timeout: u32, emergency_mode: bool) -> (r:
    Timeout)
    ensures
        r == (Timeout { timeout, timeout_left, shutdown_timeout, emergency_mode }),
{
    Timeout { timeout, timeout_left, shutdown_timeout, emergency_mode }
}

/// Checks a request for a software shutdown: only the text `start` starts
/// it.
pub fn shutdown(request: &str) -> (r: Result<(), CResponse>)
    ensures
        request@ == "start"@ ==> r is Ok,
        request@ != "start"@ ==> (r matches Err(e) && e@ == (
            STATUS_BAD_REQUEST,
            "value must be 'start'"@,
        )),
{
    if !same_text(request, "start") {
        return Err(bad_request(String::from_str("value must be 'start'")));
    }
    Ok(())
}

} // verus!
