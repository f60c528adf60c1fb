//! The board's management controller: its USB bootloader and hard reset.

use vstd::prelude::*;
use vstd::string::StringExecFns;

use crate::response::{unprocessable_entity, CResponse, STATUS_UNPROCESSABLE_ENTITY};
use crate::text::same_text;

verus! {

/// Checks a request for a hard reset of the board: only the text `yes`
/// confirms it.
pub fn hard_reset(reset: &str) -> (r: Result<(), CResponse>)
    ensures
        reset@ == "yes"@ ==> r is Ok,
        reset@ != "yes"@ ==> (r matches Err(e) && e@ == (
            STATUS_UNPROCESSABLE_ENTITY,
            "value must be 'yes'"@,
        )),
{
    if !same_text(reset, "yes") {
        return Err(unprocessable_entity(String::from_str("value must be 'yes'")));
    }
    Ok(())
}

} // verus!
