//! The USB hub of the mainboard: its state, its ports, and their switching.

use vstd::prelude::*;
use vstd::string::StringExecFns;

use crate::response::{
    bad_request, internal_server_error, ok_or_internal, unprocessable_entity, CResponse,
    STATUS_BAD_REQUEST, STATUS_INTERNAL_SERVER_ERROR, STATUS_OK, STATUS_UNPROCESSABLE_ENTITY,
};
use crate::text::same_text;

verus! {

/// The number of switchable ports of the hub.
pub const PORT_COUNT: usize = 8;

/// The state texts of the hub and of its eight ports.
#[derive(Debug, Clone, PartialEq, Eq)]
pub struct UsbHubRest {
    pub hub_state: String,
    pub port_slot_0: String,
    pub port_slot_1: String,
    pub port_slot_2: String,
    pub port_slot_3: String,
    pub port_slot_4: String,
    pub port_slot_5: String,
    pub port_slot_6: String,
    pub port_slot_7: String,
}

/// The state texts of the eight ports as the driver's state codes were
/// turned into text; `None` where a code had no text.
#[derive(Debug, Clone, PartialEq, Eq)]
pub struct UsbHubPortStates {
    pub slot0: Option<String>,
    pub slot1: Option<String>,
    pub slot2: Option<String>,
    pub slot3: Option<String>,
    pub slot4: Option<String>,
    pub slot5: Option<String>,
    pub slot6: Option<String>,
    pub slot7: Option<String>,
}

/// A port that is switched off or missing.
#[derive(Debug, Clone, Copy, PartialEq, Eq, Structural)]
pub struct UsbHubMapping {
    pub slot_number: u8,
    pub is_disabled: bool,
}

/// Whether the hub state and every port state have a text.
pub open spec fn all_mapped(hub: Option<String>, ports: UsbHubPortStates) -> bool {
    &&& hub is Some
    &&& ports.slot0 is Some
    &&& ports.slot1 is Some
    &&& ports.slot2 is Some
    &&& ports.slot3 is Some
    &&& ports.slot4 is Some
    &&& ports.slot5 is Some
    &&& ports.slot6 is Some
    &&& ports.slot7 is Some
}

/// The hub's state texts, in the order hub, port 0, ..., port 7.
pub open spec fn rest_of(hub: Option<String>, ports: UsbHubPortStates) -> UsbHubRest {
    UsbHubRest {
        hub_state: hub->0,
        port_slot_0: ports.slot0->0,
        port_slot_1: ports.slot1->0,
        port_slot_2: ports.slot2->0,
        port_slot_3: ports.slot3->0,
        port_slot_4: ports.slot4->0,
        port_slot_5: ports.slot5->0,
        port_slot_6: ports.slot6->0,
        port_slot_7: ports.slot7->0,
    }
}

/// What `get_usbhub` gives for the readings `hub_state` and `port_states`:
/// the assembled state, or the answer to the first failure.
pub open spec fn usbhub_result(
    hub_state: Result<Option<String>, String>,
    port_states: Result<UsbHubPortStates, String>,
) -> Result<UsbHubRest, (u16, Seq<char>)> {
    match hub_state {
        Err(_) => Err((STATUS_INTERNAL_SERVER_ERROR, "Failed getting usb hub state"@)),
        Ok(h) => match port_states {
            Err(_) => Err((STATUS_INTERNAL_SERVER_ERROR, "Failed getting usb hub port state"@)),
            Ok(p) => if all_mapped(h, p) {
                Ok(rest_of(h, p))
            } else {
                Err((STATUS_INTERNAL_SERVER_ERROR, "Failed converting usb hub port state"@))
            },
        },
    }
}

/// The state of the hub from what the driver reported: `hub_state` is the
/// reading of the hub's own state, `port_states` that of its ports; an `Err`
/// is a failed reading. A failed hub reading, then a failed port reading,
/// then a state without text are answered with an internal error.
pub fn get_usbhub(
    hub_state: Result<Option<String>, String>,
    port_states: Result<UsbHubPortStates, String>,
) -> (r: Result<UsbHubRest, CResponse>)
    ensures
        match r {
            Ok(rest) => usbhub_result(hub_state, port_states) == Ok::<
                UsbHubRest,
                (u16, Seq<char>),
            >(rest),
            Err(e) => usbhub_result(hub_state, port_states) == Err::<UsbHubRest, (u16, Seq<char>)>(
                e@,
            ),
        },
        r matches Ok(rest) ==> {
            &&& hub_state == Ok::<Option<String>, String>(Some(rest.hub_state))
            &&& port_states matches Ok(p) && {
                &&& p.slot0 == Some(rest.port_slot_0)
                &&& p.slot1 == Some(rest.port_slot_1)
                &&& p.slot2 == Some(rest.port_slot_2)
                &&& p.slot3 == Some(rest.port_slot_3)
                &&& p.slot4 == Some(rest.port_slot_4)
                &&& p.slot5 == Some(rest.port_slot_5)
                &&& p.slot6 == Some(rest.port_slot_6)
                &&& p.slot7 == Some(rest.port_slot_7)
            }
        },
        hub_state is Err ==> (r matches Err(e) && e@ == (
            STATUS_INTERNAL_SERVER_ERROR,
            "Failed getting usb hub state"@,
        )),
        hub_state is Ok && port_states is Err ==> (r matches Err(e) && e@ == (
            STATUS_INTERNAL_SERVER_ERROR,
            "Failed getting usb hub port state"@,
        )),
        hub_state matches Ok(h) ==> (port_states matches Ok(p) ==> {
            &&& all_mapped(h, p) ==> r == Ok::<UsbHubRest, CResponse>(rest_of(h, p))
            &&& !all_mapped(h, p) ==> (r matches Err(e) && e@ == (
                STATUS_INTERNAL_SERVER_ERROR,
                "Failed converting usb hub port state"@,
            ))
        }),
{
    let hub = match hub_state {
        Ok(hub) => hub,
        Err(_) => {
            return Err(internal_server_error(String::from_str("Failed getting usb hub state")));
        },
    };
    let ports = match port_states {
        Ok(ports) => ports,
        Err(_) => {
            return Err(
                internal_server_error(String::from_str("Failed getting usb hub port state")),
            );
        },
    };
    let UsbHubPortStates { slot0, slot1, slot2, slot3, slot4, slot5, slot6, slot7 } = ports;
    match (hub, slot0, slot1, slot2, slot3, slot4, slot5, slot6, slot7) {
        (Some(h), Some(p0), Some(p1), Some(p2), Some(p3), Some(p4), Some(p5), Some(p6), Some(p7)) => {
            Ok(
                UsbHubRest {
                    hub_state: h,
                    port_slot_0: p0,
                    port_slot_1: p1,
                    port_slot_2: p2,
                    port_slot_3: p3,
                    port_slot_4: p4,
                    port_slot_5: p5,
                    port_slot_6: p6,
                    port_slot_7: p7,
                },
            )
        },
        _ => Err(internal_server_error(String::from_str("Failed converting usb hub port state"))),
    }
}

/// The state text of port `i` of the hub.
pub open spec fn port_at(hub: UsbHubRest, i: int) -> Seq<char> {
    if i == 0 {
        hub.port_slot_0@
    } else if i == 1 {
        hub.port_slot_1@
    } else if i == 2 {
        hub.port_slot_2@
    } else if i == 3 {
        hub.port_slot_3@
    } else if i == 4 {
        hub.port_slot_4@
    } else if i == 5 {
        hub.port_slot_5@
    } else if i == 6 {
        hub.port_slot_6@
    } else {
        hub.port_slot_7@
    }
}

/// Whether a port with the state text `state` is switched off or missing.
pub open spec fn is_unavailable(state: Seq<char>) -> bool {
    state == "disabled"@ || state == "not available"@
}

/// The numbers of the unavailable ports among the first `n` ports, in
/// increasing order.
pub open spec fn unavailable_slots(hub: UsbHubRest, n: nat) -> Seq<u8>
    decreases n,
{
    if n == 0 {
        Seq::empty()
    } else {
        let before = unavailable_slots(hub, (n - 1) as nat);
        if is_unavailable(port_at(hub, n - 1)) {
            before.push((n - 1) as u8)
        } else {
            before
        }
    }
}

/// The state text of port `i` of the hub.
fn port(hub: &UsbHubRest, i: usize) -> (s: &String)
    requires
        i < PORT_COUNT,
    ensures
        s@ == port_at(*hub, i as int),
{
    if i == 0 {
        &hub.port_slot_0
    } else if i == 1 {
        &hub.port_slot_1
    } else if i == 2 {
        &hub.port_slot_2
    } else if i == 3 {
        &hub.port_slot_3
    } else if i == 4 {
        &hub.port_slot_4
    } else if i == 5 {
        &hub.port_slot_5
    } else if i == 6 {
        &hub.port_slot_6
    } else {
        &hub.port_slot_7
    }
}

/// The ports of the hub that are switched off (`disabled`) or missing
/// (`not available`), each marked as disabled, in increasing order of their
/// numbers.
pub fn usbhub_devices(hub: &UsbHubRest) -> (r: Vec<UsbHubMapping>)
    ensures
        r@.len() == unavailable_slots(*hub, 8).len(),
        forall|k: int|
            0 <= k < r@.len() ==> (#[trigger] r@[k]).slot_number == unavailable_slots(
                *hub,
                8,
            )[k] && r@[k].is_disabled,
{
    let mut disabled: Vec<UsbHubMapping> = Vec::new();
    let mut i: usize = 0;
    while i < PORT_COUNT
        invariant
            i <= PORT_COUNT,
            disabled@.len() == unavailable_slots(*hub, i as nat).len(),
            forall|k: int|
                0 <= k < disabled@.len() ==> (#[trigger] disabled@[k]).slot_number
                    == unavailable_slots(*hub, i as nat)[k] && disabled@[k].is_disabled,
        decreases PORT_COUNT - i,
    {
        let state = port(hub, i).as_str();
        if same_text(state, "disabled") || same_text(state, "not available") {
            disabled.push(UsbHubMapping { slot_number: i as u8, is_disabled: true });
        }
        i = i + 1;
    }
    disabled
}

/// Every port that the list of unavailable ports names is unavailable and is
/// one of the eight ports; the list names each port at most once, in
/// increasing order; and every unavailable port is in it.
pub proof fn law_unavailable_slots(hub: UsbHubRest)
    ensures
        forall|k: int|
            0 <= k < unavailable_slots(hub, 8).len() ==> #[trigger] unavailable_slots(hub, 8)[k]
                < PORT_COUNT && is_unavailable(port_at(hub, unavailable_slots(hub, 8)[k] as int)),
        forall|j: int, k: int|
            0 <= j < k < unavailable_slots(hub, 8).len() ==> unavailable_slots(hub, 8)[j]
                < unavailable_slots(hub, 8)[k],
        forall|i: int|
            0 <= i < PORT_COUNT && is_unavailable(#[trigger] port_at(hub, i))
                ==> unavailable_slots(hub, 8).contains(i as u8),
{
    lemma_unavailable_slots(hub, 8);
}

proof fn lemma_unavailable_slots(hub: UsbHubRest, n: nat)
    requires
        n <= PORT_COUNT,
    ensures
        forall|k: int|
            0 <= k < unavailable_slots(hub, n).len() ==> #[trigger] unavailable_slots(hub, n)[k]
                < n && is_unavailable(port_at(hub, unavailable_slots(hub, n)[k] as int)),
        forall|j: int, k: int|
            0 <= j < k < unavailable_slots(hub, n).len() ==> unavailable_slots(hub, n)[j]
                < unavailable_slots(hub, n)[k],
        forall|i: int|
            0 <= i < n && is_unavailable(#[trigger] port_at(hub, i)) ==> unavailable_slots(
                hub,
                n,
            ).contains(i as u8),
    decreases n,
{
    if n > 0 {
        let m = (n - 1) as nat;
        lemma_unavailable_slots(hub, m);
        let before = unavailable_slots(hub, m);
        if is_unavailable(port_at(hub, m as int)) {
            let after = before.push(m as u8);
            assert(after[before.len() as int] == m as u8);
            assert forall|i: int|
                0 <= i < n && is_unavailable(#[trigger] port_at(hub, i)) implies after.contains(
                i as u8,
            ) by {
                if i < m {
                    let k = choose|k: int| 0 <= k < before.len() && before[k] == i as u8;
                    assert(after[k] == i as u8);
                } else {
                    assert(after[before.len() as int] == i as u8);
                }
            }
        }
    }
}

/// The state examined for each port number is that port's own field of the
/// hub's report, and the list of unavailable ports holds port `i` exactly
/// when the field `port_slot_i` reads `disabled` or `not available`.
pub proof fn law_port_fields(hub: UsbHubRest)
    ensures
        port_at(hub, 0) == hub.port_slot_0@,
        port_at(hub, 1) == hub.port_slot_1@,
        port_at(hub, 2) == hub.port_slot_2@,
        port_at(hub, 3) == hub.port_slot_3@,
        port_at(hub, 4) == hub.port_slot_4@,
        port_at(hub, 5) == hub.port_slot_5@,
        port_at(hub, 6) == hub.port_slot_6@,
        port_at(hub, 7) == hub.port_slot_7@,
        unavailable_slots(hub, 8).contains(0) <==> (hub.port_slot_0@ == "disabled"@
            || hub.port_slot_0@ == "not available"@),
        unavailable_slots(hub, 8).contains(1) <==> (hub.port_slot_1@ == "disabled"@
            || hub.port_slot_1@ == "not available"@),
        unavailable_slots(hub, 8).contains(2) <==> (hub.port_slot_2@ == "disabled"@
            || hub.port_slot_2@ == "not available"@),
        unavailable_slots(hub, 8).contains(3) <==> (hub.port_slot_3@ == "disabled"@
            || hub.port_slot_3@ == "not available"@),
        unavailable_slots(hub, 8).contains(4) <==> (hub.port_slot_4@ == "disabled"@
            || hub.port_slot_4@ == "not available"@),
        unavailable_slots(hub, 8).contains(5) <==> (hub.port_slot_5@ == "disabled"@
            || hub.port_slot_5@ == "not available"@),
        unavailable_slots(hub, 8).contains(6) <==> (hub.port_slot_6@ == "disabled"@
            || hub.port_slot_6@ == "not available"@),
        unavailable_slots(hub, 8).contains(7) <==> (hub.port_slot_7@ == "disabled"@
            || hub.port_slot_7@ == "not available"@),
{
    lemma_unavailable_slots(hub, 8);
    assert forall|i: int| 0 <= i < 8 implies (unavailable_slots(hub, 8).contains(i as u8)
        <==> is_unavailable(port_at(hub, i))) by {
        if unavailable_slots(hub, 8).contains(i as u8) {
            let k = choose|k: int|
                0 <= k < unavailable_slots(hub, 8).len() && unavailable_slots(hub, 8)[k]
                    == i as u8;
            assert(is_unavailable(port_at(hub, unavailable_slots(hub, 8)[k] as int)));
        }
    }
    assert(unavailable_slots(hub, 8).contains(0int as u8) <==> is_unavailable(port_at(hub, 0)));
    assert(unavailable_slots(hub, 8).contains(1int as u8) <==> is_unavailable(port_at(hub, 1)));
    assert(unavailable_slots(hub, 8).contains(2int as u8) <==> is_unavailable(port_at(hub, 2)));
    assert(unavailable_slots(hub, 8).contains(3int as u8) <==> is_unavailable(port_at(hub, 3)));
    assert(unavailable_slots(hub, 8).contains(4int as u8) <==> is_unavailable(port_at(hub, 4)));
    assert(unavailable_slots(hub, 8).contains(5int as u8) <==> is_unavailable(port_at(hub, 5)));
    assert(unavailable_slots(hub, 8).contains(6int as u8) <==> is_unavailable(port_at(hub, 6)));
    assert(unavailable_slots(hub, 8).contains(7int as u8) <==> is_unavailable(port_at(hub, 7)));
}

/// When the hub state and every port state have a text, the hub's report
/// holds the hub reading as its hub state and the reading of port `i` as its
/// field `port_slot_i`, for each port in order.
pub proof fn law_hub_report_fields(
    hub: Option<String>,
    ports: UsbHubPortStates,
)
    requires
        hub is Some,
        ports.slot0 is Some,
        ports.slot1 is Some,
        ports.slot2 is Some,
        ports.slot3 is Some,
        ports.slot4 is Some,
        ports.slot5 is Some,
        ports.slot6 is Some,
        ports.slot7 is Some,
    ensures
        usbhub_result(Ok(hub), Ok(ports)) matches Ok(rest) && {
            &&& Some(rest.hub_state) == hub
            &&& Some(rest.port_slot_0) == ports.slot0
            &&& Some(rest.port_slot_1) == ports.slot1
            &&& Some(rest.port_slot_2) == ports.slot2
            &&& Some(rest.port_slot_3) == ports.slot3
            &&& Some(rest.port_slot_4) == ports.slot4
            &&& Some(rest.port_slot_5) == ports.slot5
            &&& Some(rest.port_slot_6) == ports.slot6
            &&& Some(rest.port_slot_7) == ports.slot7
        },
{
}

/// Asks for the state of port `number`; only ports 2 to 7 can be switched,
/// any other number is refused as out of range.
pub fn usbhub_set_port(number: u8) -> (r: Result<(), CResponse>)
    ensures
        2 <= number <= 7 ==> r is Ok,
        !(2 <= number <= 7) ==> (r matches Err(e) && e@ == (
            STATUS_BAD_REQUEST,
            "Slot is out of range"@,
        )),
{
    if number < 2 || number > 7 {
        return Err(bad_request(String::from_str("Slot is out of range")));
    }
    Ok(())
}

/// Checks a request to reset the hub: only the text `yes` confirms it.
pub fn usbhub_reset(reset: &str) -> (r: Result<(), CResponse>)
    ensures
        reset@ == "yes"@ ==> r is Ok,
        reset@ != "yes"@ ==> (r matches Err(e) && e@ == (
            STATUS_UNPROCESSABLE_ENTITY,
            "value must be 'yes'"@,
        )),
{
    if !same_text(reset, "yes") {
        return Err(unprocessable_entity(String::from_str("value must be 'yes'")));
    }
    Ok(())
}

/// The answer to a request that sets the hub or a port, or that resets the
/// hub: the driver's serialized answer, or an internal error where the
/// exchange failed.
pub fn usbhub_set_response(result: Result<String, String>) -> (r: CResponse)
    ensures
        result matches Ok(body) ==> r@ == (STATUS_OK, body@),
        result is Err ==> r@ == (STATUS_INTERNAL_SERVER_ERROR, "Failed setting usb hub state"@),
{
    ok_or_internal(result, "Failed setting usb hub state")
}

/// The answer where the mapping of the hub's ports to devices could not be
/// read.
pub fn usbhub_mapping_failed() -> (r: CResponse)
    ensures
        r@ == (STATUS_INTERNAL_SERVER_ERROR, "Failed getting usb hub mapping"@),
{
    internal_server_error(String::from_str("Failed getting usb hub mapping"))
}

} // verus!
