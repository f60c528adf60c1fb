//! The course of a request that reads the board's state: connect to the
//! driver, send a fixed series of queries one after the other, and answer
//! with a report assembled from the readings. The first failure ends the
//! request: it is answered at once and nothing more is sent.
//!
//! The listing of the hub's devices goes on after the hub's state: it
//! connects again, reads the mapping of the ports to devices, and looks up
//! the devices behind the ports that are not disabled.
//!
//! The outside work is done by the caller; this module decides, after each
//! outcome, what comes next and how the request is answered.

use vstd::prelude::*;
use vstd::string::StringExecFns;

use crate::api::usbhub::{
    all_mapped, get_usbhub, rest_of, unavailable_slots, usbhub_devices, usbhub_mapping_failed,
    usbhub_result, usbhub_set_response, UsbHubMapping, UsbHubPortStates, UsbHubRest,
};
use crate::api::voltage::{voltage, VoltageRest};
use crate::api::watchdog::{stats, Timeout};
use crate::response::{
    driver_failed, driver_failure_prefix, internal_server_error, CResponse,
    STATUS_INTERNAL_SERVER_ERROR, STATUS_OK,
};

verus! {

/// The routes that read the board's state.
#[derive(Debug, Clone, Copy, PartialEq, Eq, Structural)]
pub enum ReadRoute {
    /// The supply voltages.
    Voltage,
    /// The watchdog report.
    Stats,
    /// The state of the USB hub.
    Usbhub,
    /// The devices behind the USB hub's ports.
    UsbhubDevices,
}

/// A query sent to the driver.
#[derive(Debug, Clone, Copy, PartialEq, Eq, Structural)]
pub enum Query {
    /// The voltage of the 1.8 V rail, in microvolts.
    Rail1v8,
    /// The voltage of the RTC battery, in microvolts.
    RtcBattery,
    /// The voltage across the first thermistor, in microvolts.
    Ntc0,
    /// The voltage across the second thermistor, in microvolts.
    Ntc1,
    /// The configured watchdog timeout.
    Timeout,
    /// The time left before the watchdog runs out.
    TimeoutLeft,
    /// The timeout of the software shutdown.
    ShutdownTimeout,
    /// Whether the emergency mode is on.
    EmergencyMode,
    /// The state of the hub.
    HubState,
    /// The states of the hub's ports.
    PortStates,
    /// The mapping of the hub's ports to devices.
    PortMapping,
}

/// What the driver answered to a query.
#[derive(Debug)]
pub enum Reading {
    /// A number: a voltage or a timeout.
    Value(u32),
    /// A yes or no: the emergency mode.
    Flag(bool),
    /// The hub's state as text, `None` where the state code has no text.
    HubState(Option<String>),
    /// The ports' states as text.
    PortStates(UsbHubPortStates),
    /// The mapping of the ports to devices; the caller keeps it for the lookup.
    PortMapping,
}

/// How far a reading request has come.
#[derive(Debug, Clone, Copy, PartialEq, Eq, Structural)]
pub enum ReadPhase {
    /// Waiting for the connection to the driver.
    Connecting,
    /// Waiting for the answer to the next query of the route's series.
    Reading,
    /// Waiting for the second connection of the device listing.
    Reconnecting,
    /// Waiting for the mapping of the ports to devices.
    Mapping,
    /// Waiting for the lookup of the devices.
    LookingUp,
    /// Answered.
    Done,
}

/// The outcome of a piece of outside work.
#[derive(Debug)]
pub enum ReadEvent {
    /// The connection to the driver was made, or refused with an answer.
    Connected(Result<(), CResponse>),
    /// The driver answered the query, or the exchange failed with an error text.
    Read(Result<Reading, String>),
    /// The devices were looked up and serialized, or the lookup failed with an
    /// error text.
    Found(Result<String, String>),
}

/// A report of the board's state, which the caller serializes and sends as a
/// successful answer.
#[derive(Debug)]
pub enum Report {
    Voltage(VoltageRest),
    Watchdog(Timeout),
    Hub(UsbHubRest),
}

/// What the caller does next.
#[derive(Debug)]
pub enum ReadAction {
    /// Send this query to the driver.
    Query(Query),
    /// Connect to the driver again.
    Reconnect,
    /// Look up the devices behind the ports, leaving out these ports.
    LookUp(Vec<UsbHubMapping>),
    /// Answer the request with this report, which ends it.
    Report(Report),
    /// Answer the request, which is then done.
    Respond(CResponse),
}

/// The queries that `route` sends, in order, after it connected.
pub open spec fn queries(route: ReadRoute) -> Seq<Query> {
    match route {
        ReadRoute::Voltage => seq![Query::Rail1v8, Query::RtcBattery],
        ReadRoute::Stats => seq![
            Query::Timeout,
            Query::TimeoutLeft,
            Query::ShutdownTimeout,
            Query::EmergencyMode,
        ],
        ReadRoute::Usbhub | ReadRoute::UsbhubDevices => seq![Query::HubState, Query::PortStates],
    }
}

/// Whether `reading` is an answer of the kind that `query` asks for.
pub open spec fn fits(query: Query, reading: Reading) -> bool {
    match query {
        Query::EmergencyMode => reading is Flag,
        Query::HubState => reading is HubState,
        Query::PortStates => reading is PortStates,
        Query::PortMapping => reading is PortMapping,
        _ => reading is Value,
    }
}

/// The number of a number reading.
pub open spec fn value_of(reading: Reading) -> u32 {
    match reading {
        Reading::Value(v) => v,
        _ => 0,
    }
}

/// The yes or no of a flag reading.
pub open spec fn flag_of(reading: Reading) -> bool {
    match reading {
        Reading::Flag(f) => f,
        _ => false,
    }
}

/// The text of a hub state reading.
pub open spec fn hub_of(reading: Reading) -> Option<String> {
    match reading {
        Reading::HubState(h) => h,
        _ => None,
    }
}

/// The texts of a port states reading.
pub open spec fn ports_of(reading: Reading) -> UsbHubPortStates {
    match reading {
        Reading::PortStates(p) => p,
        _ => arbitrary(),
    }
}

/// The answer of `route` when its query number `k` failed with error text
/// `err`.
pub open spec fn read_failure(route: ReadRoute, k: int, err: Seq<char>) -> (u16, Seq<char>) {
    match route {
        ReadRoute::Voltage | ReadRoute::Stats => (
            STATUS_INTERNAL_SERVER_ERROR,
            driver_failure_prefix() + err,
        ),
        _ => if k == 0 {
            (STATUS_INTERNAL_SERVER_ERROR, "Failed getting usb hub state"@)
        } else {
            (STATUS_INTERNAL_SERVER_ERROR, "Failed getting usb hub port state"@)
        },
    }
}

/// Whether a request of `route` in `phase`, with the readings `readings`
/// taken so far, can take `event`.
pub open spec fn read_accepts(
    route: ReadRoute,
    phase: ReadPhase,
    readings: Seq<Reading>,
    event: ReadEvent,
) -> bool {
    match (phase, event) {
        (ReadPhase::Connecting, ReadEvent::Connected(_)) => true,
        (ReadPhase::Reading, ReadEvent::Read(Err(_))) => readings.len() < queries(route).len(),
        (ReadPhase::Reading, ReadEvent::Read(Ok(r))) => readings.len() < queries(route).len()
            && fits(queries(route)[readings.len() as int], r),
        (ReadPhase::Reconnecting, ReadEvent::Connected(_)) => true,
        (ReadPhase::Mapping, ReadEvent::Read(Err(_))) => true,
        (ReadPhase::Mapping, ReadEvent::Read(Ok(r))) => r is PortMapping,
        (ReadPhase::LookingUp, ReadEvent::Found(_)) => true,
        _ => false,
    }
}

/// Whether `action` answers the request with `answer`.
pub open spec fn read_responds_with(action: ReadAction, answer: (u16, Seq<char>)) -> bool {
    action matches ReadAction::Respond(resp) && resp@ == answer
}

/// Whether `event` is the good answer to the last query of `route`'s series.
pub open spec fn completes(
    route: ReadRoute,
    phase: ReadPhase,
    readings: Seq<Reading>,
    event: ReadEvent,
) -> bool {
    &&& phase == ReadPhase::Reading
    &&& (event matches ReadEvent::Read(Ok(_)))
    &&& readings.len() + 1 == queries(route).len()
}

/// The readings of the whole series, once `event` completes it.
pub open spec fn all_readings(readings: Seq<Reading>, event: ReadEvent) -> Seq<Reading> {
    match event {
        ReadEvent::Read(Ok(r)) => readings.push(r),
        _ => readings,
    }
}

/// Whether the hub's readings among `all` all have a text.
pub open spec fn hub_mapped(all: Seq<Reading>) -> bool {
    all_mapped(hub_of(all[0]), ports_of(all[1]))
}

/// The hub's state assembled from its readings `all`.
pub open spec fn hub_rest(all: Seq<Reading>) -> UsbHubRest {
    rest_of(hub_of(all[0]), ports_of(all[1]))
}

/// The phase of a request of `route` after `event` in `phase`, with the
/// readings `readings` taken so far.
pub open spec fn read_next_phase(
    route: ReadRoute,
    phase: ReadPhase,
    readings: Seq<Reading>,
    event: ReadEvent,
) -> ReadPhase {
    match phase {
        ReadPhase::Connecting => match event {
            ReadEvent::Connected(Err(_)) => ReadPhase::Done,
            _ => ReadPhase::Reading,
        },
        ReadPhase::Reading => match event {
            ReadEvent::Read(Ok(_)) => if readings.len() + 1 < queries(route).len() {
                ReadPhase::Reading
            } else if route == ReadRoute::UsbhubDevices && hub_mapped(
                all_readings(readings, event),
            ) {
                ReadPhase::Reconnecting
            } else {
                ReadPhase::Done
            },
            _ => ReadPhase::Done,
        },
        ReadPhase::Reconnecting => match event {
            ReadEvent::Connected(Err(_)) => ReadPhase::Done,
            _ => ReadPhase::Mapping,
        },
        ReadPhase::Mapping => match event {
            ReadEvent::Read(Err(_)) => ReadPhase::Done,
            _ => ReadPhase::LookingUp,
        },
        _ => ReadPhase::Done,
    }
}

/// The readings of a request of `route` after `event` in `phase`: a good
/// answer that is not the last of the series is added.
pub open spec fn read_next_readings(
    route: ReadRoute,
    phase: ReadPhase,
    readings: Seq<Reading>,
    event: ReadEvent,
) -> Seq<Reading> {
    if phase == ReadPhase::Reading && (event matches ReadEvent::Read(Ok(_))) && readings.len()
        + 1 < queries(route).len() {
        all_readings(readings, event)
    } else {
        readings
    }
}

/// The hub's state kept by a request of `route` after `event`: the device
/// listing keeps the hub's state it assembled when the series completes.
pub open spec fn read_next_hub(
    route: ReadRoute,
    phase: ReadPhase,
    readings: Seq<Reading>,
    hub: Option<UsbHubRest>,
    event: ReadEvent,
) -> Option<UsbHubRest> {
    if completes(route, phase, readings, event) && route == ReadRoute::UsbhubDevices && hub_mapped(
        all_readings(readings, event),
    ) {
        Some(hub_rest(all_readings(readings, event)))
    } else {
        hub
    }
}

/// The answer, if any, that a request of `route` gives to `event` in `phase`.
pub open spec fn read_answer(
    route: ReadRoute,
    phase: ReadPhase,
    readings: Seq<Reading>,
    event: ReadEvent,
) -> Option<(u16, Seq<char>)> {
    match phase {
        ReadPhase::Connecting => match event {
            ReadEvent::Connected(Err(resp)) => Some(resp@),
            _ => None,
        },
        ReadPhase::Reading => match event {
            ReadEvent::Read(Err(err)) => Some(read_failure(route, readings.len() as int, err@)),
            ReadEvent::Read(Ok(_)) => if completes(route, phase, readings, event) && (route
                == ReadRoute::Usbhub || route == ReadRoute::UsbhubDevices) && !hub_mapped(
                all_readings(readings, event),
            ) {
                Some((STATUS_INTERNAL_SERVER_ERROR, "Failed converting usb hub port state"@))
            } else {
                None
            },
            _ => None,
        },
        ReadPhase::Reconnecting => match event {
            ReadEvent::Connected(Err(_)) => Some(
                (STATUS_INTERNAL_SERVER_ERROR, "Failed getting usb hub mapping"@),
            ),
            _ => None,
        },
        ReadPhase::Mapping => match event {
            ReadEvent::Read(Err(_)) => Some(
                (STATUS_INTERNAL_SERVER_ERROR, "Failed getting usb hub mapping"@),
            ),
            _ => None,
        },
        ReadPhase::LookingUp => match event {
            ReadEvent::Found(Ok(body)) => Some((STATUS_OK, body@)),
            ReadEvent::Found(Err(_)) => Some(
                (STATUS_INTERNAL_SERVER_ERROR, "Failed setting usb hub state"@),
            ),
            _ => None,
        },
        ReadPhase::Done => None,
    }
}

/// The report, if any, with which a request of `route` answers `event` in
/// `phase`: the good answer to the last query of the series gives it.
pub open spec fn read_report(
    route: ReadRoute,
    phase: ReadPhase,
    readings: Seq<Reading>,
    event: ReadEvent,
) -> Option<Report> {
    if completes(route, phase, readings, event) {
        let all = all_readings(readings, event);
        match route {
            ReadRoute::Voltage => Some(
                Report::Voltage(
                    VoltageRest {
                        voltage_1v8: value_of(all[0]) / 1000,
                        voltage_rtc: value_of(all[1]) / 1000,
                    },
                ),
            ),
            ReadRoute::Stats => Some(
                Report::Watchdog(
                    Timeout {
                        timeout: value_of(all[0]),
                        timeout_left: value_of(all[1]),
                        shutdown_timeout: value_of(all[2]),
                        emergency_mode: flag_of(all[3]),
                    },
                ),
            ),
            ReadRoute::Usbhub => if hub_mapped(all) {
                Some(Report::Hub(hub_rest(all)))
            } else {
                None
            },
            ReadRoute::UsbhubDevices => None,
        }
    } else {
        None
    }
}

/// The query, if any, that a request of `route` sends after `event` in
/// `phase`: the first of the series after the connection, the next one after
/// a good answer that is not the last, the port mapping after the second
/// connection.
pub open spec fn read_query(
    route: ReadRoute,
    phase: ReadPhase,
    readings: Seq<Reading>,
    event: ReadEvent,
) -> Option<Query> {
    match phase {
        ReadPhase::Connecting => match event {
            ReadEvent::Connected(Ok(_)) => Some(queries(route)[0]),
            _ => None,
        },
        ReadPhase::Reading => match event {
            ReadEvent::Read(Ok(_)) => if readings.len() + 1 < queries(route).len() {
                Some(queries(route)[readings.len() + 1 as int])
            } else {
                None
            },
            _ => None,
        },
        ReadPhase::Reconnecting => match event {
            ReadEvent::Connected(Ok(_)) => Some(Query::PortMapping),
            _ => None,
        },
        _ => None,
    }
}

/// Whether a request of `route` connects again after `event` in `phase`: the
/// device listing does once the hub's state is assembled.
pub open spec fn read_reconnects(
    route: ReadRoute,
    phase: ReadPhase,
    readings: Seq<Reading>,
    event: ReadEvent,
) -> bool {
    completes(route, phase, readings, event) && route == ReadRoute::UsbhubDevices && hub_mapped(
        all_readings(readings, event),
    )
}

/// Whether a request looks up the devices after `event` in `phase`: the
/// device listing does once the port mapping is read.
pub open spec fn read_looks_up(phase: ReadPhase, event: ReadEvent) -> bool {
    phase == ReadPhase::Mapping && (event matches ReadEvent::Read(Ok(_)))
}

/// The series of queries: the voltages read the 1.8 V rail, then the RTC
/// battery; the watchdog report reads the timeout, the time left, the
/// shutdown timeout, then the emergency mode; the hub routes read the hub's
/// state, then its ports' states.
pub proof fn law_query_series()
    ensures
        queries(ReadRoute::Voltage) == seq![Query::Rail1v8, Query::RtcBattery],
        queries(ReadRoute::Stats) == seq![
            Query::Timeout,
            Query::TimeoutLeft,
            Query::ShutdownTimeout,
            Query::EmergencyMode,
        ],
        queries(ReadRoute::Usbhub) == seq![Query::HubState, Query::PortStates],
        queries(ReadRoute::UsbhubDevices) == seq![Query::HubState, Query::PortStates],
{
}

/// The reports: the voltages are the two readings in whole millivolts, rail
/// first; the watchdog report holds the four readings in the order they were
/// read; the hub's report holds the hub reading and each port's reading in
/// its own field.
pub proof fn law_reading_reports(
    a: u32,
    b: u32,
    c: u32,
    e: bool,
    hub: Option<String>,
    ports: UsbHubPortStates,
)
    ensures
        read_report(
            ReadRoute::Voltage,
            ReadPhase::Reading,
            seq![Reading::Value(a)],
            ReadEvent::Read(Ok(Reading::Value(b))),
        ) == Some(
            Report::Voltage(VoltageRest { voltage_1v8: a / 1000, voltage_rtc: b / 1000 }),
        ),
        read_report(
            ReadRoute::Stats,
            ReadPhase::Reading,
            seq![Reading::Value(a), Reading::Value(b), Reading::Value(c)],
            ReadEvent::Read(Ok(Reading::Flag(e))),
        ) == Some(
            Report::Watchdog(
                Timeout { timeout: a, timeout_left: b, shutdown_timeout: c, emergency_mode: e },
            ),
        ),
        all_mapped(hub, ports) ==> (read_report(
            ReadRoute::Usbhub,
            ReadPhase::Reading,
            seq![Reading::HubState(hub)],
            ReadEvent::Read(Ok(Reading::PortStates(ports))),
        ) matches Some(Report::Hub(rest)) && {
            &&& Some(rest.hub_state) == hub
            &&& Some(rest.port_slot_0) == ports.slot0
            &&& Some(rest.port_slot_1) == ports.slot1
            &&& Some(rest.port_slot_2) == ports.slot2
            &&& Some(rest.port_slot_3) == ports.slot3
            &&& Some(rest.port_slot_4) == ports.slot4
            &&& Some(rest.port_slot_5) == ports.slot5
            &&& Some(rest.port_slot_6) == ports.slot6
            &&& Some(rest.port_slot_7) == ports.slot7
        }),
        !all_mapped(hub, ports) ==> read_answer(
            ReadRoute::Usbhub,
            ReadPhase::Reading,
            seq![Reading::HubState(hub)],
            ReadEvent::Read(Ok(Reading::PortStates(ports))),
        ) == Some((500u16, "Failed converting usb hub port state"@)),
{
    assert(seq![Reading::Value(a)].push(Reading::Value(b))[0] == Reading::Value(a));
    assert(seq![Reading::Value(a), Reading::Value(b), Reading::Value(c)].push(
        Reading::Flag(e),
    )[1] == Reading::Value(b));
    assert(seq![Reading::HubState(hub)].push(Reading::PortStates(ports))[0] == Reading::HubState(
        hub,
    ));
}

/// A failed reading of the voltages or of the watchdog report is answered
/// with 500 and the driver's error after "Internal driver communication
/// failed: "; a failed reading of the hub routes with 500 "Failed getting usb
/// hub state" for the hub's state and "Failed getting usb hub port state"
/// for its ports.
pub proof fn law_reading_failures(readings: Seq<Reading>, err: String)
    ensures
        read_answer(ReadRoute::Voltage, ReadPhase::Reading, readings, ReadEvent::Read(Err(err)))
            == Some((500u16, "Internal driver communication failed: "@ + err@)),
        read_answer(ReadRoute::Stats, ReadPhase::Reading, readings, ReadEvent::Read(Err(err)))
            == Some((500u16, "Internal driver communication failed: "@ + err@)),
        readings.len() == 0 ==> read_answer(
            ReadRoute::Usbhub,
            ReadPhase::Reading,
            readings,
            ReadEvent::Read(Err(err)),
        ) == Some((500u16, "Failed getting usb hub state"@)),
        readings.len() == 1 ==> read_answer(
            ReadRoute::Usbhub,
            ReadPhase::Reading,
            readings,
            ReadEvent::Read(Err(err)),
        ) == Some((500u16, "Failed getting usb hub port state"@)),
        readings.len() == 0 ==> read_answer(
            ReadRoute::UsbhubDevices,
            ReadPhase::Reading,
            readings,
            ReadEvent::Read(Err(err)),
        ) == Some((500u16, "Failed getting usb hub state"@)),
        readings.len() == 1 ==> read_answer(
            ReadRoute::UsbhubDevices,
            ReadPhase::Reading,
            readings,
            ReadEvent::Read(Err(err)),
        ) == Some((500u16, "Failed getting usb hub port state"@)),
{
}

/// A request that reads the board's state, on its way to its answer. It
/// starts by connecting and moves on only by `step`.
#[derive(Debug)]
pub struct ReadRequest {
    route: ReadRoute,
    phase: ReadPhase,
    readings: Vec<Reading>,
    hub: Option<UsbHubRest>,
}

impl View for ReadRequest {
    /// The route, the phase, the readings of the route's series taken so far,
    /// and the hub's state once it is assembled.
    type V = (ReadRoute, ReadPhase, Seq<Reading>, Option<UsbHubRest>);

    closed spec fn view(&self) -> (ReadRoute, ReadPhase, Seq<Reading>, Option<UsbHubRest>) {
        (self.route, self.phase, self.readings@, self.hub)
    }
}

/// A copy of the text of a hub state reading.
fn copy_hub_state(reading: &Reading) -> (r: Option<String>)
    ensures
        r == hub_of(*reading),
{
    match reading {
        Reading::HubState(Some(text)) => Some(text.clone()),
        _ => None,
    }
}

impl ReadRequest {
    /// The readings are taken only while reading, never more than the route's
    /// series holds, and the device listing has the hub's state once it goes
    /// on past it.
    #[verifier::type_invariant]
    spec fn well_formed(self) -> bool {
        &&& self.phase == ReadPhase::Connecting ==> self.readings@.len() == 0
        &&& self.phase == ReadPhase::Reading ==> self.readings@.len() < queries(self.route).len()
        &&& (self.phase == ReadPhase::Reconnecting || self.phase == ReadPhase::Mapping
            || self.phase == ReadPhase::LookingUp) ==> self.route == ReadRoute::UsbhubDevices
            && self.hub is Some
    }

    /// A new request of `route`; its first step is to connect to the driver.
    pub fn new(route: ReadRoute) -> (r: Self)
        ensures
            r@ == (route, ReadPhase::Connecting, Seq::<Reading>::empty(), None::<UsbHubRest>),
    {
        ReadRequest { route, phase: ReadPhase::Connecting, readings: Vec::new(), hub: None }
    }

    /// The route of this request.
    pub fn route(&self) -> (r: ReadRoute)
        ensures
            r == self@.0,
    {
        self.route
    }

    /// How far this request has come.
    pub fn phase(&self) -> (p: ReadPhase)
        ensures
            p == self@.1,
    {
        self.phase
    }

    /// Takes the outcome `event` of the outside work of the current phase and
    /// says what comes next: the new state is the one that `read_next_phase`,
    /// `read_next_readings` and `read_next_hub` give, and the action is the
    /// answer, report, query, second connection or lookup that the
    /// `read_answer`, `read_report`, `read_query`, `read_reconnects` and
    /// `read_looks_up` describe.
    pub fn step(&mut self, event: ReadEvent) -> (action: ReadAction)
        requires
            read_accepts(old(self)@.0, old(self)@.1, old(self)@.2, event),
        ensures
            final(self)@.0 == old(self)@.0,
            final(self)@.1 == read_next_phase(old(self)@.0, old(self)@.1, old(self)@.2, event),
            final(self)@.2 == read_next_readings(old(self)@.0, old(self)@.1, old(self)@.2, event),
            final(self)@.3 == read_next_hub(
                old(self)@.0,
                old(self)@.1,
                old(self)@.2,
                old(self)@.3,
                event,
            ),
            read_answer(old(self)@.0, old(self)@.1, old(self)@.2, event) matches Some(answer)
                ==> read_responds_with(action, answer),
            read_report(old(self)@.0, old(self)@.1, old(self)@.2, event) matches Some(report)
                ==> action == ReadAction::Report(report),
            read_query(old(self)@.0, old(self)@.1, old(self)@.2, event) matches Some(query)
                ==> action == ReadAction::Query(query),
            read_reconnects(old(self)@.0, old(self)@.1, old(self)@.2, event) ==> action
                is Reconnect,
            read_looks_up(old(self)@.1, event) ==> (old(self)@.3 matches Some(hub) ==> (
            action matches ReadAction::LookUp(list) && list@.len() == unavailable_slots(
                hub,
                8,
            ).len() && forall|k: int|
                0 <= k < list@.len() ==> (#[trigger] list@[k]).slot_number == unavailable_slots(
                    hub,
                    8,
                )[k] && list@[k].is_disabled)),
    {
        proof {
            use_type_invariant(&*self);
        }
        let phase = self.phase;
        match phase {
            ReadPhase::Connecting => match event {
                ReadEvent::Connected(Err(resp)) => {
                    self.phase = ReadPhase::Done;
                    ReadAction::Respond(resp)
                },
                _ => {
                    self.phase = ReadPhase::Reading;
                    ReadAction::Query(self.first_query())
                },
            },
            ReadPhase::Reading => match event {
                ReadEvent::Read(Err(err)) => {
                    self.phase = ReadPhase::Done;
                    ReadAction::Respond(self.failure(err.as_str()))
                },
                ReadEvent::Read(Ok(reading)) => self.take_reading(reading),
                _ => ReadAction::Reconnect,
            },
            ReadPhase::Reconnecting => match event {
                ReadEvent::Connected(Err(_)) => {
                    self.phase = ReadPhase::Done;
                    ReadAction::Respond(usbhub_mapping_failed())
                },
                _ => {
                    self.phase = ReadPhase::Mapping;
                    ReadAction::Query(Query::PortMapping)
                },
            },
            ReadPhase::Mapping => match event {
                ReadEvent::Read(Err(_)) => {
                    self.phase = ReadPhase::Done;
                    ReadAction::Respond(usbhub_mapping_failed())
                },
                _ => {
                    self.phase = ReadPhase::LookingUp;
                    match &self.hub {
                        Some(hub) => ReadAction::LookUp(usbhub_devices(hub)),
                        None => ReadAction::LookUp(Vec::new()),
                    }
                },
            },
            _ => {
                self.phase = ReadPhase::Done;
                match event {
                    ReadEvent::Found(result) => ReadAction::Respond(usbhub_set_response(result)),
                    _ => ReadAction::Reconnect,
                }
            },
        }
    }

    /// The first query of the route's series.
    fn first_query(&self) -> (q: Query)
        ensures
            q == queries(self@.0)[0],
    {
        match self.route {
            ReadRoute::Voltage => Query::Rail1v8,
            ReadRoute::Stats => Query::Timeout,
            _ => Query::HubState,
        }
    }

    /// The answer to the failure of the next query with error text `err`.
    fn failure(&self, err: &str) -> (r: CResponse)
        ensures
            r@ == read_failure(self@.0, self@.2.len() as int, err@),
    {
        match self.route {
            ReadRoute::Voltage | ReadRoute::Stats => driver_failed(err),
            _ => if self.readings.len() == 0 {
                internal_server_error(String::from_str("Failed getting usb hub state"))
            } else {
                internal_server_error(String::from_str("Failed getting usb hub port state"))
            },
        }
    }

    /// Takes the good answer `reading` to the next query.
    fn take_reading(&mut self, reading: Reading) -> (action: ReadAction)
        requires
            old(self)@.1 == ReadPhase::Reading,
            old(self)@.2.len() < queries(old(self)@.0).len(),
            fits(queries(old(self)@.0)[old(self)@.2.len() as int], reading),
        ensures
            final(self)@.0 == old(self)@.0,
            final(self)@.2 == (if old(self)@.2.len() + 1 < queries(old(self)@.0).len() {
                old(self)@.2.push(reading)
            } else {
                old(self)@.2
            }),
            final(self)@.3 == (if old(self)@.2.len() + 1 == queries(old(self)@.0).len()
                && old(self)@.0 == ReadRoute::UsbhubDevices && hub_mapped(
                old(self)@.2.push(reading),
            ) {
                Some(hub_rest(old(self)@.2.push(reading)))
            } else {
                old(self)@.3
            }),
            old(self)@.2.len() + 1 < queries(old(self)@.0).len() ==> {
                &&& action == ReadAction::Query(queries(old(self)@.0)[old(self)@.2.len() + 1 as int])
                &&& final(self)@.1 == ReadPhase::Reading
                &&& final(self)@.2 == old(self)@.2.push(reading)
            },
            old(self)@.2.len() + 1 == queries(old(self)@.0).len() ==> {
                let all = old(self)@.2.push(reading);
                match old(self)@.0 {
                    ReadRoute::Voltage => final(self)@.1 == ReadPhase::Done && action
                        == ReadAction::Report(
                        Report::Voltage(
                            VoltageRest {
                                voltage_1v8: value_of(all[0]) / 1000,
                                voltage_rtc: value_of(all[1]) / 1000,
                            },
                        ),
                    ),
                    ReadRoute::Stats => final(self)@.1 == ReadPhase::Done && action
                        == ReadAction::Report(
                        Report::Watchdog(
                            Timeout {
                                timeout: value_of(all[0]),
                                timeout_left: value_of(all[1]),
                                shutdown_timeout: value_of(all[2]),
                                emergency_mode: flag_of(all[3]),
                            },
                        ),
                    ),
                    ReadRoute::Usbhub => final(self)@.1 == ReadPhase::Done && if all_mapped(
                        hub_of(all[0]),
                        ports_of(all[1]),
                    ) {
                        action == ReadAction::Report(
                            Report::Hub(rest_of(hub_of(all[0]), ports_of(all[1]))),
                        )
                    } else {
                        read_responds_with(
                            action,
                            (STATUS_INTERNAL_SERVER_ERROR, "Failed converting usb hub port state"@),
                        )
                    },
                    ReadRoute::UsbhubDevices => if all_mapped(hub_of(all[0]), ports_of(all[1])) {
                        &&& action == ReadAction::Reconnect
                        &&& final(self)@.1 == ReadPhase::Reconnecting
                        &&& final(self)@.3 == Some(rest_of(hub_of(all[0]), ports_of(all[1])))
                    } else {
                        &&& final(self)@.1 == ReadPhase::Done
                        &&& read_responds_with(
                            action,
                            (STATUS_INTERNAL_SERVER_ERROR, "Failed converting usb hub port state"@),
                        )
                    },
                }
            },
    {
        proof {
            use_type_invariant(&*self);
        }
        let taken = self.readings.len();
        match self.route {
            ReadRoute::Voltage => {
                if taken == 0 {
                    let mut readings = Vec::new();
                    std::mem::swap(&mut readings, &mut self.readings);
                    readings.push(reading);
                    self.readings = readings;
                    return ReadAction::Query(Query::RtcBattery);
                }
                let first = match &self.readings[0] {
                    Reading::Value(v) => *v,
                    _ => 0,
                };
                let second = match reading {
                    Reading::Value(v) => v,
                    _ => 0,
                };
                self.phase = ReadPhase::Done;
                ReadAction::Report(Report::Voltage(voltage(first, second)))
            },
            ReadRoute::Stats => {
                if taken < 3 {
                    let mut readings = Vec::new();
                    std::mem::swap(&mut readings, &mut self.readings);
                    readings.push(reading);
                    self.readings = readings;
                    if taken == 0 {
                        return ReadAction::Query(Query::TimeoutLeft);
                    } else if taken == 1 {
                        return ReadAction::Query(Query::ShutdownTimeout);
                    } else {
                        return ReadAction::Query(Query::EmergencyMode);
                    }
                }
                let timeout = match &self.readings[0] {
                    Reading::Value(v) => *v,
                    _ => 0,
                };
                let left = match &self.readings[1] {
                    Reading::Value(v) => *v,
                    _ => 0,
                };
                let shutdown = match &self.readings[2] {
                    Reading::Value(v) => *v,
                    _ => 0,
                };
                let emergency = match reading {
                    Reading::Flag(f) => f,
                    _ => false,
                };
                self.phase = ReadPhase::Done;
                ReadAction::Report(Report::Watchdog(stats(timeout, left, shutdown, emergency)))
            },
            _ => {
                if taken == 0 {
                    let mut readings = Vec::new();
                    std::mem::swap(&mut readings, &mut self.readings);
                    readings.push(reading);
                    self.readings = readings;
                    return ReadAction::Query(Query::PortStates);
                }
                let hub_state = copy_hub_state(&self.readings[0]);
                let ports = match reading {
                    Reading::PortStates(p) => p,
                    _ => {
                        // A port states reading is the only one that fits here.
                        proof {
                            assert(false);
                        }
                        return ReadAction::Reconnect;
                    },
                };
                let assembled = get_usbhub(Ok(hub_state), Ok(ports));
                match assembled {
                    Ok(hub) => {
                        if self.route == ReadRoute::Usbhub {
                            self.phase = ReadPhase::Done;
                            ReadAction::Report(Report::Hub(hub))
                        } else {
                            self.hub = Some(hub);
                            self.phase = ReadPhase::Reconnecting;
                            ReadAction::Reconnect
                        }
                    },
                    Err(resp) => {
                        self.phase = ReadPhase::Done;
                        ReadAction::Respond(resp)
                    },
                }
            },
        }
    }
}

// ---------------------------------------------------------------------------
// Whole runs of a reading request
// ---------------------------------------------------------------------------

/// The state (phase, readings, hub's state) of a request of `route` after
/// the outcomes `events`.
pub open spec fn read_state_after(route: ReadRoute, events: Seq<ReadEvent>) -> (
    ReadPhase,
    Seq<Reading>,
    Option<UsbHubRest>,
)
    decreases events.len(),
{
    if events.len() == 0 {
        (ReadPhase::Connecting, Seq::empty(), None)
    } else {
        let s = read_state_after(route, events.drop_last());
        let e = events.last();
        (
            read_next_phase(route, s.0, s.1, e),
            read_next_readings(route, s.0, s.1, e),
            read_next_hub(route, s.0, s.1, s.2, e),
        )
    }
}

/// Whether a request of `route` can take the outcomes `events` one after the
/// other.
pub open spec fn valid_read_run(route: ReadRoute, events: Seq<ReadEvent>) -> bool {
    forall|i: int|
        0 <= i < events.len() ==> read_accepts(
            route,
            read_state_after(route, events.take(i)).0,
            read_state_after(route, events.take(i)).1,
            #[trigger] events[i],
        )
}

/// The answer, if any, that a request of `route` gives to outcome number `i`
/// of `events`.
pub open spec fn answer_at(route: ReadRoute, events: Seq<ReadEvent>, i: int) -> Option<
    (u16, Seq<char>),
> {
    let s = read_state_after(route, events.take(i));
    read_answer(route, s.0, s.1, events[i])
}

/// The report, if any, with which a request of `route` answers outcome
/// number `i` of `events`.
pub open spec fn report_at(route: ReadRoute, events: Seq<ReadEvent>, i: int) -> Option<Report> {
    let s = read_state_after(route, events.take(i));
    read_report(route, s.0, s.1, events[i])
}

proof fn lemma_read_state_step(route: ReadRoute, events: Seq<ReadEvent>, i: int)
    requires
        0 <= i < events.len(),
    ensures
        ({
            let s = read_state_after(route, events.take(i));
            read_state_after(route, events.take(i + 1)) == (
                read_next_phase(route, s.0, s.1, events[i]),
                read_next_readings(route, s.0, s.1, events[i]),
                read_next_hub(route, s.0, s.1, s.2, events[i]),
            )
        }),
{
    assert(events.take(i + 1).drop_last() =~= events.take(i));
    assert(events.take(i + 1).last() == events[i]);
}

proof fn lemma_answered_is_done(
    route: ReadRoute,
    phase: ReadPhase,
    readings: Seq<Reading>,
    event: ReadEvent,
)
    requires
        read_answer(route, phase, readings, event) is Some || read_report(
            route,
            phase,
            readings,
            event,
        ) is Some,
    ensures
        read_next_phase(route, phase, readings, event) == ReadPhase::Done,
{
}

/// A reading request that has answered, by a failure or by its report,
/// takes no further outcome: nothing more is sent to the driver.
pub proof fn law_answer_ends_request(route: ReadRoute, events: Seq<ReadEvent>, i: int)
    requires
        valid_read_run(route, events),
        0 <= i < events.len(),
        answer_at(route, events, i) is Some || report_at(route, events, i) is Some,
    ensures
        i == events.len() - 1,
        read_state_after(route, events.take(i + 1)).0 == ReadPhase::Done,
{
    let s = read_state_after(route, events.take(i));
    lemma_read_state_step(route, events, i);
    lemma_answered_is_done(route, s.0, s.1, events[i]);
    if i + 1 < events.len() {
        assert(read_accepts(
            route,
            read_state_after(route, events.take(i + 1)).0,
            read_state_after(route, events.take(i + 1)).1,
            events[i + 1],
        ));
    }
}

proof fn lemma_hub_routes_agree(events: Seq<ReadEvent>, j: int)
    requires
        0 <= j <= 2,
        j <= events.len(),
    ensures
        read_state_after(ReadRoute::UsbhubDevices, events.take(j)).0 == read_state_after(
            ReadRoute::Usbhub,
            events.take(j),
        ).0,
        read_state_after(ReadRoute::UsbhubDevices, events.take(j)).1 == read_state_after(
            ReadRoute::Usbhub,
            events.take(j),
        ).1,
        j <= 1 ==> read_state_after(ReadRoute::UsbhubDevices, events.take(j)).1.len() == 0,
        j == 0 ==> read_state_after(ReadRoute::UsbhubDevices, events.take(j)).0
            == ReadPhase::Connecting,
    decreases j,
{
    if j == 0 {
        assert(events.take(0) =~= Seq::<ReadEvent>::empty());
    } else {
        lemma_hub_routes_agree(events, j - 1);
        lemma_read_state_step(ReadRoute::UsbhubDevices, events, j - 1);
        lemma_read_state_step(ReadRoute::Usbhub, events, j - 1);
    }
}

/// While the device listing reads the hub's state, it answers each outcome
/// exactly as the hub route does: a failure of the hub part (a refused
/// connection, a failed hub or port reading, a state without text) is passed
/// on unchanged, and the listing then takes nothing more, so the port mapping
/// is never asked for and no device is looked up.
pub proof fn law_device_listing_passes_hub_failure(events: Seq<ReadEvent>, i: int)
    requires
        valid_read_run(ReadRoute::UsbhubDevices, events),
        0 <= i < events.len(),
        i <= 2,
    ensures
        answer_at(ReadRoute::UsbhubDevices, events, i) == answer_at(ReadRoute::Usbhub, events, i),
        answer_at(ReadRoute::Usbhub, events, i) is Some ==> i == events.len() - 1,
{
    lemma_hub_routes_agree(events, i);
    if answer_at(ReadRoute::Usbhub, events, i) is Some {
        law_answer_ends_request(ReadRoute::UsbhubDevices, events, i);
    }
}

/// The outcome of the hub state reading `event`, as `get_usbhub` takes it.
pub open spec fn hub_outcome(event: ReadEvent) -> Result<Option<String>, String> {
    match event {
        ReadEvent::Read(Ok(r)) => Ok(hub_of(r)),
        ReadEvent::Read(Err(err)) => Err(err),
        _ => Err(arbitrary()),
    }
}

/// The outcome of the port states reading `event`, as `get_usbhub` takes it.
pub open spec fn ports_outcome(event: ReadEvent) -> Result<UsbHubPortStates, String> {
    match event {
        ReadEvent::Read(Ok(r)) => Ok(ports_of(r)),
        ReadEvent::Read(Err(err)) => Err(err),
        _ => Err(arbitrary()),
    }
}

/// The two readings of a hub route's run `events`, as `get_usbhub` takes
/// them; the port reading is a failure where it was never taken.
pub open spec fn hub_route_readings(events: Seq<ReadEvent>) -> (
    Result<Option<String>, String>,
    Result<UsbHubPortStates, String>,
) {
    (
        hub_outcome(events[1]),
        if events.len() > 2 {
            ports_outcome(events[2])
        } else {
            Err(arbitrary())
        },
    )
}

/// A finished run of the hub route answers what `get_usbhub` gives for its
/// readings: the assembled state as its report, or the answer to the first
/// failure; a refused connection is answered as it was refused, and nothing
/// is read.
#[verifier::rlimit(30)]
pub proof fn law_hub_route_answers_get_usbhub(events: Seq<ReadEvent>)
    requires
        valid_read_run(ReadRoute::Usbhub, events),
        events.len() > 0,
        read_state_after(ReadRoute::Usbhub, events).0 == ReadPhase::Done,
    ensures
        events[0] matches ReadEvent::Connected(Err(resp)) ==> events.len() == 1 && answer_at(
            ReadRoute::Usbhub,
            events,
            0,
        ) == Some(resp@),
        events[0] matches ReadEvent::Connected(Ok(_)) ==> match usbhub_result(
            hub_route_readings(events).0,
            hub_route_readings(events).1,
        ) {
            Ok(rest) => report_at(ReadRoute::Usbhub, events, events.len() - 1) == Some(
                Report::Hub(rest),
            ),
            Err(answer) => answer_at(ReadRoute::Usbhub, events, events.len() - 1) == Some(answer),
        },
{
    let route = ReadRoute::Usbhub;
    let n = events.len();
    assert(events.take(n as int) =~= events);
    lemma_hub_routes_agree(events, 0);
    assert(events.take(0) =~= Seq::<ReadEvent>::empty());
    assert(read_accepts(
        route,
        read_state_after(route, events.take(0)).0,
        read_state_after(route, events.take(0)).1,
        events[0],
    ));
    lemma_read_state_step(route, events, 0);
    if events[0] is Connected && events[0]->Connected_0 is Err {
        law_answer_ends_request(route, events, 0);
    } else {
        // The connection was made: the hub state is read next.
        if n == 1 {
            assert(read_state_after(route, events.take(1)).0 == ReadPhase::Reading);
        }
        assert(n >= 2);
        assert(read_accepts(
            route,
            read_state_after(route, events.take(1)).0,
            read_state_after(route, events.take(1)).1,
            events[1],
        ));
        lemma_read_state_step(route, events, 1);
        if events[1] is Read && events[1]->Read_0 is Err {
            law_answer_ends_request(route, events, 1);
        } else {
            // The hub state was read: the port states are read next.
            if n == 2 {
                assert(read_state_after(route, events.take(2)).0 == ReadPhase::Reading);
            }
            assert(n >= 3);
            assert(read_accepts(
                route,
                read_state_after(route, events.take(2)).0,
                read_state_after(route, events.take(2)).1,
                events[2],
            ));
            lemma_read_state_step(route, events, 2);
            let readings = read_state_after(route, events.take(2)).1;
            assert(readings.len() == 1);
            if events[2] is Read && events[2]->Read_0 is Ok {
                let all = all_readings(readings, events[2]);
                assert(all[0] == readings[0]);
                assert(hub_route_readings(events).0 == Ok::<Option<String>, String>(
                    hub_of(all[0]),
                ));
            }
            if answer_at(route, events, 2) is Some || report_at(route, events, 2) is Some {
                law_answer_ends_request(route, events, 2);
            }
        }
    }
}

} // verus!
