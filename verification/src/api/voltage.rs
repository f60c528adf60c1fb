//! The board's supply voltages.

use vstd::prelude::*;

use crate::api::reading::Query;
use crate::response::{driver_failed, driver_failure_prefix, CResponse, STATUS_INTERNAL_SERVER_ERROR};

verus! {

/// The 1.8 V rail and the RTC battery voltage, in millivolts.
#[derive(Debug, Clone, Copy, PartialEq, Eq, Structural)]
pub struct VoltageRest {
    pub voltage_1v8: u32,
    pub voltage_rtc: u32,
}

/// The voltage report from the driver's readings in microvolts: each reading
/// in whole millivolts, the remainder dropped.
pub fn voltage(rail_1v8_uv: u32, rtc_battery_uv: u32) -> (r: VoltageRest)
    ensures
        r.voltage_1v8 == rail_1v8_uv / 1000,
        r.voltage_rtc == rtc_battery_uv / 1000,
{
    VoltageRest { voltage_1v8: rail_1v8_uv / 1000, voltage_rtc: rtc_battery_uv / 1000 }
}

/// The two thermistor readings in microvolts, both asked for before either
/// is looked at: a failed first reading is answered before a failed second
/// one.
pub fn temperature(
    ntc_0: Result<u32, String>,
    ntc_1: Result<u32, String>,
) -> (r: Result<(u32, u32), CResponse>)
    ensures
        ntc_0 matches Err(err) ==> (r matches Err(e) && e@ == (
            STATUS_INTERNAL_SERVER_ERROR,
            driver_failure_prefix() + err@,
        )),
        ntc_0 matches Ok(a) ==> (ntc_1 matches Err(err) ==> (r matches Err(e) && e@ == (
            STATUS_INTERNAL_SERVER_ERROR,
            driver_failure_prefix() + err@,
        ))),
        ntc_0 matches Ok(a) ==> (ntc_1 matches Ok(b) ==> r == Ok::<(u32, u32), CResponse>(
            (a, b),
        )),
{
    let a = match ntc_0 {
        Ok(a) => a,
        Err(err) => return Err(driver_failed(err.as_str())),
    };
    let b = match ntc_1 {
        Ok(b) => b,
        Err(err) => return Err(driver_failed(err.as_str())),
    };
    Ok((a, b))
}

/// The answer that `temperature` gives to the readings `ntc_0` and `ntc_1`:
/// both microvolt readings, or the failure of the first failed one.
pub open spec fn temperature_result(
    ntc_0: Result<u32, String>,
    ntc_1: Result<u32, String>,
) -> Result<(u32, u32), (u16, Seq<char>)> {
    match ntc_0 {
        Err(err) => Err((STATUS_INTERNAL_SERVER_ERROR, driver_failure_prefix() + err@)),
        Ok(a) => match ntc_1 {
            Err(err) => Err((STATUS_INTERNAL_SERVER_ERROR, driver_failure_prefix() + err@)),
            Ok(b) => Ok((a, b)),
        },
    }
}

/// Two good thermistor readings are reported as they are, first then second;
/// a failed first reading is answered with its own error, whatever the
/// second gave, and a failed second one after a good first one with its own.
pub proof fn law_temperature_readings(a: u32, b: u32, e1: String, e2: String, second: Result<
    u32,
    String,
>)
    ensures
        temperature_result(Ok(a), Ok(b)) == Ok::<(u32, u32), (u16, Seq<char>)>((a, b)),
        temperature_result(Err(e1), second) == Err::<(u32, u32), (u16, Seq<char>)>(
            (500u16, "Internal driver communication failed: "@ + e1@),
        ),
        temperature_result(Ok(a), Err(e2)) == Err::<(u32, u32), (u16, Seq<char>)>(
            (500u16, "Internal driver communication failed: "@ + e2@),
        ),
{
}

/// How far a temperature request has come.
#[derive(Debug, Clone, Copy, PartialEq, Eq, Structural)]
pub enum TemperaturePhase {
    /// Waiting for the connection to the driver.
    Connecting,
    /// Waiting for the first thermistor's reading.
    ReadingFirst,
    /// Waiting for the second thermistor's reading.
    ReadingSecond,
    /// Answered.
    Done,
}

/// The outcome of a piece of outside work of a temperature request.
#[derive(Debug)]
pub enum TemperatureEvent {
    /// The connection to the driver was made, or refused with an answer.
    Connected(Result<(), CResponse>),
    /// The reading of a thermistor in microvolts, or the error text of the
    /// failed exchange.
    Read(Result<u32, String>),
}

/// What the caller does next.
#[derive(Debug)]
pub enum TemperatureAction {
    /// Send this query to the driver.
    Query(Query),
    /// Answer with the temperatures that the two microvolt readings give.
    Report(u32, u32),
    /// Answer the request, which is then done.
    Respond(CResponse),
}

/// The course of a temperature request: connect, read both thermistors, and
/// only then look at the readings. A new request waits for the connection;
/// `step` alone moves it on.
#[derive(Debug)]
pub struct TemperatureRequest {
    phase: TemperaturePhase,
    first: Option<Result<u32, String>>,
}

impl View for TemperatureRequest {
    /// The phase and the first reading once it is taken.
    type V = (TemperaturePhase, Option<Result<u32, String>>);

    closed spec fn view(&self) -> (TemperaturePhase, Option<Result<u32, String>>) {
        (self.phase, self.first)
    }
}

impl TemperatureRequest {
    /// The first reading is kept while the second is awaited.
    #[verifier::type_invariant]
    spec fn well_formed(self) -> bool {
        self.phase == TemperaturePhase::ReadingSecond ==> self.first is Some
    }

    /// A new request; its first step is to connect to the driver.
    pub fn new() -> (r: Self)
        ensures
            r@ == (TemperaturePhase::Connecting, None::<Result<u32, String>>),
    {
        TemperatureRequest { phase: TemperaturePhase::Connecting, first: None }
    }

    /// How far the request has come.
    pub fn phase(&self) -> (p: TemperaturePhase)
        ensures
            p == self@.0,
    {
        self.phase
    }

    /// Takes the outcome `event` and says what comes next: a refused
    /// connection is answered as it was refused; a connection is followed by
    /// both readings, whatever the first one gave; then the first failed
    /// reading is answered, or the two readings are reported.
    pub fn step(&mut self, event: TemperatureEvent) -> (action: TemperatureAction)
        requires
            old(self)@.0 == TemperaturePhase::Connecting ==> event is Connected,
            old(self)@.0 == TemperaturePhase::ReadingFirst ==> event is Read,
            old(self)@.0 == TemperaturePhase::ReadingSecond ==> event is Read,
            old(self)@.0 != TemperaturePhase::Done,
        ensures
            old(self)@.0 == TemperaturePhase::Connecting ==> match event {
                TemperatureEvent::Connected(Err(resp)) => final(self)@.0 == TemperaturePhase::Done
                    && (action matches TemperatureAction::Respond(r) && r@ == resp@),
                _ => final(self)@.0 == TemperaturePhase::ReadingFirst && action
                    == TemperatureAction::Query(Query::Ntc0),
            },
            old(self)@.0 == TemperaturePhase::ReadingFirst ==> match event {
                TemperatureEvent::Read(first) => final(self)@ == (
                    TemperaturePhase::ReadingSecond,
                    Some(first),
                ) && action == TemperatureAction::Query(Query::Ntc1),
                _ => false,
            },
            old(self)@.0 == TemperaturePhase::ReadingSecond ==> final(self)@.0
                == TemperaturePhase::Done && match event {
                TemperatureEvent::Read(second) => match temperature_result(
                    old(self)@.1->0,
                    second,
                ) {
                    Ok((a, b)) => action == TemperatureAction::Report(a, b),
                    Err(answer) => (action matches TemperatureAction::Respond(r) && r@ == answer),
                },
                _ => false,
            },
    {
        proof {
            use_type_invariant(&*self);
        }
        match self.phase {
            TemperaturePhase::Connecting => match event {
                TemperatureEvent::Connected(Err(resp)) => {
                    self.phase = TemperaturePhase::Done;
                    TemperatureAction::Respond(resp)
                },
                _ => {
                    self.phase = TemperaturePhase::ReadingFirst;
                    TemperatureAction::Query(Query::Ntc0)
                },
            },
            TemperaturePhase::ReadingFirst => match event {
                TemperatureEvent::Read(first) => {
                    self.first = Some(first);
                    self.phase = TemperaturePhase::ReadingSecond;
                    TemperatureAction::Query(Query::Ntc1)
                },
                _ => TemperatureAction::Query(Query::Ntc0),
            },
            _ => {
                self.phase = TemperaturePhase::Done;
                let mut kept = None;
                std::mem::swap(&mut kept, &mut self.first);
                let first = match kept {
                    Some(first) => first,
                    None => Ok(0),
                };
                match event {
                    TemperatureEvent::Read(second) => match temperature(first, second) {
                        Ok((a, b)) => TemperatureAction::Report(a, b),
                        Err(resp) => TemperatureAction::Respond(resp),
                    },
                    _ => TemperatureAction::Query(Query::Ntc0),
                }
            },
        }
    }
}

} // verus!
