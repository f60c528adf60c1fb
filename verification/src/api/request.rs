//! The course of a request that sends one command to the board: connect to
//! the driver, check the request, build the command, send it, answer.
//!
//! The outside work (connecting, building and sending the command) is done
//! by the caller; this module decides, after each outcome, what comes next
//! and how the request is answered.

use vstd::prelude::*;
use vstd::string::StringExecFns;

use crate::api::cmc::hard_reset;
use crate::api::usbhub::{usbhub_reset, usbhub_set_port, usbhub_set_response};
use crate::api::watchdog::shutdown;
use crate::response::{
    command_refused, driver_failure_prefix, driver_response, CResponse, STATUS_BAD_REQUEST,
    STATUS_INTERNAL_SERVER_ERROR, STATUS_OK, STATUS_UNPROCESSABLE_ENTITY,
};

verus! {

/// The routes that send one command to the board, with the values of the
/// request.
#[derive(Debug)]
pub enum Route {
    /// Sounds the buzzer in `mode` for `duration`.
    Buzzer { mode: u8, duration: u16 },
    /// Switches the USB bootloader of the management controller.
    UsbBootloader { enabled: bool, timeout: u32 },
    /// Resets the board; `reset` must be `yes`.
    HardReset { reset: String },
    /// Switches port `number` of the USB hub to `state`; only ports 2 to 7 can
    /// be switched.
    UsbhubSetPort { number: u8, state: bool },
    /// Switches the USB hub to `state`.
    UsbhubSetHub { state: bool },
    /// Resets the USB hub; `reset` must be `yes`.
    UsbhubReset { reset: String },
    /// Sets the watchdog timeout.
    Timeout { timeout: u32 },
    /// Sets the timeout of the software shutdown.
    SwShutdownTimeout { timeout: u32 },
    /// Tells the watchdog that the system is alive.
    Alive,
    /// Saves the watchdog configuration.
    Save,
    /// Starts a software shutdown; `request` must be `start`.
    Shutdown { request: String },
}

/// The command that a route has built and sent to the board.
#[derive(Debug, Clone, Copy, PartialEq, Eq, Structural)]
pub enum Command {
    Buzzer { mode: u8, duration: u16 },
    SetUsbBootloader { enabled: bool, timeout: u32 },
    HardReset,
    SetSlotState { state: bool, number: u8 },
    SetHubState { state: bool },
    HubReset,
    WatchdogTimeout { timeout: u32 },
    SetShutdownTimeout { timeout: u32 },
    Alive,
    SaveConfig,
    SwShutdown,
}

/// The command that `route` sends, with the request's values.
pub open spec fn command_of(route: Route) -> Command {
    match route {
        Route::Buzzer { mode, duration } => Command::Buzzer { mode, duration },
        Route::UsbBootloader { enabled, timeout } => Command::SetUsbBootloader { enabled, timeout },
        Route::HardReset { .. } => Command::HardReset,
        Route::UsbhubSetPort { number, state } => Command::SetSlotState { state, number },
        Route::UsbhubSetHub { state } => Command::SetHubState { state },
        Route::UsbhubReset { .. } => Command::HubReset,
        Route::Timeout { timeout } => Command::WatchdogTimeout { timeout },
        Route::SwShutdownTimeout { timeout } => Command::SetShutdownTimeout { timeout },
        Route::Alive => Command::Alive,
        Route::Save => Command::SaveConfig,
        Route::Shutdown { .. } => Command::SwShutdown,
    }
}

/// How far a request has come.
#[derive(Debug, Clone, Copy, PartialEq, Eq, Structural)]
pub enum Phase {
    /// Waiting for the connection to the driver.
    Connecting,
    /// Waiting for the command to be built.
    Building,
    /// Waiting for the driver's answer to the command.
    Sending,
    /// Answered.
    Done,
}

/// The outcome of a piece of outside work.
#[derive(Debug)]
pub enum Event {
    /// The connection to the driver was made, or refused with an answer.
    Connected(Result<(), CResponse>),
    /// The command was built, or its builder refused the request's values with
    /// an error text.
    Built(Result<(), String>),
    /// The driver answered the command with a serialized result, or the
    /// exchange failed with an error text.
    Sent(Result<String, String>),
}

/// What the caller does next.
#[derive(Debug)]
pub enum Action {
    /// Build this command.
    Build(Command),
    /// Send the command to the driver.
    Send,
    /// Answer the request, which is then done.
    Respond(CResponse),
}

/// The answer with which `route` refuses its request, if it does.
pub open spec fn refusal(route: Route) -> Option<(u16, Seq<char>)> {
    match route {
        Route::HardReset { reset } => if reset@ == "yes"@ {
            None
        } else {
            Some((STATUS_UNPROCESSABLE_ENTITY, "value must be 'yes'"@))
        },
        Route::UsbhubReset { reset } => if reset@ == "yes"@ {
            None
        } else {
            Some((STATUS_UNPROCESSABLE_ENTITY, "value must be 'yes'"@))
        },
        Route::UsbhubSetPort { number, .. } => if 2 <= number <= 7 {
            None
        } else {
            Some((STATUS_BAD_REQUEST, "Slot is out of range"@))
        },
        Route::Shutdown { request } => if request@ == "start"@ {
            None
        } else {
            Some((STATUS_BAD_REQUEST, "value must be 'start'"@))
        },
        _ => None,
    }
}

/// Whether the command builder of `route` may refuse the request's values;
/// on the other routes a refusal by the builder is a failure of the service.
pub open spec fn build_may_fail(route: Route) -> bool {
    match route {
        Route::Buzzer { .. } | Route::UsbBootloader { .. } | Route::HardReset { .. }
        | Route::Timeout { .. } | Route::SwShutdownTimeout { .. } => true,
        _ => false,
    }
}

/// Whether `route` reports a failed exchange with the driver by a fixed text
/// of the USB hub rather than by the driver's error.
pub open spec fn reports_hub_failure(route: Route) -> bool {
    match route {
        Route::UsbhubSetPort { .. } | Route::UsbhubSetHub { .. } | Route::UsbhubReset { .. } => true,
        _ => false,
    }
}

/// The answer of `route` to a failed exchange with the driver with error text
/// `err`.
pub open spec fn send_failure(route: Route, err: Seq<char>) -> (u16, Seq<char>) {
    if reports_hub_failure(route) {
        (STATUS_INTERNAL_SERVER_ERROR, "Failed setting usb hub state"@)
    } else {
        (STATUS_INTERNAL_SERVER_ERROR, driver_failure_prefix() + err)
    }
}

/// Whether a request of `route` in `phase` can take `event`.
pub open spec fn accepts(route: Route, phase: Phase, event: Event) -> bool {
    match (phase, event) {
        (Phase::Connecting, Event::Connected(_)) => true,
        (Phase::Building, Event::Built(Ok(_))) => true,
        (Phase::Building, Event::Built(Err(_))) => build_may_fail(route),
        (Phase::Sending, Event::Sent(_)) => true,
        _ => false,
    }
}

/// The phase of a request of `route` after `event` in `phase`.
pub open spec fn next_phase(route: Route, phase: Phase, event: Event) -> Phase {
    match event {
        Event::Connected(Ok(_)) => if refusal(route) is Some {
            Phase::Done
        } else {
            Phase::Building
        },
        Event::Built(Ok(_)) => Phase::Sending,
        _ => Phase::Done,
    }
}

/// Whether the request sends its command after `event` in `phase`.
pub open spec fn sends(phase: Phase, event: Event) -> bool {
    phase == Phase::Building && event matches Event::Built(Ok(_))
}

/// Whether `action` answers the request with `answer`.
pub open spec fn responds_with(action: Action, answer: (u16, Seq<char>)) -> bool {
    action matches Action::Respond(resp) && resp@ == answer
}

impl Route {
    /// Whether the command builder of this route may refuse the request's
    /// values.
    pub fn build_may_fail(&self) -> (r: bool)
        ensures
            r == build_may_fail(*self),
    {
        match self {
            Route::Buzzer { .. } | Route::UsbBootloader { .. } | Route::HardReset { .. }
            | Route::Timeout { .. } | Route::SwShutdownTimeout { .. } => true,
            _ => false,
        }
    }

    /// The command this route sends, with the request's values.
    pub fn command(&self) -> (c: Command)
        ensures
            c == command_of(*self),
    {
        match self {
            Route::Buzzer { mode, duration } => Command::Buzzer { mode: *mode, duration: *duration },
            Route::UsbBootloader { enabled, timeout } => Command::SetUsbBootloader {
                enabled: *enabled,
                timeout: *timeout,
            },
            Route::HardReset { .. } => Command::HardReset,
            Route::UsbhubSetPort { number, state } => Command::SetSlotState {
                state: *state,
                number: *number,
            },
            Route::UsbhubSetHub { state } => Command::SetHubState { state: *state },
            Route::UsbhubReset { .. } => Command::HubReset,
            Route::Timeout { timeout } => Command::WatchdogTimeout { timeout: *timeout },
            Route::SwShutdownTimeout { timeout } => Command::SetShutdownTimeout {
                timeout: *timeout,
            },
            Route::Alive => Command::Alive,
            Route::Save => Command::SaveConfig,
            Route::Shutdown { .. } => Command::SwShutdown,
        }
    }

    /// The route's own check of its request.
    fn check(&self) -> (r: Result<(), CResponse>)
        ensures
            refusal(*self) is None ==> r is Ok,
            refusal(*self) matches Some(answer) ==> (r matches Err(resp) && resp@ == answer),
    {
        match self {
            Route::HardReset { reset } => hard_reset(reset.as_str()),
            Route::UsbhubReset { reset } => usbhub_reset(reset.as_str()),
            Route::UsbhubSetPort { number, .. } => usbhub_set_port(*number),
            Route::Shutdown { request } => shutdown(request.as_str()),
            _ => Ok(()),
        }
    }

    /// The answer of this route to the driver's answer `result`.
    fn answer(&self, result: Result<String, String>) -> (r: CResponse)
        ensures
            result matches Ok(body) ==> r@ == (STATUS_OK, body@),
            result matches Err(err) ==> r@ == send_failure(*self, err@),
    {
        match self {
            Route::UsbhubSetPort { .. } | Route::UsbhubSetHub { .. } | Route::UsbhubReset { .. } => {
                usbhub_set_response(result)
            },
            _ => driver_response(result),
        }
    }
}

/// A request of one route on its way to its answer. It starts by connecting
/// and moves on only by `step`.
#[derive(Debug)]
pub struct CommandRequest {
    route: Route,
    phase: Phase,
}

impl View for CommandRequest {
    /// The route of the request and its phase.
    type V = (Route, Phase);

    closed spec fn view(&self) -> (Route, Phase) {
        (self.route, self.phase)
    }
}

impl CommandRequest {
    /// A new request of `route`; its first step is to connect to the driver.
    pub fn new(route: Route) -> (r: Self)
        ensures
            r@ == (route, Phase::Connecting),
    {
        CommandRequest { route, phase: Phase::Connecting }
    }

    /// The route of this request.
    pub fn route(&self) -> (r: &Route)
        ensures
            *r == self@.0,
    {
        &self.route
    }

    /// How far this request has come.
    pub fn phase(&self) -> (p: Phase)
        ensures
            p == self@.1,
    {
        self.phase
    }

    /// Takes the outcome `event` of the outside work of the current phase and
    /// says what comes next: a failed connection is answered as the
    /// connection was refused; a connection is followed by the route's check,
    /// which answers a refused request at once; then the command is built and
    /// sent, and the driver's answer is answered.
    pub fn step(&mut self, event: Event) -> (action: Action)
        requires
            accepts(old(self)@.0, old(self)@.1, event),
        ensures
            final(self)@.0 == old(self)@.0,
            final(self)@.1 == next_phase(old(self)@.0, old(self)@.1, event),
            action is Send <==> sends(old(self)@.1, event),
            event matches Event::Connected(Err(resp)) ==> responds_with(action, resp@),
            event is Connected && event->Connected_0 is Ok ==> match refusal(old(self)@.0) {
                Some(answer) => responds_with(action, answer),
                None => action == Action::Build(command_of(old(self)@.0)),
            },
            event matches Event::Built(Err(err)) ==> responds_with(
                action,
                (STATUS_UNPROCESSABLE_ENTITY, err@),
            ),
            event matches Event::Sent(Ok(body)) ==> responds_with(action, (STATUS_OK, body@)),
            event matches Event::Sent(Err(err)) ==> responds_with(
                action,
                send_failure(old(self)@.0, err@),
            ),
    {
        match event {
            Event::Connected(Err(resp)) => {
                self.phase = Phase::Done;
                Action::Respond(resp)
            },
            Event::Connected(Ok(())) => {
                match self.route.check() {
                    Err(resp) => {
                        self.phase = Phase::Done;
                        Action::Respond(resp)
                    },
                    Ok(()) => {
                        self.phase = Phase::Building;
                        Action::Build(self.route.command())
                    },
                }
            },
            Event::Built(Err(err)) => {
                self.phase = Phase::Done;
                Action::Respond(command_refused(err.as_str()))
            },
            Event::Built(Ok(())) => {
                self.phase = Phase::Sending;
                Action::Send
            },
            Event::Sent(result) => {
                self.phase = Phase::Done;
                Action::Respond(self.route.answer(result))
            },
        }
    }
}

/// A request to switch a port of the hub is refused exactly when its port
/// number lies outside 2 to 7, with 400 "Slot is out of range", whatever
/// state it asks for.
pub proof fn law_set_port_refusal(number: u8, state: bool)
    ensures
        refusal(Route::UsbhubSetPort { number, state }) is None <==> (2 <= number && number <= 7),
        (number < 2 || number > 7) ==> refusal(Route::UsbhubSetPort { number, state }) == Some(
            (STATUS_BAD_REQUEST, "Slot is out of range"@),
        ),
{
}

/// The routes that carry no confirmation text or port number are never
/// refused by their own check; those that do are refused exactly when the
/// confirmation is not `yes` (resets) or `start` (shutdown).
pub proof fn law_route_refusals(
    mode: u8,
    duration: u16,
    enabled: bool,
    timeout: u32,
    state: bool,
    text: String,
)
    ensures
        refusal(Route::Buzzer { mode, duration }) is None,
        refusal(Route::UsbBootloader { enabled, timeout }) is None,
        refusal(Route::UsbhubSetHub { state }) is None,
        refusal(Route::Timeout { timeout }) is None,
        refusal(Route::SwShutdownTimeout { timeout }) is None,
        refusal(Route::Alive) is None,
        refusal(Route::Save) is None,
        refusal(Route::HardReset { reset: text }) is None <==> text@ == "yes"@,
        refusal(Route::UsbhubReset { reset: text }) is None <==> text@ == "yes"@,
        refusal(Route::Shutdown { request: text }) is None <==> text@ == "start"@,
{
}

/// Each route's command carries the request's own values: the buzzer's mode
/// and duration, the bootloader's switch and timeout, the port's state and
/// number, the hub's state and the watchdog's timeouts, each unchanged and
/// each to its own command.
pub proof fn law_commands_carry_request_values(
    mode: u8,
    duration: u16,
    enabled: bool,
    timeout: u32,
    state: bool,
    number: u8,
    text: String,
)
    ensures
        command_of(Route::Buzzer { mode, duration }) == (Command::Buzzer { mode, duration }),
        command_of(Route::UsbBootloader { enabled, timeout }) == (Command::SetUsbBootloader {
            enabled,
            timeout,
        }),
        command_of(Route::HardReset { reset: text }) == Command::HardReset,
        command_of(Route::UsbhubSetPort { number, state }) == (Command::SetSlotState {
            state,
            number,
        }),
        command_of(Route::UsbhubSetHub { state }) == (Command::SetHubState { state }),
        command_of(Route::UsbhubReset { reset: text }) == Command::HubReset,
        command_of(Route::Timeout { timeout }) == (Command::WatchdogTimeout { timeout }),
        command_of(Route::SwShutdownTimeout { timeout }) == (Command::SetShutdownTimeout {
            timeout,
        }),
        command_of(Route::Alive) == Command::Alive,
        command_of(Route::Save) == Command::SaveConfig,
        command_of(Route::Shutdown { request: text }) == Command::SwShutdown,
{
}

/// The confirmation texts: a reset is refused with 422 "value must be 'yes'"
/// unless confirmed by `yes`, a shutdown with 400 "value must be 'start'"
/// unless confirmed by `start`.
pub proof fn law_confirmation_refusals(text: String)
    ensures
        text@ != "yes"@ ==> refusal(Route::HardReset { reset: text }) == Some(
            (422u16, "value must be 'yes'"@),
        ),
        text@ != "yes"@ ==> refusal(Route::UsbhubReset { reset: text }) == Some(
            (422u16, "value must be 'yes'"@),
        ),
        text@ != "start"@ ==> refusal(Route::Shutdown { request: text }) == Some(
            (400u16, "value must be 'start'"@),
        ),
{
}

/// The builder of the buzzer, bootloader, hard reset and both watchdog
/// timeouts may refuse the request's values (answered with 422); the other
/// routes' builders may not. A failed exchange of the three USB hub switches
/// is answered with 500 "Failed setting usb hub state"; that of every other
/// route with 500 and the driver's error after "Internal driver communication
/// failed: ".
pub proof fn law_build_and_send_failures(
    mode: u8,
    duration: u16,
    enabled: bool,
    timeout: u32,
    state: bool,
    number: u8,
    text: String,
    err: Seq<char>,
)
    ensures
        build_may_fail(Route::Buzzer { mode, duration }),
        build_may_fail(Route::UsbBootloader { enabled, timeout }),
        build_may_fail(Route::HardReset { reset: text }),
        build_may_fail(Route::Timeout { timeout }),
        build_may_fail(Route::SwShutdownTimeout { timeout }),
        !build_may_fail(Route::UsbhubSetPort { number, state }),
        !build_may_fail(Route::UsbhubSetHub { state }),
        !build_may_fail(Route::UsbhubReset { reset: text }),
        !build_may_fail(Route::Alive),
        !build_may_fail(Route::Save),
        !build_may_fail(Route::Shutdown { request: text }),
        send_failure(Route::UsbhubSetPort { number, state }, err) == (
            500u16,
            "Failed setting usb hub state"@,
        ),
        send_failure(Route::UsbhubSetHub { state }, err) == (500u16, "Failed setting usb hub state"@),
        send_failure(Route::UsbhubReset { reset: text }, err) == (
            500u16,
            "Failed setting usb hub state"@,
        ),
        send_failure(Route::Buzzer { mode, duration }, err) == (
            500u16,
            "Internal driver communication failed: "@ + err,
        ),
        send_failure(Route::UsbBootloader { enabled, timeout }, err) == (
            500u16,
            "Internal driver communication failed: "@ + err,
        ),
        send_failure(Route::HardReset { reset: text }, err) == (
            500u16,
            "Internal driver communication failed: "@ + err,
        ),
        send_failure(Route::Timeout { timeout }, err) == (
            500u16,
            "Internal driver communication failed: "@ + err,
        ),
        send_failure(Route::SwShutdownTimeout { timeout }, err) == (
            500u16,
            "Internal driver communication failed: "@ + err,
        ),
        send_failure(Route::Alive, err) == (500u16, "Internal driver communication failed: "@ + err),
        send_failure(Route::Save, err) == (500u16, "Internal driver communication failed: "@ + err),
        send_failure(Route::Shutdown { request: text }, err) == (
            500u16,
            "Internal driver communication failed: "@ + err,
        ),
{
}

/// The phase of a request of `route` after the outcomes `events`.
pub open spec fn phase_after(route: Route, events: Seq<Event>) -> Phase
    decreases events.len(),
{
    if events.len() == 0 {
        Phase::Connecting
    } else {
        next_phase(route, phase_after(route, events.drop_last()), events.last())
    }
}

/// Whether a request of `route` can take the outcomes `events` one after the
/// other.
pub open spec fn valid_run(route: Route, events: Seq<Event>) -> bool {
    forall|i: int|
        0 <= i < events.len() ==> accepts(route, phase_after(route, events.take(i)), #[trigger] events[i])
}

/// How far `phase` has come.
pub open spec fn progress(phase: Phase) -> int {
    match phase {
        Phase::Connecting => 0,
        Phase::Building => 1,
        Phase::Sending => 2,
        Phase::Done => 3,
    }
}

proof fn lemma_phase_after_step(route: Route, events: Seq<Event>, i: int)
    requires
        0 <= i < events.len(),
    ensures
        phase_after(route, events.take(i + 1)) == next_phase(
            route,
            phase_after(route, events.take(i)),
            events[i],
        ),
{
    assert(events.take(i + 1).drop_last() =~= events.take(i));
}

proof fn lemma_progress(route: Route, events: Seq<Event>, j: int)
    requires
        valid_run(route, events),
        0 <= j <= events.len(),
    ensures
        progress(phase_after(route, events.take(j))) >= j,
        forall|i: int|
            0 <= i < j ==> progress(phase_after(route, events.take(i))) < progress(
                #[trigger] phase_after(route, events.take(j)),
            ),
    decreases j,
{
    if j == 0 {
        assert(events.take(0) =~= Seq::<Event>::empty());
    } else {
        lemma_progress(route, events, j - 1);
        lemma_phase_after_step(route, events, j - 1);
        assert(accepts(route, phase_after(route, events.take(j - 1)), events[j - 1]));
    }
}

/// A request takes at most three outcomes before it is answered: connecting,
/// building and sending.
pub proof fn law_at_most_three_steps(route: Route, events: Seq<Event>)
    requires
        valid_run(route, events),
    ensures
        events.len() <= 3,
{
    if events.len() > 0 {
        let last = events.len() - 1;
        lemma_progress(route, events, last);
        assert(accepts(route, phase_after(route, events.take(last)), events[last]));
    }
}

/// A request sends its command at most once, and only after its check passed
/// and its command was built.
pub proof fn law_sends_at_most_once(route: Route, events: Seq<Event>, i: int, j: int)
    requires
        valid_run(route, events),
        0 <= i < events.len(),
        0 <= j < events.len(),
        sends(phase_after(route, events.take(i)), events[i]),
        sends(phase_after(route, events.take(j)), events[j]),
    ensures
        i == j,
        refusal(route) is None,
{
    lemma_progress(route, events, i);
    lemma_progress(route, events, j);
    if i < j {
        assert(progress(phase_after(route, events.take(i))) < progress(
            phase_after(route, events.take(j)),
        ));
    } else if j < i {
        assert(progress(phase_after(route, events.take(j))) < progress(
            phase_after(route, events.take(i)),
        ));
    }
    lemma_refused_stays_connecting_or_done(route, events, i);
}

proof fn lemma_refused_stays_connecting_or_done(route: Route, events: Seq<Event>, j: int)
    requires
        valid_run(route, events),
        0 <= j <= events.len(),
    ensures
        refusal(route) is Some ==> phase_after(route, events.take(j)) == Phase::Connecting
            || phase_after(route, events.take(j)) == Phase::Done,
    decreases j,
{
    if j == 0 {
        assert(events.take(0) =~= Seq::<Event>::empty());
    } else {
        lemma_refused_stays_connecting_or_done(route, events, j - 1);
        lemma_phase_after_step(route, events, j - 1);
        assert(accepts(route, phase_after(route, events.take(j - 1)), events[j - 1]));
    }
}

/// A request that its route refuses never sends its command to the board.
pub proof fn law_refused_request_sends_nothing(route: Route, events: Seq<Event>)
    requires
        refusal(route) is Some,
        valid_run(route, events),
    ensures
        forall|i: int|
            0 <= i < events.len() ==> !sends(phase_after(route, events.take(i)), #[trigger] events[i]),
{
    assert forall|i: int| 0 <= i < events.len() implies !sends(
        phase_after(route, events.take(i)),
        #[trigger] events[i],
    ) by {
        lemma_refused_stays_connecting_or_done(route, events, i);
    }
}

} // verus!
