use rest_bmc::api::request::{Action, Command, CommandRequest, Event, Phase, Route};
use rest_bmc::response::{internal_server_error, CResponse};

fn respond(action: Action) -> CResponse {
    match action {
        Action::Respond(r) => r,
        _ => panic!("expected an answer"),
    }
}

#[test]
fn command_is_sent_after_connect_and_build() {
    let mut req = CommandRequest::new(Route::Buzzer { mode: 2, duration: 500 });
    assert_eq!(req.phase(), Phase::Connecting);
    assert!(matches!(
        req.step(Event::Connected(Ok(()))),
        Action::Build(Command::Buzzer { mode: 2, duration: 500 })
    ));
    assert_eq!(req.phase(), Phase::Building);
    assert!(matches!(req.step(Event::Built(Ok(()))), Action::Send));
    assert_eq!(req.phase(), Phase::Sending);
    let r = respond(req.step(Event::Sent(Ok("{\"state\": 1}".to_string()))));
    assert_eq!(r.status(), 200);
    assert_eq!(r.body(), "{\"state\": 1}");
    assert_eq!(req.phase(), Phase::Done);
}

#[test]
fn failed_connection_is_answered() {
    let mut req = CommandRequest::new(Route::Alive);
    let r = respond(req.step(Event::Connected(Err(internal_server_error("no driver".to_string())))));
    assert_eq!(r.status(), 500);
    assert_eq!(r.body(), "no driver");
    assert_eq!(req.phase(), Phase::Done);
}

#[test]
fn refused_requests_are_answered_before_building() {
    let mut req = CommandRequest::new(Route::HardReset { reset: "no".to_string() });
    let r = respond(req.step(Event::Connected(Ok(()))));
    assert_eq!((r.status(), r.body().as_str()), (422, "value must be 'yes'"));
    assert_eq!(req.phase(), Phase::Done);

    let mut req = CommandRequest::new(Route::UsbhubSetPort { number: 1, state: true });
    let r = respond(req.step(Event::Connected(Ok(()))));
    assert_eq!((r.status(), r.body().as_str()), (400, "Slot is out of range"));

    let mut req = CommandRequest::new(Route::UsbhubReset { reset: "nope".to_string() });
    let r = respond(req.step(Event::Connected(Ok(()))));
    assert_eq!((r.status(), r.body().as_str()), (422, "value must be 'yes'"));

    let mut req = CommandRequest::new(Route::Shutdown { request: "now".to_string() });
    let r = respond(req.step(Event::Connected(Ok(()))));
    assert_eq!((r.status(), r.body().as_str()), (400, "value must be 'start'"));
}

#[test]
fn accepted_checks_go_on_to_build() {
    for route in [
        Route::HardReset { reset: "yes".to_string() },
        Route::UsbhubSetPort { number: 7, state: false },
        Route::UsbhubReset { reset: "yes".to_string() },
        Route::Shutdown { request: "start".to_string() },
    ] {
        let mut req = CommandRequest::new(route);
        assert!(matches!(req.step(Event::Connected(Ok(()))), Action::Build(_)));
    }
}

#[test]
fn builder_refusal_is_unprocessable() {
    let mut req = CommandRequest::new(Route::Timeout { timeout: 90 });
    assert!(req.route().build_may_fail());
    req.step(Event::Connected(Ok(())));
    let r = respond(req.step(Event::Built(Err("timeout too large".to_string()))));
    assert_eq!((r.status(), r.body().as_str()), (422, "timeout too large"));
    assert!(!Route::Save.build_may_fail());
    assert!(!Route::UsbhubSetHub { state: true }.build_may_fail());
}

#[test]
fn send_failures_per_route() {
    let mut req = CommandRequest::new(Route::Save);
    req.step(Event::Connected(Ok(())));
    req.step(Event::Built(Ok(())));
    let r = respond(req.step(Event::Sent(Err("pipe".to_string()))));
    assert_eq!((r.status(), r.body().as_str()), (500, "Internal driver communication failed: pipe"));

    let mut req = CommandRequest::new(Route::UsbhubSetHub { state: true });
    req.step(Event::Connected(Ok(())));
    req.step(Event::Built(Ok(())));
    let r = respond(req.step(Event::Sent(Err("pipe".to_string()))));
    assert_eq!((r.status(), r.body().as_str()), (500, "Failed setting usb hub state"));
}

#[test]
fn commands_carry_the_request_values() {
    let cases = [
        (Route::Timeout { timeout: 30 }, Command::WatchdogTimeout { timeout: 30 }),
        (Route::SwShutdownTimeout { timeout: 45 }, Command::SetShutdownTimeout { timeout: 45 }),
        (Route::UsbhubSetPort { number: 4, state: true }, Command::SetSlotState { state: true, number: 4 }),
        (Route::UsbhubSetHub { state: false }, Command::SetHubState { state: false }),
        (Route::UsbBootloader { enabled: true, timeout: 7 }, Command::SetUsbBootloader { enabled: true, timeout: 7 }),
        (Route::HardReset { reset: "yes".to_string() }, Command::HardReset),
        (Route::UsbhubReset { reset: "yes".to_string() }, Command::HubReset),
        (Route::Alive, Command::Alive),
        (Route::Save, Command::SaveConfig),
        (Route::Shutdown { request: "start".to_string() }, Command::SwShutdown),
    ];
    for (route, expected) in cases {
        assert_eq!(route.command(), expected);
        let mut req = CommandRequest::new(route);
        match req.step(Event::Connected(Ok(()))) {
            Action::Build(c) => assert_eq!(c, expected),
            other => panic!("expected a command, got {:?}", other),
        }
    }
}
