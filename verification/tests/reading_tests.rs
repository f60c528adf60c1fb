use rest_bmc::api::reading::{
    Query, ReadAction, ReadEvent, ReadPhase, ReadRequest, ReadRoute, Reading, Report,
};
use rest_bmc::api::usbhub::{UsbHubMapping, UsbHubPortStates};
use rest_bmc::response::{internal_server_error, CResponse};

fn s(text: &str) -> String {
    text.to_string()
}

fn respond(action: ReadAction) -> CResponse {
    match action {
        ReadAction::Respond(r) => r,
        other => panic!("expected an answer, got {:?}", other),
    }
}

fn query(action: ReadAction) -> Query {
    match action {
        ReadAction::Query(q) => q,
        other => panic!("expected a query, got {:?}", other),
    }
}

fn ports(texts: [Option<&str>; 8]) -> UsbHubPortStates {
    let t = texts.map(|o| o.map(s));
    let [slot0, slot1, slot2, slot3, slot4, slot5, slot6, slot7] = t;
    UsbHubPortStates { slot0, slot1, slot2, slot3, slot4, slot5, slot6, slot7 }
}

#[test]
fn refused_connection_is_passed_through() {
    for route in [ReadRoute::Voltage, ReadRoute::Stats, ReadRoute::Usbhub, ReadRoute::UsbhubDevices] {
        let mut req = ReadRequest::new(route);
        let r = respond(req.step(ReadEvent::Connected(Err(internal_server_error(s("no driver"))))));
        assert_eq!((r.status(), r.body().as_str()), (500, "no driver"));
        assert_eq!(req.phase(), ReadPhase::Done);
    }
}

#[test]
fn watchdog_report_reads_in_order() {
    let mut req = ReadRequest::new(ReadRoute::Stats);
    assert_eq!(query(req.step(ReadEvent::Connected(Ok(())))), Query::Timeout);
    assert_eq!(query(req.step(ReadEvent::Read(Ok(Reading::Value(60))))), Query::TimeoutLeft);
    assert_eq!(query(req.step(ReadEvent::Read(Ok(Reading::Value(42))))), Query::ShutdownTimeout);
    assert_eq!(query(req.step(ReadEvent::Read(Ok(Reading::Value(120))))), Query::EmergencyMode);
    match req.step(ReadEvent::Read(Ok(Reading::Flag(true)))) {
        ReadAction::Report(Report::Watchdog(t)) => {
            assert_eq!((t.timeout, t.timeout_left, t.shutdown_timeout, t.emergency_mode), (60, 42, 120, true));
        }
        other => panic!("expected a report, got {:?}", other),
    }
    assert_eq!(req.phase(), ReadPhase::Done);
}

#[test]
fn watchdog_report_stops_at_first_failure() {
    for k in 0..4 {
        let mut req = ReadRequest::new(ReadRoute::Stats);
        req.step(ReadEvent::Connected(Ok(())));
        for _ in 0..k {
            req.step(ReadEvent::Read(Ok(Reading::Value(1))));
        }
        let r = respond(req.step(ReadEvent::Read(Err(s("lost")))));
        assert_eq!((r.status(), r.body().as_str()), (500, "Internal driver communication failed: lost"));
        assert_eq!(req.phase(), ReadPhase::Done);
    }
}

#[test]
fn voltage_reads_rail_then_battery() {
    let mut req = ReadRequest::new(ReadRoute::Voltage);
    assert_eq!(query(req.step(ReadEvent::Connected(Ok(())))), Query::Rail1v8);
    assert_eq!(query(req.step(ReadEvent::Read(Ok(Reading::Value(1_801_000))))), Query::RtcBattery);
    match req.step(ReadEvent::Read(Ok(Reading::Value(3_002_999)))) {
        ReadAction::Report(Report::Voltage(v)) => assert_eq!((v.voltage_1v8, v.voltage_rtc), (1801, 3002)),
        other => panic!("expected a report, got {:?}", other),
    }

    let mut req = ReadRequest::new(ReadRoute::Voltage);
    req.step(ReadEvent::Connected(Ok(())));
    let r = respond(req.step(ReadEvent::Read(Err(s("rail")))));
    assert_eq!(r.body(), "Internal driver communication failed: rail");
    assert_eq!(req.phase(), ReadPhase::Done);
}

#[test]
fn hub_state_reads_and_fails_in_order() {
    let mut req = ReadRequest::new(ReadRoute::Usbhub);
    assert_eq!(query(req.step(ReadEvent::Connected(Ok(())))), Query::HubState);
    let r = respond(req.step(ReadEvent::Read(Err(s("io")))));
    assert_eq!((r.status(), r.body().as_str()), (500, "Failed getting usb hub state"));

    let mut req = ReadRequest::new(ReadRoute::Usbhub);
    req.step(ReadEvent::Connected(Ok(())));
    assert_eq!(query(req.step(ReadEvent::Read(Ok(Reading::HubState(Some(s("on"))))))), Query::PortStates);
    let r = respond(req.step(ReadEvent::Read(Err(s("io")))));
    assert_eq!(r.body(), "Failed getting usb hub port state");

    let mut req = ReadRequest::new(ReadRoute::Usbhub);
    req.step(ReadEvent::Connected(Ok(())));
    req.step(ReadEvent::Read(Ok(Reading::HubState(Some(s("on"))))));
    let all = [Some("a"), Some("b"), Some("c"), Some("d"), Some("e"), Some("f"), Some("g"), Some("h")];
    match req.step(ReadEvent::Read(Ok(Reading::PortStates(ports(all))))) {
        ReadAction::Report(Report::Hub(h)) => {
            assert_eq!(h.hub_state, "on");
            assert_eq!(h.port_slot_0, "a");
            assert_eq!(h.port_slot_7, "h");
        }
        other => panic!("expected a report, got {:?}", other),
    }

    let mut req = ReadRequest::new(ReadRoute::Usbhub);
    req.step(ReadEvent::Connected(Ok(())));
    req.step(ReadEvent::Read(Ok(Reading::HubState(None))));
    let r = respond(req.step(ReadEvent::Read(Ok(Reading::PortStates(ports(all))))));
    assert_eq!(r.body(), "Failed converting usb hub port state");
}

#[test]
fn device_listing_course() {
    let states = [
        Some("enabled"), Some("disabled"), Some("enabled"), Some("not available"),
        Some("enabled"), Some("enabled"), Some("enabled"), Some("enabled"),
    ];
    let start = || {
        let mut req = ReadRequest::new(ReadRoute::UsbhubDevices);
        req.step(ReadEvent::Connected(Ok(())));
        req.step(ReadEvent::Read(Ok(Reading::HubState(Some(s("on"))))));
        let a = req.step(ReadEvent::Read(Ok(Reading::PortStates(ports(states)))));
        assert!(matches!(a, ReadAction::Reconnect));
        assert_eq!(req.phase(), ReadPhase::Reconnecting);
        req
    };

    let mut req = start();
    let r = respond(req.step(ReadEvent::Connected(Err(internal_server_error(s("other text"))))));
    assert_eq!((r.status(), r.body().as_str()), (500, "Failed getting usb hub mapping"));

    let mut req = start();
    assert_eq!(query(req.step(ReadEvent::Connected(Ok(())))), Query::PortMapping);
    let r = respond(req.step(ReadEvent::Read(Err(s("io")))));
    assert_eq!(r.body(), "Failed getting usb hub mapping");

    let mut req = start();
    req.step(ReadEvent::Connected(Ok(())));
    match req.step(ReadEvent::Read(Ok(Reading::PortMapping))) {
        ReadAction::LookUp(list) => assert_eq!(
            list,
            vec![
                UsbHubMapping { slot_number: 1, is_disabled: true },
                UsbHubMapping { slot_number: 3, is_disabled: true },
            ]
        ),
        other => panic!("expected a lookup, got {:?}", other),
    }
    assert_eq!(req.phase(), ReadPhase::LookingUp);
    let r = respond(req.step(ReadEvent::Found(Ok(s("[]")))));
    assert_eq!((r.status(), r.body().as_str()), (200, "[]"));

    let mut req = start();
    req.step(ReadEvent::Connected(Ok(())));
    req.step(ReadEvent::Read(Ok(Reading::PortMapping)));
    let r = respond(req.step(ReadEvent::Found(Err(s("lookup")))));
    assert_eq!((r.status(), r.body().as_str()), (500, "Failed setting usb hub state"));

    let mut req = ReadRequest::new(ReadRoute::UsbhubDevices);
    req.step(ReadEvent::Connected(Ok(())));
    let r = respond(req.step(ReadEvent::Read(Err(s("io")))));
    assert_eq!(r.body(), "Failed getting usb hub state");
}

#[test]
fn device_listing_answers_hub_failures_as_the_hub_route() {
    let failing: [fn() -> Vec<ReadEvent>; 3] = [
        || vec![ReadEvent::Connected(Err(internal_server_error(s("refused"))))],
        || vec![ReadEvent::Connected(Ok(())), ReadEvent::Read(Err(s("io")))],
        || vec![
            ReadEvent::Connected(Ok(())),
            ReadEvent::Read(Ok(Reading::HubState(Some(s("on"))))),
            ReadEvent::Read(Err(s("io"))),
        ],
    ];
    for events in failing {
        let mut hub = ReadRequest::new(ReadRoute::Usbhub);
        let mut devices = ReadRequest::new(ReadRoute::UsbhubDevices);
        let (mut last_hub, mut last_devices) = (None, None);
        for (a, b) in events().into_iter().zip(events()) {
            last_hub = Some(hub.step(a));
            last_devices = Some(devices.step(b));
        }
        let r1 = respond(last_hub.unwrap());
        let r2 = respond(last_devices.unwrap());
        assert_eq!((r1.status(), r1.body()), (r2.status(), r2.body()));
        assert_eq!(devices.phase(), ReadPhase::Done);
    }
}
