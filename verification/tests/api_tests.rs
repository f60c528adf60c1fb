use rest_bmc::api::reading::Query;
use rest_bmc::api::voltage::{TemperatureAction, TemperatureEvent, TemperaturePhase, TemperatureRequest};
use rest_bmc::response::internal_server_error;
use rest_bmc::api::cmc::hard_reset;
use rest_bmc::api::usbhub::{
    get_usbhub, usbhub_devices, usbhub_mapping_failed, usbhub_reset, usbhub_set_port,
    usbhub_set_response, UsbHubMapping, UsbHubPortStates, UsbHubRest,
};
use rest_bmc::api::voltage::{temperature, voltage};
use rest_bmc::api::watchdog::{shutdown, stats, Timeout};
use rest_bmc::input::json::usbhub::{Param as HubParam, Reset};
use rest_bmc::input::json::watchdog::Param as WatchdogParam;
use rest_bmc::input::json::Validate;

fn s(text: &str) -> String {
    text.to_string()
}

fn states(texts: [&str; 8]) -> UsbHubPortStates {
    UsbHubPortStates {
        slot0: Some(s(texts[0])),
        slot1: Some(s(texts[1])),
        slot2: Some(s(texts[2])),
        slot3: Some(s(texts[3])),
        slot4: Some(s(texts[4])),
        slot5: Some(s(texts[5])),
        slot6: Some(s(texts[6])),
        slot7: Some(s(texts[7])),
    }
}

fn hub(ports: [&str; 8]) -> UsbHubRest {
    UsbHubRest {
        hub_state: s("enabled"),
        port_slot_0: s(ports[0]),
        port_slot_1: s(ports[1]),
        port_slot_2: s(ports[2]),
        port_slot_3: s(ports[3]),
        port_slot_4: s(ports[4]),
        port_slot_5: s(ports[5]),
        port_slot_6: s(ports[6]),
        port_slot_7: s(ports[7]),
    }
}

#[test]
fn request_bodies_validate() {
    assert_eq!(HubParam { state: true }.validate(), Ok(()));
    assert_eq!(Reset { reset: s("no") }.validate(), Ok(()));
    assert_eq!(WatchdogParam { timeout: 30 }.validate(), Ok(()));
    assert_eq!(HubParam::default(), HubParam { state: false });
    assert_eq!(Reset::default(), Reset { reset: String::new() });
    assert_eq!(WatchdogParam::default(), WatchdogParam { timeout: 0 });
}

#[test]
fn hard_reset_needs_yes() {
    assert!(hard_reset("yes").is_ok());
    let e = hard_reset("no").unwrap_err();
    assert_eq!(e.status(), 422);
    assert_eq!(e.body(), "value must be 'yes'");
    assert!(hard_reset("YES").is_err());
    assert!(hard_reset("").is_err());
}

#[test]
fn usbhub_reset_needs_yes() {
    assert!(usbhub_reset("yes").is_ok());
    let e = usbhub_reset("y").unwrap_err();
    assert_eq!(e.status(), 422);
    assert_eq!(e.body(), "value must be 'yes'");
}

#[test]
fn shutdown_needs_start() {
    assert!(shutdown("start").is_ok());
    let e = shutdown("stop").unwrap_err();
    assert_eq!(e.status(), 400);
    assert_eq!(e.body(), "value must be 'start'");
}

#[test]
fn set_port_range() {
    for n in 2..=7u8 {
        assert!(usbhub_set_port(n).is_ok());
    }
    for n in [0u8, 1, 8, 9, 255] {
        let e = usbhub_set_port(n).unwrap_err();
        assert_eq!(e.status(), 400);
        assert_eq!(e.body(), "Slot is out of range");
    }
}

#[test]
fn hub_state_assembled_in_order() {
    let ports = states(["p0", "p1", "p2", "p3", "p4", "p5", "p6", "p7"]);
    let r = get_usbhub(Ok(Some(s("hub"))), Ok(ports)).unwrap();
    assert_eq!(r.hub_state, "hub");
    assert_eq!(r.port_slot_0, "p0");
    assert_eq!(r.port_slot_3, "p3");
    assert_eq!(r.port_slot_7, "p7");
}

#[test]
fn hub_state_failures_in_order() {
    let ports = states(["a", "b", "c", "d", "e", "f", "g", "h"]);
    let e = get_usbhub(Err(s("io")), Err(s("io"))).unwrap_err();
    assert_eq!(e.status(), 500);
    assert_eq!(e.body(), "Failed getting usb hub state");
    let e = get_usbhub(Ok(None), Err(s("io"))).unwrap_err();
    assert_eq!(e.body(), "Failed getting usb hub port state");
    let e = get_usbhub(Ok(None), Ok(ports.clone())).unwrap_err();
    assert_eq!(e.body(), "Failed converting usb hub port state");
    let mut missing = ports;
    missing.slot5 = None;
    let e = get_usbhub(Ok(Some(s("hub"))), Ok(missing)).unwrap_err();
    assert_eq!(e.status(), 500);
    assert_eq!(e.body(), "Failed converting usb hub port state");
}

#[test]
fn unavailable_ports_are_listed() {
    let h = hub([
        "enabled", "disabled", "enabled", "not available", "disabled", "enabled", "unknown",
        "not available",
    ]);
    let list = usbhub_devices(&h);
    let expected: Vec<UsbHubMapping> = [1u8, 3, 4, 7]
        .iter()
        .map(|&n| UsbHubMapping { slot_number: n, is_disabled: true })
        .collect();
    assert_eq!(list, expected);
    assert!(usbhub_devices(&hub(["enabled"; 8])).is_empty());
    assert_eq!(usbhub_devices(&hub(["disabled"; 8])).len(), 8);
}

#[test]
fn usbhub_answers() {
    let r = usbhub_set_response(Err(s("io")));
    assert_eq!(r.status(), 500);
    assert_eq!(r.body(), "Failed setting usb hub state");
    assert_eq!(usbhub_set_response(Ok(s("{}"))).status(), 200);
    let r = usbhub_mapping_failed();
    assert_eq!(r.status(), 500);
    assert_eq!(r.body(), "Failed getting usb hub mapping");
}

#[test]
fn voltages_in_millivolts() {
    let v = voltage(1_800_999, 3_000_000);
    assert_eq!(v.voltage_1v8, 1800);
    assert_eq!(v.voltage_rtc, 3000);
    let v = voltage(999, u32::MAX);
    assert_eq!(v.voltage_1v8, 0);
    assert_eq!(v.voltage_rtc, 4_294_967);
}

#[test]
fn watchdog_report() {
    let t = stats(60, 42, 120, true);
    assert_eq!(
        t,
        Timeout { timeout: 60, timeout_left: 42, shutdown_timeout: 120, emergency_mode: true }
    );
}

#[test]
fn thermistor_readings_first_failure() {
    assert_eq!(temperature(Ok(1), Ok(2)).unwrap(), (1, 2));
    let e = temperature(Err(s("first")), Err(s("second"))).unwrap_err();
    assert_eq!((e.status(), e.body().as_str()), (500, "Internal driver communication failed: first"));
    let e = temperature(Ok(1), Err(s("second"))).unwrap_err();
    assert_eq!(e.body(), "Internal driver communication failed: second");
}

#[test]
fn temperature_course() {
    let mut req = TemperatureRequest::new();
    match req.step(TemperatureEvent::Connected(Err(internal_server_error(s("no driver"))))) {
        TemperatureAction::Respond(r) => assert_eq!((r.status(), r.body().as_str()), (500, "no driver")),
        other => panic!("expected an answer, got {:?}", other),
    }
    assert_eq!(req.phase(), TemperaturePhase::Done);

    let mut req = TemperatureRequest::new();
    assert!(matches!(req.step(TemperatureEvent::Connected(Ok(()))), TemperatureAction::Query(Query::Ntc0)));
    assert!(matches!(req.step(TemperatureEvent::Read(Err(s("first")))), TemperatureAction::Query(Query::Ntc1)));
    match req.step(TemperatureEvent::Read(Err(s("second")))) {
        TemperatureAction::Respond(r) => {
            assert_eq!(r.body(), "Internal driver communication failed: first")
        }
        other => panic!("expected an answer, got {:?}", other),
    }

    let mut req = TemperatureRequest::new();
    req.step(TemperatureEvent::Connected(Ok(())));
    req.step(TemperatureEvent::Read(Ok(1_650_000)));
    assert!(matches!(req.step(TemperatureEvent::Read(Ok(1_200_000))), TemperatureAction::Report(1_650_000, 1_200_000)));
    assert_eq!(req.phase(), TemperaturePhase::Done);
}
