use rest_bmc::response::{
    bad_request, command_refused, driver_failed, driver_response,
    internal_server_error, ok, ok_or_internal, unprocessable_entity, CResponse,
};

#[test]
fn constructors_carry_status_and_body() {
    let r = ok("{}".to_string());
    assert_eq!(r.status(), 200);
    assert_eq!(r.body(), "{}");
    assert_eq!(bad_request("a".to_string()).status(), 400);
    assert_eq!(unprocessable_entity("b".to_string()).status(), 422);
    let e = internal_server_error("c".to_string());
    assert_eq!(e.status(), 500);
    assert_eq!(e.body(), "c");
}

#[test]
fn driver_failure_is_prefixed() {
    let r = driver_failed("broken pipe");
    assert_eq!(r.status(), 500);
    assert_eq!(r.body(), "Internal driver communication failed: broken pipe");
}

#[test]
fn driver_response_maps_both_outcomes() {
    let r = driver_response(Ok("{\"a\": 1}".to_string()));
    assert!(matches!(r, CResponse::Success(_)));
    assert_eq!(r.body(), "{\"a\": 1}");
    let r = driver_response(Err("timeout".to_string()));
    assert_eq!(r.status(), 500);
    assert_eq!(r.body(), "Internal driver communication failed: timeout");
}

#[test]
fn ok_or_internal_uses_fixed_text() {
    let r = ok_or_internal(Err("driver text".to_string()), "Failed setting usb hub state");
    assert_eq!(r.status(), 500);
    assert_eq!(r.body(), "Failed setting usb hub state");
    let r = ok_or_internal(Ok("body".to_string()), "unused");
    assert_eq!(r.status(), 200);
    assert_eq!(r.body(), "body");
}

#[test]
fn command_refused_is_unprocessable() {
    let r = command_refused("mode out of range");
    assert_eq!(r.status(), 422);
    assert_eq!(r.body(), "mode out of range");
}
