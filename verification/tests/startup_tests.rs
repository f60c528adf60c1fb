use rest_bmc::startup::{
    check_version, parse_level, parse_port, parse_u16, port_setting_valid, LogLevel,
    VersionAction, VersionCheck, VersionError, VersionEvent, VersionPhase,
};
use rest_bmc::text::same_text;

#[test]
fn parse_u16_accepts_decimal_text() {
    assert_eq!(parse_u16("8003"), Some(8003));
    assert_eq!(parse_u16("0"), Some(0));
    assert_eq!(parse_u16("65535"), Some(65535));
    assert_eq!(parse_u16("+80"), Some(80));
    assert_eq!(parse_u16("007"), Some(7));
    assert_eq!(parse_u16("000000000000000000001"), Some(1));
}

#[test]
fn parse_u16_refuses_other_text() {
    assert_eq!(parse_u16(""), None);
    assert_eq!(parse_u16("+"), None);
    assert_eq!(parse_u16("-1"), None);
    assert_eq!(parse_u16("65536"), None);
    assert_eq!(parse_u16("99999999999999999999"), None);
    assert_eq!(parse_u16("12a"), None);
    assert_eq!(parse_u16(" 80"), None);
    assert_eq!(parse_u16("++1"), None);
    assert_eq!(parse_u16("\u{0663}"), None);
}

#[test]
fn parse_u16_agrees_with_std() {
    for text in ["1", "+1", "-0", "", "+", "70000", "12 ", "08", "65535", "1e3"] {
        assert_eq!(parse_u16(text), text.parse::<u16>().ok(), "text {:?}", text);
    }
}

#[test]
fn decimal_text_is_read_back() {
    for n in 0..=u16::MAX {
        assert_eq!(parse_u16(&n.to_string()), Some(n));
    }
}

#[test]
fn port_setting() {
    assert!(port_setting_valid(&Some("8003".to_string())));
    assert_eq!(parse_port(Some("8003".to_string())), 8003);
    assert_eq!(parse_port(Some("+443".to_string())), 443);
    assert!(!port_setting_valid(&None));
    for bad in ["none", "port", "65536", "", "-1", "80a", " 80"] {
        assert!(!port_setting_valid(&Some(bad.to_string())), "{:?}", bad);
    }
}

#[test]
fn log_level_setting() {
    assert_eq!(parse_level(Some("debug".to_string())), LogLevel::Debug);
    assert_eq!(parse_level(Some("info".to_string())), LogLevel::Normal);
    assert_eq!(parse_level(Some("critical".to_string())), LogLevel::Critical);
    assert_eq!(parse_level(Some("warn".to_string())), LogLevel::Off);
    assert_eq!(parse_level(Some("DEBUG".to_string())), LogLevel::Off);
    assert_eq!(parse_level(None), LogLevel::Off);
}

#[test]
fn driver_version_check() {
    assert_eq!(check_version(0, 9), Ok(()));
    assert_eq!(check_version(0, 12), Ok(()));
    assert_eq!(check_version(0, 8), Err(VersionError::IncompatibleMinor));
    assert_eq!(check_version(1, 9), Err(VersionError::IncompatibleMajor));
    assert_eq!(check_version(1, 0), Err(VersionError::IncompatibleMajor));
}

#[test]
fn version_error_messages() {
    assert_eq!(VersionError::DriverUnreachable.message(), "Could not connect to driver");
    assert_eq!(VersionError::InfoUnavailable.message(), "Failed getting device info");
    assert_eq!(VersionError::IncompatibleMajor.message(), "Driver version incompatible (major)");
    assert_eq!(VersionError::IncompatibleMinor.message(), "Driver version incompatible (minor)");
}

#[test]
fn same_text_compares_characters() {
    assert!(same_text("yes", "yes"));
    assert!(!same_text("yes", "Yes"));
    assert!(!same_text("yes", "yes "));
    assert!(same_text("", ""));
    assert!(same_text("äö", "äö"));
    assert!(!same_text("äö", "äo"));
}

#[test]
fn version_check_course() {
    let mut check = VersionCheck::new();
    assert_eq!(check.phase(), VersionPhase::Connecting);
    assert_eq!(
        check.step(VersionEvent::Connected(false)),
        VersionAction::Finish(Err(VersionError::DriverUnreachable))
    );
    assert_eq!(check.phase(), VersionPhase::Done);

    let mut check = VersionCheck::new();
    assert_eq!(check.step(VersionEvent::Connected(true)), VersionAction::AskInfo);
    assert_eq!(check.phase(), VersionPhase::AskingInfo);
    assert_eq!(
        check.step(VersionEvent::Info(None)),
        VersionAction::Finish(Err(VersionError::InfoUnavailable))
    );

    for (version, verdict) in [
        ((0u16, 9u16), Ok(())),
        ((0, 8), Err(VersionError::IncompatibleMinor)),
        ((1, 9), Err(VersionError::IncompatibleMajor)),
    ] {
        let mut check = VersionCheck::new();
        check.step(VersionEvent::Connected(true));
        assert_eq!(check.step(VersionEvent::Info(Some(version))), VersionAction::Finish(verdict));
        assert_eq!(check.phase(), VersionPhase::Done);
    }
}
