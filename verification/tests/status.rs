use gaze::status::{
    capture_status_from_wire, dbus_error_message, dbus_is_file_not_found, dbus_is_not_activatable,
    effective, enroll_prompt_from_wire, is_retryable, verify_result_from_wire, CaptureStatus,
    EnrollPrompt, VerifyResult,
};

#[test]
fn enum_display_strings_are_user_facing_messages() {
    assert_eq!(CaptureStatus::NoFace.message(), "Please look at the camera...");
    assert_eq!(CaptureStatus::TooDark.message(), "Need more light...");
    assert_eq!(CaptureStatus::Ready.message(), "Hold still...");
    assert_eq!(CaptureStatus::Usable.message(), "Hold still...");
    assert_eq!(EnrollPrompt::LookLeft.message(), "Turn your face slightly left");
    assert_eq!(VerifyResult::VerifyNoMatch.as_str(), "VerifyNoMatch");
}

#[test]
fn serde_plain_uses_kebab_case_wire_values() {
    assert_eq!(CaptureStatus::TooClose.wire_name(), "too-close");
    assert_eq!(CaptureStatus::TooDark.wire_name(), "too-dark");
    assert_eq!(CaptureStatus::Ready.wire_name(), "ready");
    assert_eq!(CaptureStatus::Usable.wire_name(), "usable");
    assert_eq!(EnrollPrompt::LookStraight.wire_name(), "look-straight");
    assert_eq!(VerifyResult::VerifyMatch.wire_name(), "verify-match");

    assert_eq!(
        capture_status_from_wire("not-centered"),
        Some(CaptureStatus::NotCentered)
    );
    assert_eq!(enroll_prompt_from_wire("db-failed"), Some(EnrollPrompt::DbFailed));
    assert_eq!(
        verify_result_from_wire("verify-no-match"),
        Some(VerifyResult::VerifyNoMatch)
    );
}

#[test]
fn dbus_error_helpers_parse_display_text() {
    let err = "org.example.Error: useful detail";
    assert_eq!(dbus_error_message(err), "useful detail");
    assert!(!dbus_is_file_not_found(err));

    let err = "FileNotFound: missing face";
    assert_eq!(dbus_error_message(err), "missing face");
    assert!(dbus_is_file_not_found(err));

    let err = "plain failure";
    assert_eq!(dbus_error_message(err), "plain failure");

    let err = "org.freedesktop.DBus.Error.ServiceUnknown: service is not activatable";
    assert!(dbus_is_not_activatable(err));

    let err = "ServiceUnknown";
    assert!(dbus_is_not_activatable(err));

    let err = "camera unavailable";
    assert!(!dbus_is_not_activatable(err));
}

#[test]
fn retryable_errors_are_detected_from_error_text() {
    assert!(is_retryable("RETRYABLE: camera is busy"));
}

#[test]
fn ordinary_errors_are_not_retryable() {
    assert!(!is_retryable("camera is unavailable"));
}

#[test]
fn every_wire_value_reads_back() {
    let all = [
        CaptureStatus::Unused,
        CaptureStatus::NoFace,
        CaptureStatus::TooDark,
        CaptureStatus::Clipped,
        CaptureStatus::NotCentered,
        CaptureStatus::TooFar,
        CaptureStatus::TooClose,
        CaptureStatus::Ready,
        CaptureStatus::Usable,
    ];
    for s in all {
        assert_eq!(capture_status_from_wire(s.wire_name()), Some(s));
    }
    assert_eq!(capture_status_from_wire("Ready"), None);
    assert_eq!(enroll_prompt_from_wire(""), None);
    assert_eq!(
        verify_result_from_wire(VerifyResult::VerifyMatch.wire_name()),
        Some(VerifyResult::VerifyMatch)
    );
}

#[test]
fn effective_status_prefers_the_higher_priority() {
    assert_eq!(
        effective(CaptureStatus::Usable, CaptureStatus::TooDark),
        effective(CaptureStatus::TooDark, CaptureStatus::Usable)
    );
    let s = effective(CaptureStatus::NoFace, CaptureStatus::Unused);
    assert!(s.priority() >= CaptureStatus::NoFace.priority());
    assert!(s.priority() >= CaptureStatus::Unused.priority());
    assert_eq!(effective(CaptureStatus::Ready, CaptureStatus::Ready), CaptureStatus::Ready);
}

#[test]
fn error_detail_trims_after_the_first_colon() {
    assert_eq!(dbus_error_message("a: b: c"), "b: c");
    assert_eq!(dbus_error_message("name:   "), "");
}
