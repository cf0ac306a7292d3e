use gaze::devices::{IrControl, IrDevice, IrQuery};
use gaze::led::{
    face_auth_off_disabled, face_auth_on_alt_frame, face_auth_profile, looks_like_face_auth_control,
    FaceAuthProbe, IrLed, IrProfile, RuntimeControl, FACE_AUTH_SELECTOR, GET_CUR, SET_CUR,
};

const TEST_ON_BYTES: &[u8] = &[1, 2, 3, 4];
const TEST_OFF_BYTES: &[u8] = &[0, 0, 0, 0];
const TEST_ON: &[IrControl] = &[IrControl {
    unit: 3,
    selector: 2,
    query: IrQuery::SetCur,
    payload: TEST_ON_BYTES,
}];
const TEST_OFF: &[IrControl] = &[IrControl {
    unit: 3,
    selector: 2,
    query: IrQuery::SetCur,
    payload: TEST_OFF_BYTES,
}];
const TEST_DEVICE: IrDevice = IrDevice {
    vid: 0x1234,
    pid: 0x5678,
    name: "Sample IR Camera",
    on_sequence: TEST_ON,
    off_sequence: TEST_OFF,
    source: "unit test",
};

#[test]
fn for_path_returns_none_when_device_absent() {
    assert!(IrLed::for_path("/dev/video-absent-12345", None, |_, _| None).is_none());
}

#[test]
fn led_keeps_profile_metadata() {
    let led = IrLed::new("/dev/null".to_string(), IrProfile::from_static(&TEST_DEVICE));
    assert_eq!(led.node(), "/dev/null");
    assert_eq!(led.device_name(), "Sample IR Camera");
    assert_eq!(led.profile().source, "unit test");
    assert_eq!(led.profile().on_sequence[0].payload, &[1, 2, 3, 4]);
    assert_eq!(led.profile().off_sequence[0].payload, &[0, 0, 0, 0]);
}

#[test]
fn detects_face_auth_payload_shape() {
    assert!(looks_like_face_auth_control(&face_auth_off_disabled()));
    assert!(looks_like_face_auth_control(&face_auth_on_alt_frame()));
    assert!(looks_like_face_auth_control(&[1, 3, 3, 0, 0, 0, 0, 0, 0]));
    assert!(!looks_like_face_auth_control(&[1, 3, 4, 0, 0, 0, 0, 0, 0]));
    assert!(!looks_like_face_auth_control(&[1, 3, 2, 0, 0, 0, 0, 0, 1]));
}

#[test]
fn set_issues_the_on_or_off_sequence() {
    let led = IrLed::new("/dev/video2".to_string(), IrProfile::from_static(&TEST_DEVICE));
    assert_eq!(led.set(true)[0].payload, vec![1, 2, 3, 4]);
    assert_eq!(led.set(false)[0].payload, vec![0, 0, 0, 0]);
    assert_eq!(led.set(true)[0].query_code(), SET_CUR);
}

#[test]
fn for_path_uses_the_probe_for_unknown_cameras() {
    let led = IrLed::for_path("/dev/video4", Some("usb:v1234p5678d0001\n"), |vid, pid| {
        Some(face_auth_profile(vid, pid, 7))
    })
    .expect("probe found a control");
    assert_eq!(led.node(), "/dev/video4");
    assert_eq!(
        led.device_name(),
        "USB 1234:5678 Microsoft Face Authentication UVC control"
    );
    assert_eq!(led.set(true)[0].unit, 7);
    assert!(IrLed::for_path("/dev/video4", Some("garbage"), |vid, pid| {
        Some(face_auth_profile(vid, pid, 7))
    })
    .is_none());
    assert!(IrLed::for_path("/dev/video4", Some("usb:v1234p5678"), |_, _| None).is_none());
}

#[test]
fn face_auth_profile_uses_hex_ids_and_the_control_unit() {
    let p = face_auth_profile(0x04f2, 0xb67c, 5);
    assert_eq!(p.name, "USB 04f2:b67c Microsoft Face Authentication UVC control");
    assert_eq!(p.on_sequence.len(), 1);
    assert_eq!(p.on_sequence[0].unit, 5);
    assert_eq!(p.on_sequence[0].selector, FACE_AUTH_SELECTOR);
    assert_eq!(p.on_sequence[0].payload, vec![1, 3, 2, 0, 0, 0, 0, 0, 0]);
    assert_eq!(p.off_sequence[0].payload, vec![1, 3, 1, 0, 0, 0, 0, 0, 0]);
}

#[test]
fn probe_walks_units_until_the_control_answers() {
    let mut probe = FaceAuthProbe::new(0x0bda, 0x5767);
    assert_eq!(probe.unit(), Some(1));
    assert!(probe.observe(None).is_none());
    assert_eq!(probe.unit(), Some(2));
    assert!(probe.observe(Some(&[0, 0, 0, 0, 0, 0, 0, 0, 0])).is_none());
    assert!(probe.observe(Some(&[1, 3, 2])).is_none());
    assert_eq!(probe.unit(), Some(4));
    let found = probe.observe(Some(&[1, 3, 1, 0, 0, 0, 0, 0, 0])).expect("found");
    assert_eq!(found.on_sequence[0].unit, 4);
    assert_eq!(found.name, "USB 0bda:5767 Microsoft Face Authentication UVC control");
}

#[test]
fn probe_gives_up_after_the_last_unit() {
    let mut probe = FaceAuthProbe::new(1, 2);
    let mut tried = 0;
    while let Some(_) = probe.unit() {
        assert!(probe.observe(None).is_none());
        tried += 1;
    }
    assert_eq!(tried, 31);
}

#[test]
fn runtime_control_query_codes() {
    let set = RuntimeControl::set(3, 6, &[1, 2]);
    assert_eq!(set.query_code(), SET_CUR);
    let get = RuntimeControl {
        unit: 3,
        selector: 6,
        query: IrQuery::GetCur,
        payload: vec![],
    };
    assert_eq!(get.query_code(), GET_CUR);
    let copied = RuntimeControl::from_static(&TEST_ON[0]);
    assert_eq!(copied.payload, vec![1, 2, 3, 4]);
}

#[test]
fn an_emitter_run_issues_its_sequence_in_order() {
    let led = IrLed::new("/dev/video2".to_string(), IrProfile::from_static(&TEST_DEVICE));
    let mut run = led.start(true);
    assert_eq!(run.total, 1);
    assert_eq!(run.next_step(), Some(0));
    run.report(Ok(()));
    assert_eq!(run.next_step(), None);
    assert_eq!(run.outcome(), Ok(()));
    let empty = IrLed::new(
        "/dev/video2".to_string(),
        IrProfile { name: "none".to_string(), on_sequence: vec![], off_sequence: vec![], source: "t".to_string() },
    );
    let run = empty.start(false);
    assert_eq!(run.next_step(), None);
    assert_eq!(run.outcome(), Ok(()));
}
