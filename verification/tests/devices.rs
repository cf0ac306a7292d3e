use gaze::devices::{
    bus_of_driver, camera_bus, driver_basename, find_device, find_in, ir_devices, parse_modalias,
    path_file_name, sysfs_device_dir, usb_ids_of, CameraBus, IrControl, IrDevice, IrQuery,
};

const SAMPLE_ON_BYTES: &[u8] = &[1, 2, 3, 4];
const SAMPLE_OFF_BYTES: &[u8] = &[0, 0, 0, 0];
const SAMPLE_ON: &[IrControl] = &[IrControl {
    unit: 3,
    selector: 2,
    query: IrQuery::SetCur,
    payload: SAMPLE_ON_BYTES,
}];
const SAMPLE_OFF: &[IrControl] = &[IrControl {
    unit: 3,
    selector: 2,
    query: IrQuery::SetCur,
    payload: SAMPLE_OFF_BYTES,
}];
const SAMPLE: &[IrDevice] = &[IrDevice {
    vid: 0x1234,
    pid: 0x5678,
    name: "Sample IR Camera",
    on_sequence: SAMPLE_ON,
    off_sequence: SAMPLE_OFF,
    source: "unit test",
}];

#[test]
fn known_profiles_have_off_sequences() {
    for device in ir_devices() {
        assert!(!device.name.is_empty());
        assert!(!device.source.is_empty());
        assert!(
            !device.on_sequence.is_empty(),
            "{} missing on sequence",
            device.name
        );
        assert!(
            !device.off_sequence.is_empty(),
            "{} missing off sequence",
            device.name
        );
    }
}

#[test]
fn find_in_matches_a_known_vid_pid() {
    let d = find_in(SAMPLE, 0x1234, 0x5678).expect("sample present");
    assert_eq!(d.on_sequence[0].unit, 3);
    assert_eq!(d.on_sequence[0].selector, 2);
    assert_eq!(d.on_sequence[0].payload, &[1, 2, 3, 4]);
}

#[test]
fn find_in_rejects_unknown_vid_pid() {
    assert!(find_in(SAMPLE, 0xDEAD, 0xBEEF).is_none());
}

#[test]
fn find_device_rejects_unknown_vid_pid() {
    assert!(find_device(0x1234, 0x5678).is_none());
}

#[test]
fn modalias_yields_vid_and_pid() {
    assert_eq!(
        parse_modalias("usb:v1A2BpC3D4d0100dc00"),
        Some((0x1A2B, 0xC3D4))
    );
    assert_eq!(parse_modalias("usb:v0BDApF00Dd0001"), Some((0x0BDA, 0xF00D)));
}

#[test]
fn modalias_rejects_malformed() {
    assert_eq!(parse_modalias("pci:v00008086"), None);
    assert_eq!(parse_modalias(""), None);
    assert_eq!(parse_modalias("usb:vZZZZpC3D4"), None);
}

#[test]
fn driver_name_classifies_bus() {
    assert_eq!(bus_of_driver("intel_ipu6_isys"), CameraBus::Ipu6);
    assert_eq!(bus_of_driver("ipu6"), CameraBus::Ipu6);
    assert_eq!(bus_of_driver("uvcvideo"), CameraBus::Uvc);
    assert_eq!(bus_of_driver("something_else"), CameraBus::Other);
}

#[test]
fn find_in_returns_the_first_match() {
    const TWO: &[IrDevice] = &[
        IrDevice {
            vid: 1,
            pid: 2,
            name: "first",
            on_sequence: SAMPLE_ON,
            off_sequence: SAMPLE_OFF,
            source: "a",
        },
        IrDevice {
            vid: 1,
            pid: 2,
            name: "second",
            on_sequence: SAMPLE_ON,
            off_sequence: SAMPLE_OFF,
            source: "b",
        },
    ];
    assert_eq!(find_in(TWO, 1, 2).unwrap().name, "first");
    assert!(find_in(TWO, 2, 1).is_none());
}

#[test]
fn modalias_from_sysfs_text_and_absent_file() {
    assert_eq!(usb_ids_of(Some("usb:v04F2pB67Cd0001\n")), Some((0x04F2, 0xB67C)));
    assert_eq!(usb_ids_of(None), None);
    assert_eq!(parse_modalias("usb:v04f2pb67c"), Some((0x04F2, 0xB67C)));
    assert_eq!(parse_modalias("usb:v04F2"), None);
}

#[test]
fn missing_driver_is_other_bus() {
    assert_eq!(camera_bus(None), CameraBus::Other);
    assert_eq!(camera_bus(Some("uvcvideo")), CameraBus::Uvc);
}

#[test]
fn sysfs_paths_follow_the_node_name() {
    assert_eq!(
        sysfs_device_dir("/dev/video2").as_deref(),
        Some("/sys/class/video4linux/video2/device")
    );
    assert_eq!(path_file_name("/dev/video2").as_deref(), Some("video2"));
    assert_eq!(path_file_name("/usr/lib/").as_deref(), Some("lib"));
    assert_eq!(path_file_name("/"), None);
    assert_eq!(path_file_name("a/.."), None);
    assert_eq!(
        driver_basename("../../../../bus/usb/drivers/uvcvideo").as_deref(),
        Some("uvcvideo")
    );
}
