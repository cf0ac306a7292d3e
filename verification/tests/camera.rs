use gaze::camera::{
    camera_choices, camera_pipeline, has_color_caps, is_mono_format, node_for_target,
    pipewire_target, preferred_capture_source, resolve_configured_sources, resolve_node,
    resolve_source, AdvertisedCamera, CameraKind, CapsEntry, DeviceProps, NodeResolution,
    PropValue,
};
use gaze::config::CameraConfig;

/// No PipeWire device is visible in the tests.
fn node_of(_target: &str) -> Option<String> {
    None
}

fn known_target(target: &str) -> Option<String> {
    if target == "device-name" {
        Some("/dev/video4".to_string())
    } else {
        None
    }
}

#[test]
fn pipewire_targets_are_resolved_by_the_caller_and_direct_nodes_are_not() {
    let cameras = CameraConfig {
        rgb: "primary".to_string(),
        ir: "pipewiresrc target-object=\"device-name\"".to_string(),
        emitter_enabled: true,
        dark_luma_threshold: 30,
    };
    let (_, kind) = resolve_source(&cameras, known_target);
    assert_eq!(
        kind,
        CameraKind::Ir {
            source: "pipewiresrc target-object=\"device-name\"".to_string(),
            node: "/dev/video4".to_string()
        }
    );
    let direct = CameraConfig { ir: "/dev/video2".to_string(), ..cameras };
    let sources = resolve_configured_sources(&direct, |_: &str| Some("/dev/video9".to_string()));
    assert_eq!(sources.ir_node, "/dev/video2");
}

#[test]
fn resolve_source_uses_rgb_when_no_ir_configured() {
    let cameras = CameraConfig {
        rgb: "primary".to_string(),
        ir: String::new(),
        emitter_enabled: false,
        dark_luma_threshold: 30,
    };
    let (source, kind) = resolve_source(&cameras, node_of);
    assert_eq!(source, "primary");
    assert_eq!(
        kind,
        CameraKind::Rgb {
            source: "primary".to_string()
        }
    );
}

#[test]
fn resolve_source_builds_v4l2src_pipeline_for_ir_node() {
    let cameras = CameraConfig {
        rgb: "primary".to_string(),
        ir: "/dev/video2".to_string(),
        emitter_enabled: true,
        dark_luma_threshold: 30,
    };
    let (source, kind) = resolve_source(&cameras, node_of);
    assert_eq!(source, "/dev/video2");
    assert_eq!(
        kind,
        CameraKind::Ir {
            source: "/dev/video2".to_string(),
            node: "/dev/video2".to_string()
        }
    );
}

#[test]
fn direct_v4l2_open_is_restricted_to_valid_ir_nodes() {
    assert!(camera_pipeline("/dev/video2", false).is_err());
    assert!(camera_pipeline("/dev/video", true).is_err());
    assert!(camera_pipeline("/dev/video2 ! fakesink", true).is_err());
}

#[test]
fn resolve_source_builds_pipewiresrc_pipeline_for_ir() {
    let cameras = CameraConfig {
        rgb: "primary".to_string(),
        ir: "pipewiresrc target-object=device-name".to_string(),
        emitter_enabled: true,
        dark_luma_threshold: 30,
    };
    let (source, kind) = resolve_source(&cameras, node_of);
    assert_eq!(source, "pipewiresrc target-object=device-name");
    assert_eq!(
        kind,
        CameraKind::Ir {
            source: "pipewiresrc target-object=device-name".to_string(),
            node: String::new()
        }
    );
}

#[test]
fn mono_format_detection_is_case_and_whitespace_insensitive() {
    for format in ["GRAY8", " gray16 ", "GREY", "grey12", "R8", "r16", "Y8", " y16 "] {
        assert!(is_mono_format(format), "{format} should be mono");
    }
    for format in ["RGB", "BGR", "RGBA", "YUY2", "NV12", "DMA_DRM", ""] {
        assert!(!is_mono_format(format), "{format} should be color/unknown");
    }
}

#[test]
fn pipelines_for_each_kind_of_source() {
    let suffix = " ! video/x-raw; image/jpeg ! decodebin ! videoconvert ! videoscale ! appsink name=gaze_sink";
    assert_eq!(
        camera_pipeline("primary", false).unwrap(),
        format!("pipewiresrc{suffix}")
    );
    assert_eq!(
        camera_pipeline(" /dev/video2 ", true).unwrap(),
        format!("v4l2src device=/dev/video2{suffix}")
    );
    assert_eq!(
        camera_pipeline("pipewiresrc target-object=cam", false).unwrap(),
        format!("pipewiresrc target-object=cam{suffix}")
    );
    assert_eq!(
        camera_pipeline("  ", false).unwrap_err(),
        "camera source cannot be empty; use \"primary\" or a GStreamer source"
    );
    assert_eq!(
        camera_pipeline("/dev/videoX", true).unwrap_err(),
        "invalid V4L2 camera node \"/dev/videoX\"; expected /dev/video<number>"
    );
}

#[test]
fn node_resolution_forms() {
    assert_eq!(
        resolve_node("v4l2src device=/dev/video12 ! x"),
        NodeResolution::Node("/dev/video12".to_string())
    );
    assert_eq!(
        resolve_node("pipewiresrc target-object=\"my-cam\""),
        NodeResolution::PipewireTarget("my-cam".to_string())
    );
    assert_eq!(resolve_node("  "), NodeResolution::Unknown);
    assert_eq!(resolve_node("videotestsrc"), NodeResolution::Unknown);
}

#[test]
fn configured_sources_and_preferred_capture() {
    let cameras = CameraConfig {
        rgb: " ".to_string(),
        ir: " /dev/video3 ".to_string(),
        emitter_enabled: true,
        dark_luma_threshold: 30,
    };
    let sources = resolve_configured_sources(&cameras, node_of);
    assert_eq!(sources.rgb, "");
    assert_eq!(sources.ir, "/dev/video3");
    assert_eq!(sources.ir_node, "/dev/video3");
    assert_eq!(
        preferred_capture_source(&cameras),
        ("/dev/video3".to_string(), true)
    );
    let none = CameraConfig {
        rgb: String::new(),
        ir: String::new(),
        emitter_enabled: false,
        dark_luma_threshold: 30,
    };
    assert_eq!(preferred_capture_source(&none), ("primary".to_string(), false));
}

fn props(node_name: &str, v4l2_path: Option<&str>) -> DeviceProps {
    DeviceProps {
        is_pipewire: true,
        node_name: PropValue::Text(node_name.to_string()),
        object_serial: PropValue::U64(42),
        object_id: PropValue::Absent,
        object_path: PropValue::Absent,
        v4l2_path: match v4l2_path {
            Some(p) => PropValue::Text(p.to_string()),
            None => PropValue::Absent,
        },
        device_path: PropValue::Text("/dev/media0".to_string()),
    }
}

#[test]
fn pipewire_device_properties() {
    let p = props("libcamera-front", Some("/dev/video4"));
    assert_eq!(pipewire_target(&p).as_deref(), Some("libcamera-front"));
    let mut serial_only = props("x", None);
    serial_only.node_name = PropValue::Absent;
    assert_eq!(pipewire_target(&serial_only).as_deref(), Some("42"));
    let devices = vec![None, Some(props("other", Some("/dev/video9"))), Some(p)];
    assert_eq!(
        node_for_target("libcamera-front", &devices).as_deref(),
        Some("/dev/video4")
    );
    assert_eq!(node_for_target("missing", &devices), None);
}

#[test]
fn color_caps_and_camera_listing() {
    let gray = CapsEntry {
        name: "video/x-raw".to_string(),
        format: Some("GRAY8".to_string()),
        drm_format: None,
    };
    let color = CapsEntry {
        name: "video/x-raw".to_string(),
        format: Some("YUY2".to_string()),
        drm_format: None,
    };
    assert!(!has_color_caps(&Some(vec![gray.clone()])));
    assert!(has_color_caps(&Some(vec![gray.clone(), color.clone()])));

    let front = AdvertisedCamera {
        display_name: "Front".to_string(),
        props: Some(props("front", None)),
        caps: Some(vec![color.clone()]),
    };
    let ir = AdvertisedCamera {
        display_name: "IR".to_string(),
        props: Some(props("ir", None)),
        caps: Some(vec![gray]),
    };
    let list = camera_choices(&[front.clone(), ir.clone(), front.clone()], false);
    assert_eq!(
        list,
        vec![
            ("Primary Camera".to_string(), "primary".to_string()),
            (
                "Front".to_string(),
                "pipewiresrc target-object=front".to_string()
            ),
        ]
    );
    let mono = camera_choices(&[front, ir], true);
    assert_eq!(
        mono,
        vec![("IR".to_string(), "pipewiresrc target-object=ir".to_string())]
    );
}
