use gaze::config::{
    hybrid_policy_option, model_quality_option, security_level_option, Config, SecurityLevel,
    CUSTOM_LEVEL_INDEX, DEFAULT_RGB_CAMERA,
};

fn threshold(level: &SecurityLevel) -> f32 {
    f64::from_bits(level.match_threshold_bits()) as f32
}

#[test]
fn security_level_mappings_are_stable() {
    let cases = [
        (SecurityLevel::low(), "det_500m.onnx", "w600k_mbf.onnx", 0.3),
        (SecurityLevel::medium(), "det_500m.onnx", "w600k_mbf.onnx", 0.4),
        (SecurityLevel::high(), "det_10g.onnx", "w600k_r50.onnx", 0.5),
        (SecurityLevel::maximum(), "det_10g.onnx", "w600k_r50.onnx", 0.6),
    ];

    for (level, detector, recognizer, expected) in cases {
        assert_eq!(level.detector(), detector);
        assert_eq!(level.recognizer(), recognizer);
        assert!((threshold(&level) - expected).abs() < f32::EPSILON);
    }

    let custom = SecurityLevel::custom(
        "accurate".to_string(),
        "accurate".to_string(),
        0.73f64.to_bits(),
        String::new(),
    );
    assert_eq!(custom.detector(), "det_10g.onnx");
    assert_eq!(custom.recognizer(), "w600k_r50.onnx");
    assert!((threshold(&custom) - 0.73).abs() < f32::EPSILON);

    let custom_standard = SecurityLevel::custom(
        "standard".to_string(),
        "standard".to_string(),
        0.35f64.to_bits(),
        String::new(),
    );
    assert_eq!(custom_standard.detector(), "det_500m.onnx");
    assert_eq!(custom_standard.recognizer(), "w600k_mbf.onnx");
    assert!((threshold(&custom_standard) - 0.35).abs() < f32::EPSILON);
}

#[test]
fn validate_rejects_unknown_security_level() {
    let mut level = SecurityLevel::medium();
    level.level = "bogus".to_string();
    assert!(level.validate().is_err());
    for preset in ["low", "medium", "high", "maximum"] {
        let mut l = SecurityLevel::medium();
        l.level = preset.to_string();
        l.validate().unwrap();
    }
}

#[test]
fn unknown_level_falls_back_to_medium_without_panicking() {
    let mut level = SecurityLevel::medium();
    level.level = "bogus".to_string();
    assert_eq!(level.detector(), "det_500m.onnx");
    assert_eq!(level.recognizer(), "w600k_mbf.onnx");
    assert!((threshold(&level) - 0.4).abs() < f32::EPSILON);
}

#[test]
fn hybrid_policy_mappings() {
    let mut config = Config::default();

    config.security.level = "low".to_string();
    assert_eq!(config.security.hybrid_policy(), "or");

    config.security.level = "medium".to_string();
    assert_eq!(config.security.hybrid_policy(), "fallback_on_dark");

    config.security.level = "high".to_string();
    assert_eq!(config.security.hybrid_policy(), "fallback_on_dark");

    config.security.level = "maximum".to_string();
    assert_eq!(config.security.hybrid_policy(), "and");

    config.security.level = "unknown".to_string();
    assert_eq!(config.security.hybrid_policy(), "fallback_on_dark");

    config.security.level = "custom".to_string();
    config.security.hybrid_policy = "custom_policy".to_string();
    assert_eq!(config.security.hybrid_policy(), "custom_policy");
}

#[test]
fn default_config_values() {
    let config = Config::default();
    assert_eq!(config.security.level, "medium");
    assert_eq!(config.cameras.rgb, DEFAULT_RGB_CAMERA);
    assert_eq!(config.cameras.ir, "");
    assert!(!config.cameras.emitter_enabled);
    assert_eq!(config.cameras.dark_luma_threshold, 30);
    assert!(config.auth.abort_if_ssh);
    assert!(config.auth.abort_if_lid_closed);
    assert!(!config.auth.require_confirmation);
    assert_eq!(config.enrollment.max_templates, 2);
    assert!(config.liveness.enabled);
    assert_eq!(f64::from_bits(config.liveness.threshold_bits), 0.8);
    assert_eq!(config.liveness.max_frames, 40);
    assert!(!config.storage.encrypt_templates);
}

#[test]
fn selector_positions_round_trip() {
    for i in 0..4usize {
        let level = SecurityLevel::preset_from_index(i).expect("preset");
        assert_eq!(level.level, security_level_option(i));
        assert_eq!(level.level_index() as usize, i);
    }
    assert!(SecurityLevel::preset_from_index(CUSTOM_LEVEL_INDEX as usize).is_none());
    let custom = SecurityLevel::custom(String::new(), String::new(), 0, String::new());
    assert_eq!(custom.level_index(), CUSTOM_LEVEL_INDEX);
    let mut odd = SecurityLevel::medium();
    odd.level = "bogus".to_string();
    assert_eq!(odd.level_index(), 1);

    for i in 0..2usize {
        let v = model_quality_option(i);
        assert_eq!(SecurityLevel::model_quality_index(v) as usize, i);
        assert_eq!(SecurityLevel::model_quality_from_index(i), v);
    }
    assert_eq!(SecurityLevel::model_quality_index("bogus"), 0);

    for p in ["", "or", "fallback_on_dark", "and"] {
        let i = SecurityLevel::hybrid_policy_index_for_value(p) as usize;
        assert_eq!(SecurityLevel::hybrid_policy_from_index(i), p);
    }
    assert_eq!(SecurityLevel::hybrid_policy_index_for_value("default"), 0);
    assert_eq!(hybrid_policy_option(2), "fallback_on_dark");
    assert_eq!(SecurityLevel::hybrid_policy_from_index(9), "");
}

#[test]
fn custom_level_validation_checks_model_qualities() {
    let good = SecurityLevel::custom(
        "standard".to_string(),
        "accurate".to_string(),
        0.5f64.to_bits(),
        String::new(),
    );
    assert!(good.validate().is_ok());
    let bad = SecurityLevel::custom(
        "fast".to_string(),
        "accurate".to_string(),
        0.5f64.to_bits(),
        String::new(),
    );
    assert!(bad.validate().is_err());
}
