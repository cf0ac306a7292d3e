use gaze::models::{is_model_entry, model_pack, pack_archive_name, zip_url};
use gaze::settings::{apply_settings_form, settings_form};
use gaze::config::{Config, SecurityLevel};
use gaze::text::{
    chars_of, decimal_string, join_strings, lines_of, octal_string, split_tokens, string_of,
    trim_vec,
};

fn s(v: &[char]) -> String {
    v.iter().collect()
}

#[test]
fn text_helpers() {
    assert_eq!(s(&trim_vec(&chars_of("  a b \t\n"))), "a b");
    let toks: Vec<String> = split_tokens(&chars_of("  auth  sufficient\tpam_gaze.so "), true)
        .iter()
        .map(|t| s(t))
        .collect();
    assert_eq!(toks, vec!["auth", "sufficient", "pam_gaze.so"]);
    let lines: Vec<String> = lines_of(&chars_of("a\r\nb\n\nc\n")).iter().map(|l| s(l)).collect();
    assert_eq!(lines, vec!["a", "b", "", "c"]);
    assert!(lines_of(&chars_of("")).is_empty());
    assert_eq!(decimal_string(0), "0");
    assert_eq!(decimal_string(u64::MAX), u64::MAX.to_string());
    assert_eq!(octal_string(0o755), "755");
    assert_eq!(octal_string(0), "0");
    assert_eq!(join_strings(&["a".to_string(), "b".to_string()], ", "), "a, b");
    assert_eq!(join_strings(&[], ", "), "");
    assert_eq!(string_of(&['x', 'y']), "xy");
}

#[test]
fn model_download_names() {
    assert_eq!(model_pack("det_10g.onnx"), "buffalo_l");
    assert_eq!(model_pack("det_500m.onnx"), "buffalo_sc");
    assert_eq!(
        zip_url("buffalo_l"),
        "https://github.com/deepinsight/insightface/releases/download/v0.7/buffalo_l.zip"
    );
    assert_eq!(pack_archive_name("buffalo_sc"), "buffalo_sc.zip");
    assert!(is_model_entry("buffalo_l/det_10g.onnx"));
    assert!(!is_model_entry("README.md"));
}

#[test]
fn settings_form_round_trip() {
    let cameras = vec![
        ("Primary Camera".to_string(), "primary".to_string()),
        ("Front".to_string(), "pipewiresrc target-object=front".to_string()),
    ];
    let mut config = Config::default();
    config.security = SecurityLevel::high();
    config.cameras.rgb = "pipewiresrc target-object=front".to_string();
    let form = settings_form(&config, &cameras);
    assert_eq!(form.level_index, 2);
    assert_eq!(form.detector, "det_10g.onnx");
    assert!(!form.threshold_is_custom);
    assert_eq!(f64::from_bits(form.threshold_bits), 0.5);
    assert_eq!(form.camera_index, 1);

    let mut applied = Config::default();
    apply_settings_form(&mut applied, &form, &cameras);
    assert_eq!(applied.security.level, "high");
    assert_eq!(applied.cameras.rgb, "pipewiresrc target-object=front");

    let mut custom_form = settings_form(&applied, &cameras);
    custom_form.level_index = 4;
    custom_form.detector = "standard".to_string();
    custom_form.threshold_bits = 0.45f64.to_bits();
    custom_form.ir = "  /dev/video2 ".to_string();
    custom_form.camera_index = 9;
    apply_settings_form(&mut applied, &custom_form, &cameras);
    assert_eq!(applied.security.level, "custom");
    assert_eq!(applied.security.detector, "standard");
    assert_eq!(f64::from_bits(applied.security.threshold_bits), 0.45);
    assert_eq!(applied.cameras.ir, "/dev/video2");
    assert_eq!(applied.cameras.rgb, "pipewiresrc target-object=front");
}
