use gaze::config::{Config, SecurityLevel};
use gaze::doctor::{
    config_findings, find_pam_ordering_conflicts, pam_file_references_gaze, pam_line_has_reference,
    Level, Report,
};

fn threshold_text(bits: u64) -> String {
    f64::from_bits(bits).to_string()
}

fn findings_of(config: &Config) -> Vec<gaze::doctor::Check> {
    config_findings(
        config,
        &threshold_text(config.security.threshold_bits),
        &threshold_text(config.liveness.threshold_bits),
    )
}

#[test]
fn valid_default_config_has_no_errors() {
    let findings = findings_of(&Config::default());
    assert!(!findings.iter().any(|check| check.level == Level::Error));
}

#[test]
fn config_checks_invalid_thresholds_and_camera_sources() {
    let mut config = Config::default();
    config.security.level = "custom".to_string();
    config.security.detector = "standard".to_string();
    config.security.recognizer = "standard".to_string();
    config.security.threshold_bits = 1.5f64.to_bits();
    config.security.hybrid_policy = "sometimes".to_string();
    config.cameras.rgb = "/dev/video0".to_string();
    config.liveness.threshold_bits = f64::NAN.to_bits();
    config.liveness.max_frames = 0;

    let findings = findings_of(&config);
    let messages = findings
        .iter()
        .map(|check| check.message.as_str())
        .collect::<Vec<_>>();
    assert!(messages
        .iter()
        .any(|message| message.contains("security.threshold")));
    assert!(messages.iter().any(|message| message.contains("hybrid_policy")));
    assert!(messages.iter().any(|message| message.contains("direct RGB")));
    assert!(messages
        .iter()
        .any(|message| message.contains("liveness.threshold")));
    assert!(messages.iter().any(|message| message.contains("max_frames")));
}

#[test]
fn pam_reference_parser_ignores_comments_and_accepts_absolute_paths() {
    assert!(!pam_line_has_reference("# auth sufficient pam_gaze.so"));
    assert!(!pam_line_has_reference("auth include system-auth"));
    assert!(pam_line_has_reference("auth sufficient pam_gaze.so"));
    assert!(pam_line_has_reference(
        "auth sufficient /usr/lib/security/pam_gaze_grosshack.so debug"
    ));
    assert!(!pam_line_has_reference("auth sufficient pam_gaze.so.disabled"));
}

#[test]
fn pam_ordering_flags_modules_stacked_before_gaze() {
    let stacked_behind = "auth [success=3 default=ignore] pam_fprintd.so\n\
         auth [success=2 default=ignore] pam_unix.so\n\
         auth [success=1 default=ignore] pam_gaze.so\n";
    assert_eq!(
        find_pam_ordering_conflicts(stacked_behind),
        vec!["pam_unix.so", "pam_fprintd.so"]
    );

    let stacked_first = "auth sufficient pam_gaze.so\n\
         auth sufficient pam_unix.so try_first_pass nullok\n";
    assert!(find_pam_ordering_conflicts(stacked_first).is_empty());

    assert!(find_pam_ordering_conflicts("auth include system-auth\n").is_empty());
}

#[test]
fn report_health_depends_on_errors_not_warnings() {
    let mut report = Report::default();
    report.pass("test", "ok".to_string());
    report.warning("test", "advisory".to_string(), "fix".to_string());
    assert!(report.is_healthy());
    report.error("test", "broken".to_string(), "fix".to_string());
    assert!(!report.is_healthy());
}

#[test]
fn report_counts_each_level() {
    let mut report = Report::default();
    report.pass("a", "ok".to_string());
    report.pass("b", "ok".to_string());
    report.warning("c", "hm".to_string(), "fix".to_string());
    report.error("d", "bad".to_string(), "fix".to_string());
    assert_eq!(report.count(Level::Pass), 2);
    assert_eq!(report.count(Level::Warning), 1);
    assert_eq!(report.count(Level::Error), 1);
    assert_eq!(report.checks[3].fix.as_deref(), Some("fix"));
    assert_eq!(report.checks[0].fix, None);
}

#[test]
fn report_extend_appends_in_order() {
    let mut report = Report::default();
    report.pass("first", "one".to_string());
    let findings = findings_of(&Config::default());
    let n = findings.len();
    report.extend(findings);
    assert_eq!(report.checks.len(), n + 1);
    assert_eq!(report.checks[0].name, "first");
    assert_eq!(report.checks[1].name, "Config values");
}

#[test]
fn default_config_findings_are_a_pass_then_no_warnings() {
    let findings = findings_of(&Config::default());
    assert_eq!(findings.len(), 1);
    assert_eq!(findings[0].level, Level::Pass);
    assert_eq!(
        findings[0].message,
        "camera, security, enrollment, and liveness values are valid"
    );
}

#[test]
fn config_findings_warn_about_disabled_liveness_and_templates() {
    let mut config = Config::default();
    config.liveness.enabled = false;
    config.enrollment.max_templates = 0;
    config.cameras.emitter_enabled = true;
    let findings = findings_of(&config);
    let names: Vec<&str> = findings.iter().map(|c| c.name).collect();
    assert_eq!(
        names,
        vec!["Config values", "IR emitter", "Liveness", "Enrollment limit"]
    );
    assert!(findings[1..].iter().all(|c| c.level == Level::Warning));
}

#[test]
fn config_error_messages_carry_the_values() {
    let mut config = Config::default();
    config.security = SecurityLevel::custom(
        "standard".to_string(),
        "standard".to_string(),
        1.5f64.to_bits(),
        "sometimes".to_string(),
    );
    config.cameras.rgb = "  /dev/video0 ".to_string();
    let findings = findings_of(&config);
    assert_eq!(
        findings[0].message,
        "security.threshold must be between 0.0 and 1.0, got 1.5"
    );
    assert_eq!(
        findings[1].message,
        "unsupported security.hybrid_policy \"sometimes\""
    );
    assert_eq!(
        findings[2].message,
        "direct RGB camera path \"/dev/video0\" is unsupported"
    );
    assert!(findings.iter().all(|c| c.level == Level::Error));
}

#[test]
fn negative_zero_threshold_is_accepted_and_nan_is_not() {
    let mut config = Config::default();
    config.security = SecurityLevel::custom(
        "standard".to_string(),
        "accurate".to_string(),
        (-0.0f64).to_bits(),
        String::new(),
    );
    assert!(!findings_of(&config).iter().any(|c| c.level == Level::Error));
    config.security.threshold_bits = f64::NAN.to_bits();
    assert!(findings_of(&config).iter().any(|c| c.level == Level::Error));
}

#[test]
fn pam_file_reference_looks_at_every_line() {
    assert!(pam_file_references_gaze(
        "#%PAM-1.0\nauth required pam_env.so\nauth sufficient pam_gaze.so\n"
    ));
    assert!(!pam_file_references_gaze(
        "auth required pam_env.so\n# auth sufficient pam_gaze.so\n"
    ));
    assert!(!pam_file_references_gaze(""));
}

#[test]
fn ordering_ignores_non_auth_lines_and_comments() {
    let contents = "account required pam_unix.so\n\
         # auth required pam_unix.so\n\
         auth sufficient pam_gaze.so\n\
         auth required pam_unix.so\n";
    assert!(find_pam_ordering_conflicts(contents).is_empty());
    let contents = "auth required pam_unix.so # then face\nauth sufficient pam_gaze.so\n";
    assert_eq!(find_pam_ordering_conflicts(contents), vec!["pam_unix.so"]);
}
