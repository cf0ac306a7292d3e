use gaze::cli::{
    auth_status_message, build_uninstall_plan, camera_default_index, capture_tone,
    clear_user_notice, custom_defaults, enroll_progress, ir_camera_options,
    list_faces_failure_notice, matched_face, refresh_gnome_system_settings_cmd,
    remove_face_notice, remove_gdm_dconf_overrides_cmd, rename_face_notice,
    reset_gnome_user_settings_cmd, restore_authselect_cmd, EnrollProgress, MatchPercent, Tone,
    UninstallTools,
};
use gaze::config::SecurityLevel;
use gaze::status::{CaptureStatus, EnrollPrompt};

fn tools() -> UninstallTools {
    UninstallTools {
        gnome_extensions: false,
        pam_auth_update: false,
        authselect: false,
        apt_get: false,
        dnf: false,
        pacman: false,
        semodule: false,
    }
}

#[test]
fn capture_tones() {
    assert_eq!(capture_tone(CaptureStatus::Ready), Tone::Good);
    assert_eq!(capture_tone(CaptureStatus::Usable), Tone::Good);
    assert_eq!(capture_tone(CaptureStatus::NoFace), Tone::Error);
    assert_eq!(capture_tone(CaptureStatus::Unused), Tone::Error);
    assert_eq!(capture_tone(CaptureStatus::TooDark), Tone::Warn);
    assert_eq!(capture_tone(CaptureStatus::TooClose), Tone::Warn);
}

#[test]
fn auth_status_lines() {
    assert_eq!(
        auth_status_message("alice", CaptureStatus::Usable),
        "Scanning face for alice..."
    );
    assert_eq!(
        auth_status_message("alice", CaptureStatus::TooFar),
        "Please come closer..."
    );
}

#[test]
fn enrollment_signals() {
    assert_eq!(enroll_progress(EnrollPrompt::LookUp, false), EnrollProgress::Continue);
    assert_eq!(enroll_progress(EnrollPrompt::Completed, true), EnrollProgress::Completed);
    assert_eq!(enroll_progress(EnrollPrompt::Completed, false), EnrollProgress::Continue);
    assert_eq!(enroll_progress(EnrollPrompt::Captured, true), EnrollProgress::Failed);
    assert_eq!(enroll_progress(EnrollPrompt::DbFailed, false), EnrollProgress::Failed);
    assert_eq!(enroll_progress(EnrollPrompt::Cancelled, true), EnrollProgress::Failed);
}

#[test]
fn matched_face_is_the_first_that_passed() {
    assert_eq!(matched_face(&[]), None);
    assert_eq!(matched_face(&[(false, false)]), None);
    assert_eq!(
        matched_face(&[(false, false), (false, true), (true, true)]),
        Some((1, MatchPercent::Ir))
    );
    assert_eq!(matched_face(&[(true, true)]), Some((0, MatchPercent::Larger)));
    assert_eq!(matched_face(&[(true, false)]), Some((0, MatchPercent::Rgb)));
}

#[test]
fn face_command_notices() {
    let n = remove_face_notice("alice", "default", &Ok(true));
    assert_eq!((n.tone, n.text.as_str()), (Tone::Good, "Face 'default' removed for 'alice'"));
    let n = remove_face_notice("alice", "default", &Ok(false));
    assert_eq!((n.tone, n.text.as_str()), (Tone::Warn, "Face 'default' not found for 'alice'"));
    let n = remove_face_notice("alice", "x", &Err("org.x.Error: denied".to_string()));
    assert_eq!((n.tone, n.text.as_str()), (Tone::Error, "Failed to remove face: denied"));

    let n = rename_face_notice("bob", "old", "new", &Ok(true));
    assert_eq!(n.text, "Face 'old' renamed to 'new' for 'bob'");
    let n = rename_face_notice("bob", "old", "new", &Ok(false));
    assert_eq!(n.text, "Face 'old' not found for 'bob'");
    let n = rename_face_notice("bob", "old", "new", &Err("boom".to_string()));
    assert_eq!(n.text, "Failed to rename face: boom");

    assert_eq!(clear_user_notice("carol", &Ok(true)).text, "All data cleared for 'carol'");
    assert_eq!(clear_user_notice("carol", &Ok(false)).text, "No data found for 'carol'");
    assert_eq!(
        clear_user_notice("carol", &Err("e: x".to_string())).text,
        "Failed to clear user: x"
    );

    let n = list_faces_failure_notice("dave", "org.gaze.FileNotFound: none");
    assert_eq!((n.tone, n.text.as_str()), (Tone::Info, "No faces found for dave"));
    let n = list_faces_failure_notice("dave", "org.x: broken");
    assert_eq!((n.tone, n.text.as_str()), (Tone::Error, "Failed to fetch faces: broken"));
}

#[test]
fn uninstall_plan_without_optional_tools() {
    let plan = build_uninstall_plan(false, &tools());
    let steps: Vec<&str> = plan.iter().map(|(d, _)| *d).collect();
    assert_eq!(
        steps,
        vec![
            "Reset GNOME lock/login settings",
            "Remove GDM dconf overrides",
            "Remove hyprlock pam_module references",
            "Stop and disable daemon",
            "Remove model cache",
            "Remove config",
            "Remove enrolled face data",
            "Refresh GNOME system settings",
            "Reload systemd",
        ]
    );
    assert_eq!(plan[4].1, "sudo rm -rf /var/cache/gaze");
    assert_eq!(plan[8].1, "sudo systemctl daemon-reload");
}

#[test]
fn uninstall_plan_uses_one_package_manager_and_keeps_data_on_request() {
    let mut t = tools();
    t.gnome_extensions = true;
    t.apt_get = true;
    t.dnf = true;
    t.semodule = true;
    let plan = build_uninstall_plan(true, &t);
    let steps: Vec<&str> = plan.iter().map(|(d, _)| *d).collect();
    assert_eq!(steps[0], "Disable GNOME extension (best-effort)");
    assert!(steps.contains(&"Remove apt packages"));
    assert!(steps.contains(&"Remove apt repo + keyring"));
    assert!(!steps.contains(&"Remove dnf packages"));
    assert!(steps.contains(&"Remove SELinux policy"));
    assert!(!steps.contains(&"Remove enrolled face data"));
    assert_eq!(
        plan[0].1,
        "gnome-extensions disable gaze@gundulabs.com 2>/dev/null || true"
    );
    let hypr = plan
        .iter()
        .find(|(d, _)| *d == "Remove hyprlock pam_module references")
        .unwrap();
    assert!(hypr
        .1
        .starts_with("for d in /home/*/.config/hypr /root/.config/hypr; do f=\"$d/hyprlock.conf\"; [ -f"));

    let mut t = tools();
    t.pacman = true;
    t.pam_auth_update = true;
    t.authselect = true;
    let plan = build_uninstall_plan(false, &t);
    let steps: Vec<&str> = plan.iter().map(|(d, _)| *d).collect();
    assert!(steps.contains(&"Remove pacman packages"));
    assert!(steps.contains(&"Remove old pacman repo entry"));
    assert!(steps.contains(&"Remove Debian/Ubuntu PAM profile"));
    assert!(steps.contains(&"Restore authselect profile"));
}

#[test]
fn shell_commands_join_their_words() {
    assert_eq!(
        remove_gdm_dconf_overrides_cmd(),
        "sudo rm -f /etc/dconf/db/gdm.d/00-gaze-defaults* /etc/dconf/db/gdm.d/99-gaze* && if command -v dconf >/dev/null 2>&1; then sudo dconf update >/dev/null 2>&1 || true; fi"
    );
    assert!(refresh_gnome_system_settings_cmd().starts_with("if command -v dconf >/dev/null 2>&1; then sudo dconf update"));
    assert!(restore_authselect_cmd().ends_with("sudo authselect select sssd --force 2>/dev/null || true; fi"));
    assert!(reset_gnome_user_settings_cmd().ends_with("done; fi"));
}

#[test]
fn wizard_defaults() {
    let (d, r, bits, p) = custom_defaults(&SecurityLevel::high());
    assert_eq!((d.as_str(), r.as_str(), p.as_str()), ("accurate", "accurate", ""));
    assert_eq!(f64::from_bits(bits), 0.6);
    let custom = SecurityLevel::custom(
        "standard".to_string(),
        "accurate".to_string(),
        0.42f64.to_bits(),
        "and".to_string(),
    );
    let (d, r, bits, p) = custom_defaults(&custom);
    assert_eq!((d.as_str(), r.as_str(), p.as_str()), ("standard", "accurate", "and"));
    assert_eq!(f64::from_bits(bits), 0.42);

    let cams = vec![
        ("A".to_string(), "primary".to_string()),
        ("B".to_string(), "pipewiresrc target-object=b".to_string()),
        ("C".to_string(), "pipewiresrc target-object=b".to_string()),
    ];
    assert_eq!(camera_default_index(&cams, "pipewiresrc target-object=b"), 1);
    assert_eq!(camera_default_index(&cams, "nope"), 0);

    let ir = ir_camera_options(vec![("IR".to_string(), "pipewiresrc target-object=ir".to_string())]);
    assert_eq!(ir[0], ("None".to_string(), String::new()));
    assert_eq!(ir[1].0, "IR");
    assert_eq!(ir.len(), 2);
}
