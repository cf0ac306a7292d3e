use gaze::pam::{
    authentication_precheck,
    after_race, biometric_code, classify_comm, confirmation_verdict, conversation_confirms,
    desktop_confirmation, desktop_of_comms, detect_desktop_environment, is_polkit_service,
    key_confirms, password_fallback, typed_password, AfterRace, Attempt, AttemptRun,
    BiometricOutcome, DesktopConfirmation, DesktopKind, ProcEntry, RaceWinner, MAX_ATTEMPTS,
    PAM_AUTHINFO_UNAVAIL, PAM_AUTH_ERR, PAM_IGNORE, PAM_SERVICE_ERR, PAM_SUCCESS,
};

fn proc_entry(name: &str, owner: u32, comm: Option<&str>) -> ProcEntry {
    ProcEntry {
        name: name.to_string(),
        is_dir: true,
        owner,
        comm: comm.map(|c| c.to_string()),
    }
}

#[test]
fn desktop_detection_prefers_kde_then_hyprland_then_gnome() {
    let procs = vec![
        proc_entry("100", 1000, Some("gnome-shell\n")),
        proc_entry("101", 1000, Some("Hyprland\n")),
        proc_entry("102", 1001, Some("plasmashell\n")),
        proc_entry("self", 1000, Some("plasmashell\n")),
    ];
    assert_eq!(detect_desktop_environment(1000, &procs), "Hyprland");
    assert_eq!(detect_desktop_environment(1001, &procs), "KDE");
    assert_eq!(detect_desktop_environment(1002, &procs), "Other");
    let gnome = vec![proc_entry("7", 5, Some("gnome-shell"))];
    assert_eq!(detect_desktop_environment(5, &gnome), "GNOME");
    let unreadable = vec![proc_entry("7", 5, None)];
    assert_eq!(detect_desktop_environment(5, &unreadable), "Other");
    assert_eq!(classify_comm(" kwin_wayland "), DesktopKind::Kde);
    assert_eq!(
        desktop_of_comms(&["lxqt-policykit".to_string()]),
        "KDE"
    );
}

#[test]
fn confirmation_keys_and_answers() {
    assert!(key_confirms(b'\n'));
    assert!(key_confirms(b'\r'));
    assert!(!key_confirms(27));
    assert!(conversation_confirms(Some("")));
    assert!(!conversation_confirms(Some("no")));
    assert!(!conversation_confirms(None));
}

#[test]
fn typed_password_drops_line_endings_only() {
    assert_eq!(typed_password("secret\n"), "secret");
    assert_eq!(typed_password("secret\r\n\n"), "secret");
    assert_eq!(typed_password(" pass word "), " pass word ");
    assert_eq!(typed_password("\n"), "");
}

#[test]
fn biometric_codes() {
    assert_eq!(biometric_code(BiometricOutcome::Matched), Some(PAM_SUCCESS));
    assert_eq!(biometric_code(BiometricOutcome::NotMatched), Some(PAM_AUTH_ERR));
    assert_eq!(biometric_code(BiometricOutcome::Skipped), Some(PAM_IGNORE));
    assert_eq!(biometric_code(BiometricOutcome::Failed), None);
}

#[test]
fn the_race_decides_what_follows() {
    let matched = RaceWinner::Biometric(Some(PAM_SUCCESS));
    assert_eq!(after_race(&RaceWinner::Password, true, true, true), AfterRace::FallBack);
    assert_eq!(
        after_race(&RaceWinner::Biometric(Some(PAM_AUTH_ERR)), false, false, true),
        AfterRace::FallBack
    );
    assert_eq!(after_race(&RaceWinner::Biometric(None), false, false, true), AfterRace::FallBack);
    assert_eq!(after_race(&matched, false, true, true), AfterRace::RetireAndSucceed);
    assert_eq!(after_race(&matched, true, false, true), AfterRace::RetireAndConfirm);
    assert_eq!(after_race(&matched, true, false, false), AfterRace::Succeed);
    assert_eq!(after_race(&matched, true, true, true), AfterRace::ConfirmOnDesktop);
    assert!(is_polkit_service(Some("polkit-1")));
    assert!(!is_polkit_service(Some("sudo")));
    assert!(!is_polkit_service(None));
}

#[test]
fn password_fallback_hands_the_password_on() {
    let v = password_fallback(Some("hunter2".to_string()));
    assert_eq!(v.code, PAM_AUTHINFO_UNAVAIL);
    assert_eq!(v.stash.as_deref(), Some("hunter2"));
    let v = password_fallback(None);
    assert_eq!(v.code, PAM_AUTH_ERR);
    assert!(v.stash.is_none());
}

#[test]
fn desktop_confirmations() {
    assert!(matches!(desktop_confirmation("GNOME", true), DesktopConfirmation::ExtensionRequest));
    assert!(matches!(desktop_confirmation("GNOME", false), DesktopConfirmation::Succeed));
    assert!(matches!(
        desktop_confirmation("KDE", false),
        DesktopConfirmation::Prompt("Face Verified. Press OK to confirm.")
    ));
    assert!(matches!(
        desktop_confirmation("LXQt", true),
        DesktopConfirmation::Prompt("Face Verified. Press OK to confirm.")
    ));
    assert!(matches!(
        desktop_confirmation("Hyprland", true),
        DesktopConfirmation::Prompt("Face Verified. Press Authenticate to confirm.")
    ));
    assert!(matches!(
        desktop_confirmation("Other", true),
        DesktopConfirmation::Prompt("Face Verified. Press Enter to confirm.")
    ));

    let ext = DesktopConfirmation::ExtensionRequest;
    assert_eq!(confirmation_verdict(&ext, Some("CONFIRM".to_string())).code, PAM_SUCCESS);
    let v = confirmation_verdict(&ext, Some("pw".to_string()));
    assert_eq!((v.code, v.stash.as_deref()), (PAM_AUTHINFO_UNAVAIL, Some("pw")));
    assert_eq!(confirmation_verdict(&ext, None).code, PAM_AUTH_ERR);
    let prompt = desktop_confirmation("KDE", false);
    assert_eq!(confirmation_verdict(&prompt, Some(String::new())).code, PAM_SUCCESS);
    let v = confirmation_verdict(&prompt, Some("CONFIRM".to_string()));
    assert_eq!(v.code, PAM_AUTHINFO_UNAVAIL);
    assert_eq!(
        confirmation_verdict(&DesktopConfirmation::Succeed, None).code,
        PAM_SUCCESS
    );
}

#[test]
fn camera_only_attempts() {
    let mut run = AttemptRun::new();
    assert_eq!(run.record(Attempt::NoFrame), None);
    assert_eq!(run.record(Attempt::Retryable), None);
    assert_eq!(run.record(Attempt::Verified(false)), None);
    assert_eq!(run.record(Attempt::Verified(true)), Some(PAM_SUCCESS));

    let mut run = AttemptRun::new();
    assert_eq!(run.record(Attempt::Failed), Some(PAM_SERVICE_ERR));

    let mut run = AttemptRun::new();
    let mut last = None;
    for _ in 0..MAX_ATTEMPTS {
        last = run.record(Attempt::Verified(false));
    }
    assert_eq!(last, Some(PAM_AUTH_ERR));
}

#[test]
fn authentication_stops_early_without_user_runtime_or_faces() {
    assert_eq!(authentication_precheck(None, true, &Ok(true)), Some(PAM_AUTH_ERR));
    assert_eq!(authentication_precheck(Some("alice"), false, &Ok(true)), Some(PAM_AUTHINFO_UNAVAIL));
    assert_eq!(authentication_precheck(Some("alice"), true, &Ok(false)), Some(PAM_IGNORE));
    assert_eq!(authentication_precheck(Some("alice"), true, &Ok(true)), None);
    assert_eq!(authentication_precheck(Some("alice"), true, &Err("no bus".to_string())), None);
}
