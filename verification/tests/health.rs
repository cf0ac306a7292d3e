use gaze::config::{Config, CONFIG_PATH};
use gaze::doctor::{Level, Report};
use gaze::health::{
    camera_plan, check_benchmark, check_camera_session, check_config, check_config_permissions,
    check_daemon_config, check_daemon_connection, check_enrollment, check_gnome_integration,
    check_hyprlock, check_ir_custom, check_ir_device, check_ir_pipewire, check_pam,
    check_platform, check_rgb_camera, check_systemd, check_tpm, command_text,
    daemon_ready_wait_secs, desktop_is_gnome, desktop_is_hyprland, desktop_name,
    hyprlock_config_path, ConfigLoad, DaemonReply, IrCheck, PamModuleFile, PamStackFile,
};

fn last(report: &Report) -> (Level, &str, &str, Option<&str>) {
    let c = report.checks.last().expect("a check");
    (c.level, c.name, c.message.as_str(), c.fix.as_deref())
}

#[test]
fn command_text_prefers_stdout() {
    assert_eq!(command_text(" active\n", "ignored"), "active");
    assert_eq!(command_text("", "  Failed to connect\n"), "Failed to connect");
}

#[test]
fn systemd_findings() {
    let mut r = Report::default();
    check_systemd(&mut r, None);
    assert_eq!(last(&r).0, Level::Warning);
    assert_eq!(last(&r).1, "systemd");

    let mut r = Report::default();
    check_systemd(
        &mut r,
        Some((Ok((true, "active".to_string())), Ok((true, "enabled".to_string())))),
    );
    assert_eq!(r.checks.len(), 2);
    assert_eq!(r.checks[0].message, "gazed is active");
    assert_eq!(r.checks[1].message, "gazed is enabled at boot");
    assert!(r.is_healthy());

    let mut r = Report::default();
    check_systemd(
        &mut r,
        Some((Ok((false, "inactive".to_string())), Err("no systemctl".to_string()))),
    );
    assert_eq!(r.checks[0].level, Level::Error);
    assert_eq!(r.checks[0].message, "gazed is inactive");
    assert_eq!(r.checks[1].level, Level::Warning);
    assert_eq!(
        r.checks[1].message,
        "could not query gazed enablement: no systemctl"
    );
    assert_eq!(daemon_ready_wait_secs(&Ok((true, "active".to_string()))), 25);
    assert_eq!(daemon_ready_wait_secs(&Ok((false, "active".to_string()))), 0);
}

#[test]
fn config_permission_findings() {
    let mut r = Report::default();
    check_config_permissions(&mut r, &Ok((0, 0o100644)));
    assert_eq!(
        last(&r),
        (
            Level::Pass,
            "Config permissions",
            "root-owned and not writable by group or others (644)",
            None
        )
    );
    check_config_permissions(&mut r, &Ok((0, 0o100664)));
    assert_eq!(last(&r).2, format!("{CONFIG_PATH} has writable mode 664"));
    check_config_permissions(&mut r, &Ok((1000, 0o100600)));
    assert_eq!(last(&r).1, "Config ownership");
    assert_eq!(last(&r).2, format!("{CONFIG_PATH} is owned by UID 1000"));
    assert_eq!(
        last(&r).3,
        Some("Run `sudo chown root:root /etc/gaze/config.toml`.")
    );
    check_config_permissions(&mut r, &Err("denied".to_string()));
    assert_eq!(
        last(&r).2,
        "could not inspect /etc/gaze/config.toml: denied"
    );
}

#[test]
fn config_file_findings() {
    let mut r = Report::default();
    assert!(check_config(&mut r, None, "0", "0.8").is_none());
    assert_eq!(last(&r).2, "/etc/gaze/config.toml does not exist");

    let mut r = Report::default();
    let loaded = check_config(
        &mut r,
        Some((Ok((0, 0o644)), ConfigLoad::Loaded(Config::default()))),
        "0",
        "0.8",
    );
    assert!(loaded.is_some());
    let names: Vec<&str> = r.checks.iter().map(|c| c.name).collect();
    assert_eq!(names, vec!["Config permissions", "Configuration", "Config values"]);
    assert!(r.is_healthy());

    let mut r = Report::default();
    assert!(check_config(&mut r, Some((Ok((0, 0o600)), ConfigLoad::Private)), "", "").is_none());
    assert_eq!(
        last(&r).2,
        "/etc/gaze/config.toml is private; values will be checked through gazed"
    );

    let mut r = Report::default();
    let bad = ConfigLoad::Failed("expected `=`".to_string());
    assert!(check_config(&mut r, Some((Ok((0, 0o644)), bad)), "", "").is_none());
    assert_eq!(last(&r).0, Level::Error);
    assert_eq!(
        last(&r).2,
        "could not load /etc/gaze/config.toml: expected `=`"
    );
}

#[test]
fn tpm_findings() {
    let mut r = Report::default();
    check_tpm(&mut r, None, false);
    assert!(r.checks.is_empty());
    let mut config = Config::default();
    check_tpm(&mut r, Some(&config), false);
    assert_eq!(last(&r).2, "template encryption is disabled, so no TPM is required");
    config.storage.encrypt_templates = true;
    check_tpm(&mut r, Some(&config), true);
    assert_eq!(last(&r).0, Level::Pass);
    check_tpm(&mut r, Some(&config), false);
    assert_eq!(last(&r).0, Level::Error);
}

#[test]
fn platform_findings() {
    let mut r = Report::default();
    check_platform(&mut r, "macos", "aarch64", None);
    assert_eq!(last(&r).2, "macos is not supported");
    check_platform(&mut r, "linux", "x86_64", Some(false));
    assert_eq!(last(&r).0, Level::Error);
    check_platform(&mut r, "linux", "aarch64", None);
    assert_eq!(last(&r).2, "aarch64 does not require the x86 AVX2 check");
}

fn module(path: &str, owner_mode: Option<(u32, u32)>) -> PamModuleFile {
    PamModuleFile {
        path: path.to_string(),
        owner_mode,
    }
}

fn stack(path: &str, contents: Option<&str>) -> PamStackFile {
    PamStackFile {
        path: path.to_string(),
        contents: contents.map(|c| c.to_string()),
    }
}

#[test]
fn pam_findings() {
    let mut r = Report::default();
    let modules = vec![
        module("/usr/lib/security/pam_gaze.so", Some((0, 0o644))),
        module("/usr/lib/security/pam_gaze_grosshack.so", Some((0, 0o666))),
    ];
    let files = vec![
        stack(
            "/etc/pam.d/sudo",
            Some("auth required pam_unix.so\nauth sufficient pam_gaze.so\n"),
        ),
        stack("/etc/pam.d/login", Some("auth required pam_unix.so\n")),
        stack("/etc/pam.d/gdm-password", Some("auth sufficient pam_gaze.so\n")),
        stack("/etc/pam.d/unreadable", None),
    ];
    check_pam(&mut r, &modules, &files);
    assert_eq!(r.checks[0].message, "both modules are installed");
    assert_eq!(r.checks[1].level, Level::Error);
    assert_eq!(
        r.checks[1].message,
        "unsafe ownership or write permissions: /usr/lib/security/pam_gaze_grosshack.so"
    );
    assert_eq!(r.checks[2].message, "Gaze is referenced by: sudo, gdm-password");
    assert_eq!(r.checks.len(), 4);
    assert_eq!(
        r.checks[3].message,
        "pam_gaze.so/pam_gaze_grosshack.so runs after pam_unix.so in /etc/pam.d/sudo, so face auth won't be tried until those prompts resolve"
    );

    let mut r = Report::default();
    check_pam(&mut r, &vec![], &vec![]);
    assert_eq!(r.checks.len(), 2);
    assert_eq!(r.checks[0].level, Level::Error);
    assert_eq!(r.checks[1].message, "no active /etc/pam.d file references a Gaze module");

    let mut r = Report::default();
    check_pam(&mut r, &vec![module("/lib/security/pam_gaze.so", None)], &vec![]);
    assert_eq!(r.checks[0].message, "pam_gaze_grosshack.so is missing");
    assert_eq!(
        r.checks[1].message,
        "installed modules are root-owned and not writable by group or others"
    );
}

#[test]
fn desktop_findings() {
    let d = desktop_name("GNOME", "", "Ubuntu");
    assert_eq!(d, "gnome::ubuntu");
    assert!(desktop_is_gnome(&d));
    assert!(!desktop_is_hyprland(&d));

    let mut r = Report::default();
    check_gnome_integration(
        &mut r,
        &Ok((true, "other@x\n  gaze@gundulabs.com  \n".to_string())),
        &Ok((true, "true".to_string())),
    );
    assert_eq!(r.checks[0].level, Level::Pass);
    assert_eq!(r.checks[1].level, Level::Pass);

    let mut r = Report::default();
    check_gnome_integration(
        &mut r,
        &Ok((true, "other@x".to_string())),
        &Ok((true, "false".to_string())),
    );
    assert_eq!(
        r.checks[0].fix.as_deref(),
        Some("Run `gnome-extensions enable gaze@gundulabs.com` after logging into GNOME again.")
    );
    assert_eq!(r.checks[1].message, "disabled for the current user");

    let mut r = Report::default();
    check_gnome_integration(&mut r, &Err("not found".to_string()), &Ok((false, "no schema".to_string())));
    assert_eq!(r.checks[0].message, "could not query extensions: not found");
    assert_eq!(r.checks[1].message, "could not read the extension setting: no schema");

    let mut r = Report::default();
    check_hyprlock(&mut r, Some("general {\n  pam_module = hyprlock-gaze\n}\n"));
    assert_eq!(last(&r).0, Level::Pass);
    check_hyprlock(&mut r, Some("# pam_module = hyprlock-gaze\n"));
    assert_eq!(last(&r).0, Level::Warning);
    check_hyprlock(&mut r, None);
    assert_eq!(last(&r).0, Level::Warning);

    assert_eq!(
        hyprlock_config_path(Some("/cfg"), Some("/home/a")).as_deref(),
        Some("/cfg/hypr/hyprlock.conf")
    );
    assert_eq!(
        hyprlock_config_path(None, Some("/home/a/")).as_deref(),
        Some("/home/a/.config/hypr/hyprlock.conf")
    );
    assert_eq!(hyprlock_config_path(None, None), None);
}

#[test]
fn daemon_findings() {
    let mut r = Report::default();
    assert!(check_daemon_connection(&mut r, &DaemonReply::Answered(())));
    assert!(!check_daemon_connection(&mut r, &DaemonReply::TimedOut));
    assert_eq!(last(&r).2, "timed out waiting for com.gundulabs.Gaze");

    let mut r = Report::default();
    let got = check_daemon_config(&mut r, DaemonReply::Answered(Config::default()), false, false, "0", "0.8");
    assert!(got.is_some());
    let names: Vec<&str> = r.checks.iter().map(|c| c.name).collect();
    assert_eq!(names, vec!["Daemon", "Config values", "TPM"]);

    let mut r = Report::default();
    let got = check_daemon_config(
        &mut r,
        DaemonReply::Failed("org.freedesktop.DBus.Error.ServiceUnknown: not activatable".to_string()),
        true,
        false,
        "",
        "",
    );
    assert!(got.is_none());
    assert_eq!(last(&r).2, "gazed is still starting up (models may be downloading)");
    check_daemon_config(&mut r, DaemonReply::Failed("x.Y: broken".to_string()), true, false, "", "");
    assert_eq!(last(&r).2, "gazed did not return its configuration: broken");

    let mut r = Report::default();
    check_camera_session(&mut r, &DaemonReply::Answered(false));
    assert_eq!(last(&r).0, Level::Error);
    check_camera_session(&mut r, &DaemonReply::Failed("a: b".to_string()));
    assert_eq!(last(&r).2, "availability check failed: b");
}

#[test]
fn enrollment_findings() {
    let mut config = Config::default();
    config.cameras.ir = "/dev/video2".to_string();
    let faces = vec![
        ("default".to_string(), 3u32, true, true),
        ("glasses".to_string(), 1u32, true, false),
    ];
    let mut r = Report::default();
    check_enrollment(&mut r, "alice", &DaemonReply::Answered(faces.clone()), Some(&config));
    assert_eq!(r.checks[0].message, "2 face profile(s) enrolled for alice");
    assert_eq!(r.checks[1].message, "one or more profiles have no IR captures");

    let mut r = Report::default();
    check_enrollment(&mut r, "alice", &DaemonReply::Answered(faces), None);
    assert_eq!(r.checks.len(), 1);

    let mut r = Report::default();
    check_enrollment(&mut r, "bob", &DaemonReply::Answered(vec![]), None);
    assert_eq!(last(&r).2, "no faces are enrolled for bob");
    check_enrollment(&mut r, "bob", &DaemonReply::Failed("g.FileNotFound: none".to_string()), None);
    assert_eq!(last(&r).0, Level::Warning);
    check_enrollment(&mut r, "bob", &DaemonReply::Failed("g.Err: down".to_string()), None);
    assert_eq!(last(&r).2, "could not list faces for bob: down");
    check_enrollment(&mut r, "bob", &DaemonReply::TimedOut, None);
    assert_eq!(last(&r).2, "timed out while checking faces for bob");
}

#[test]
fn benchmark_findings() {
    let mut r = Report::default();
    check_benchmark(
        &mut r,
        &DaemonReply::Answered(vec!["detector: 5.0ms".to_string(), "recognizer: 9.1ms".to_string()]),
    );
    assert_eq!(r.checks.len(), 2);
    assert_eq!(r.checks[1].message, "recognizer: 9.1ms");
    check_benchmark(&mut r, &DaemonReply::TimedOut);
    assert_eq!(last(&r).2, "benchmark timed out");
}

#[test]
fn camera_findings() {
    let mut config = Config::default();
    config.cameras.ir = " pipewiresrc target-object=ir ".to_string();
    let plan = camera_plan(Some(&config));
    assert_eq!(plan.rgb.as_deref(), Some("primary"));
    assert!(matches!(plan.ir, Some(IrCheck::PipeWire(ref s)) if s == "pipewiresrc target-object=ir"));
    assert!(camera_plan(None).rgb.is_none());
    config.cameras.ir = "/dev/video2".to_string();
    assert!(matches!(camera_plan(Some(&config)).ir, Some(IrCheck::Device(_))));
    config.cameras.ir = "videotestsrc".to_string();
    assert!(matches!(camera_plan(Some(&config)).ir, Some(IrCheck::Custom)));

    let cams = vec![
        ("Primary Camera".to_string(), "primary".to_string()),
        ("Front".to_string(), "pipewiresrc target-object=front".to_string()),
    ];
    let mut r = Report::default();
    check_rgb_camera(&mut r, "primary", &Ok(cams.clone()));
    assert_eq!(last(&r).2, "1 color camera(s) visible through PipeWire");
    check_rgb_camera(&mut r, "pipewiresrc target-object=back", &Ok(cams.clone()));
    assert_eq!(last(&r).2, "configured source is not visible: pipewiresrc target-object=back");
    let n = r.checks.len();
    check_rgb_camera(&mut r, "/dev/video0", &Ok(cams.clone()));
    assert_eq!(r.checks.len(), n);
    check_rgb_camera(&mut r, "videotestsrc", &Ok(cams.clone()));
    assert_eq!(last(&r).0, Level::Warning);
    check_rgb_camera(&mut r, "primary", &Err("no plugin".to_string()));
    assert_eq!(last(&r).2, "GStreamer camera enumeration failed: no plugin");

    check_ir_device(&mut r, "/dev/video2", &Ok(true));
    assert_eq!(last(&r).2, "/dev/video2 is a character device");
    check_ir_device(&mut r, "/dev/video2", &Err("No such file".to_string()));
    assert_eq!(last(&r).2, "cannot access /dev/video2: No such file");
    check_ir_pipewire(&mut r, "pipewiresrc target-object=front", &Ok(cams));
    assert_eq!(last(&r).0, Level::Pass);
    check_ir_custom(&mut r);
    assert_eq!(last(&r).1, "IR camera");
}
