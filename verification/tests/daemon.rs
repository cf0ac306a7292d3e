use gaze::camera::CameraKind;
use gaze::daemon::{
    auth_abort_reason, auth_streams, claim_has_epoch, comm_is_sshd, emitter_target,
    encryption_change, env_marks_ssh, environ_has_ssh_marker, hybrid_auth_passed,
    lid_state_is_closed, may_query_extension, needs_authorization, parse_stat_ppid,
    pipewire_socket_path, process_chain_is_ssh, resolve_camera_uid, runtime_dir, upower_lid_closed, user_query_allowed,
    AbortReason, ClaimError, ClaimOutcome, ClaimRegistry, ClaimState, EncryptionChange,
    SshChainWalk, WalkStep,
};
use gaze::status::CaptureStatus;

/// A process table for walking: pid, parent pid, name and environment.
fn chain_is_ssh(procs: &[(u32, u32, &str, &[u8])], pid: u32) -> bool {
    let mut walk = SshChainWalk::new(pid);
    loop {
        let entry = procs.iter().find(|p| p.0 == walk.current);
        let step = match entry {
            Some(&(p, ppid, comm, environ)) => {
                let stat = format!("{p} ({comm}) S {ppid} 1 1 0 -1 0\n");
                let comm_text = format!("{comm}\n");
                walk.observe_files(Some(environ), Some(&comm_text), Some(&stat))
            }
            None => walk.observe_files(None, None, None),
        };
        match step {
            WalkStep::Ssh => return true,
            WalkStep::Local => return false,
            WalkStep::Next(_) => {}
        }
    }
}

#[test]
fn stale_claim_epoch_does_not_match_reclaimed_state() {
    let state = Some(ClaimState {
        username: "alice".to_string(),
        sender: ":1.42".to_string(),
        epoch: 2,
    });

    assert!(!claim_has_epoch(&state, 1));
    assert!(claim_has_epoch(&state, 2));
}

#[test]
fn emitter_guard_is_inert_for_rgb_and_when_disabled() {
    assert!(emitter_target(
        &CameraKind::Rgb {
            source: "primary".to_string()
        },
        true
    )
    .is_none());
    assert!(emitter_target(
        &CameraKind::Ir {
            source: "primary".to_string(),
            node: "/dev/null".to_string()
        },
        false
    )
    .is_none());
    assert_eq!(
        emitter_target(
            &CameraKind::Ir {
                source: "/dev/video2".to_string(),
                node: "/dev/video2".to_string()
            },
            true
        ),
        Some("/dev/video2")
    );
}

#[test]
fn ssh_marker_detection_requires_non_empty_values() {
    assert!(environ_has_ssh_marker(
        b"PATH=/usr/bin\0SSH_CONNECTION=1.2.3.4 1 5.6.7.8 22\0"
    ));
    assert!(environ_has_ssh_marker(b"SSH_TTY=/dev/pts/3\0USER=alice\0"));
    assert!(!environ_has_ssh_marker(b"SSH_CONNECTION=\0SSH_TTY=\0"));
    assert!(!environ_has_ssh_marker(b"USER=alice\0"));
}

#[test]
fn lid_state_detection_is_case_insensitive() {
    assert!(lid_state_is_closed("state:      closed\n"));
    assert!(lid_state_is_closed("State: CLOSED\n"));
    assert!(!lid_state_is_closed("state:      open\n"));
}

#[test]
fn upower_lid_closed_requires_present_and_closed() {
    assert!(upower_lid_closed(true, true));
    assert!(!upower_lid_closed(true, false));
    assert!(!upower_lid_closed(false, true));
    assert!(!upower_lid_closed(false, false));
}

#[test]
fn read_ppid_parses_stat_with_parenthesised_comm() {
    assert_eq!(parse_stat_ppid("42 (weird (name)) S 7 1 1 0 -1 0\n"), Some(7));
    let mut walk = SshChainWalk::new(999);
    assert_eq!(walk.observe_files(None, None, None), WalkStep::Local);
}

#[test]
fn ssh_detected_via_ancestor_environ_marker() {
    let procs: [(u32, u32, &str, &[u8]); 3] = [
        (1000, 900, "sshd", b"SSH_CONNECTION=1.2.3.4 5 6.7.8.9 22\0"),
        (1001, 1000, "sudo", b"USER=alice\0"),
        (1002, 1001, "unix_chkpwd", b"USER=alice\0"),
    ];
    assert!(chain_is_ssh(&procs, 1002));
}

#[test]
fn ssh_detected_via_ancestor_comm_when_environ_is_bare() {
    let procs: [(u32, u32, &str, &[u8]); 3] = [
        (2000, 1, "sshd-session", b"PATH=/usr/bin\0"),
        (2001, 2000, "bash", b"PATH=/usr/bin\0"),
        (2002, 2001, "sudo", b"PATH=/usr/bin\0"),
    ];
    assert!(chain_is_ssh(&procs, 2002));
}

#[test]
fn local_session_chain_is_not_flagged_as_ssh() {
    let procs: [(u32, u32, &str, &[u8]); 3] = [
        (3000, 1, "systemd", b"PATH=/usr/bin\0"),
        (3001, 3000, "gdm-session-wor", b"PATH=/usr/bin\0"),
        (3002, 3001, "sudo", b"USER=alice\0"),
    ];
    assert!(!chain_is_ssh(&procs, 3002));
}

#[test]
fn process_chain_walk_terminates_on_self_referential_ppid() {
    let procs: [(u32, u32, &str, &[u8]); 1] = [(4000, 4000, "bash", b"USER=alice\0")];
    assert!(!chain_is_ssh(&procs, 4000));
}

#[test]
fn camera_uses_target_own_session_when_logged_in() {
    let attacker_active = Some((1000, false, true));
    assert_eq!(
        resolve_camera_uid(0, 1001, true, false, attacker_active),
        Some(1001)
    );
}

#[test]
fn camera_refuses_bystander_session_for_root_caller() {
    let attacker_active = Some((1000, false, true));
    assert_eq!(resolve_camera_uid(0, 1001, false, false, attacker_active), None);
    assert_eq!(resolve_camera_uid(0, 1001, false, false, None), None);
}

#[test]
fn user_queries_allow_root_self_and_active_greeter_only() {
    assert!(user_query_allowed(0, 1000, None));
    assert!(user_query_allowed(1000, 1000, None));
    assert!(user_query_allowed(42, 1000, Some((42, true))));
    assert!(!user_query_allowed(42, 1000, Some((42, false))));
    assert!(!user_query_allowed(42, 1000, Some((1000, true))));
    assert!(!user_query_allowed(42, 1000, None));
}

#[test]
fn camera_allows_login_greeter_for_root_caller() {
    let greeter_active = Some((42, true, true));
    assert_eq!(resolve_camera_uid(0, 1001, false, false, greeter_active), Some(42));
    assert_eq!(
        resolve_camera_uid(0, 1001, false, false, Some((42, true, false))),
        None
    );
}

#[test]
fn camera_prefers_active_greeter_over_target_leftover_runtime() {
    let greeter_active = Some((42, true, true));
    assert_eq!(resolve_camera_uid(0, 1001, true, false, greeter_active), Some(42));
    assert_eq!(
        resolve_camera_uid(0, 1001, true, false, Some((42, true, false))),
        Some(1001)
    );
}

#[test]
fn camera_uses_caller_session_for_polkit_approved_caller() {
    assert_eq!(
        resolve_camera_uid(1000, 1001, false, true, Some((1000, false, true))),
        Some(1000)
    );
    assert_eq!(resolve_camera_uid(1000, 1001, false, false, None), None);
}

#[test]
fn extension_state_is_visible_only_to_root_or_the_target_user() {
    assert!(may_query_extension(0, 1000));
    assert!(may_query_extension(1000, 1000));
    assert!(!may_query_extension(1001, 1000));
}

#[test]
fn authentication_starts_only_streams_with_a_camera_and_matching_templates() {
    assert_eq!(auth_streams("primary", "/dev/video2", true, true), (true, true));
    assert_eq!(auth_streams("primary", "/dev/video2", true, false), (true, false));
    assert_eq!(auth_streams("primary", "/dev/video2", false, true), (false, true));
    assert_eq!(auth_streams("", "/dev/video2", true, true), (false, true));
    assert_eq!(auth_streams("primary", "", true, true), (true, false));
    assert_eq!(auth_streams("", "", true, true), (false, false));
}

#[test]
fn hybrid_or_and_policies_require_the_configured_successes() {
    for rgb_status in [CaptureStatus::Usable, CaptureStatus::TooDark] {
        assert!(hybrid_auth_passed("or", true, true, true, rgb_status, true, false));
        assert!(hybrid_auth_passed("or", true, true, true, rgb_status, false, true));
        assert!(!hybrid_auth_passed("and", true, true, true, rgb_status, true, false));
        assert!(hybrid_auth_passed("and", true, true, true, rgb_status, true, true));
    }
}

#[test]
fn hybrid_fallback_uses_ir_only_after_rgb_is_unavailable() {
    assert!(!hybrid_auth_passed(
        "fallback",
        true,
        true,
        false,
        CaptureStatus::Unused,
        false,
        true
    ));
    assert!(hybrid_auth_passed(
        "fallback",
        true,
        true,
        true,
        CaptureStatus::TooDark,
        false,
        true
    ));
    assert!(hybrid_auth_passed(
        "fallback",
        true,
        true,
        true,
        CaptureStatus::NoFace,
        false,
        true
    ));
    assert!(!hybrid_auth_passed(
        "fallback",
        true,
        true,
        true,
        CaptureStatus::Usable,
        false,
        true
    ));
}

#[test]
fn single_spectrum_authentication_ignores_the_other_result() {
    assert!(hybrid_auth_passed(
        "and",
        true,
        false,
        true,
        CaptureStatus::Usable,
        true,
        false
    ));
    assert!(hybrid_auth_passed(
        "and",
        false,
        true,
        false,
        CaptureStatus::Unused,
        false,
        true
    ));
    assert!(!hybrid_auth_passed(
        "or",
        false,
        false,
        false,
        CaptureStatus::Unused,
        true,
        true
    ));
}

#[test]
fn claim_registry_admits_only_the_holder() {
    let mut reg = ClaimRegistry::new();
    assert_eq!(reg.check(":1.1").unwrap_err(), ClaimError::NotClaimed);
    assert_eq!(
        reg.claim("alice".to_string(), ":1.1".to_string(), 1000),
        Ok(ClaimOutcome::Claimed {
            epoch: 0,
            preempted: false
        })
    );
    assert_eq!(
        reg.claim("alice".to_string(), ":1.1".to_string(), 1000),
        Ok(ClaimOutcome::AlreadyHeld)
    );
    assert_eq!(
        reg.claim("bob".to_string(), ":1.2".to_string(), 1001),
        Err(ClaimError::AlreadyClaimed)
    );
    assert_eq!(reg.check(":1.1").unwrap().username, "alice");
    assert_eq!(reg.check(":1.2").unwrap_err(), ClaimError::ClaimedByOther);
    assert_eq!(reg.release(":1.2"), Err(ClaimError::NotOwner));
    assert_eq!(reg.release(":1.1"), Ok(()));
    assert_eq!(reg.release(":1.1"), Err(ClaimError::NotClaimed));
}

#[test]
fn root_preempts_and_old_timers_do_not_release_new_claims() {
    let mut reg = ClaimRegistry::new();
    reg.claim("alice".to_string(), ":1.1".to_string(), 1000).unwrap();
    assert_eq!(
        reg.claim("root".to_string(), ":1.9".to_string(), 0),
        Ok(ClaimOutcome::Claimed {
            epoch: 1,
            preempted: true
        })
    );
    assert!(!reg.expire(0));
    assert_eq!(reg.check(":1.9").unwrap().epoch, 1);
    assert!(!reg.sender_vanished(":1.1"));
    assert!(reg.sender_vanished(":1.9"));
    assert!(reg.state.is_none());
    reg.claim("alice".to_string(), ":1.1".to_string(), 1000).unwrap();
    assert!(reg.expire(2));
    assert!(reg.state.is_none());
}

#[test]
fn claim_error_messages() {
    assert_eq!(
        ClaimError::AlreadyClaimed.message(),
        "Device already claimed by another interface"
    );
    assert_eq!(ClaimError::NotClaimed.message(), "Daemon not claimed");
}

#[test]
fn abort_reasons_check_ssh_before_the_lid() {
    assert_eq!(auth_abort_reason(true, true, true, true), Some(AbortReason::Ssh));
    assert_eq!(
        auth_abort_reason(false, true, true, true),
        Some(AbortReason::LidClosed)
    );
    assert_eq!(auth_abort_reason(true, false, false, true), None);
    assert_eq!(AbortReason::LidClosed.message(), "lid closed");
}

#[test]
fn encryption_changes_only_when_the_setting_differs() {
    assert_eq!(encryption_change(true, true), EncryptionChange::Keep);
    assert_eq!(encryption_change(true, false), EncryptionChange::Enable);
    assert_eq!(encryption_change(false, true), EncryptionChange::Disable);
}

#[test]
fn runtime_paths_use_the_uid() {
    assert_eq!(runtime_dir(1000), "/run/user/1000");
    assert_eq!(pipewire_socket_path(0), "/run/user/0/pipewire-0");
}

#[test]
fn authorization_is_needed_for_other_users() {
    assert!(!needs_authorization(0, 1000));
    assert!(!needs_authorization(1000, 1000));
    assert!(needs_authorization(1001, 1000));
}

#[test]
fn ssh_markers_from_the_environment() {
    assert!(env_marks_ssh(Some("1.2.3.4 1 5.6.7.8 22"), None));
    assert!(!env_marks_ssh(Some(""), Some("")));
    assert!(!env_marks_ssh(None, None));
    assert!(comm_is_sshd(" sshd\n"));
    assert!(!comm_is_sshd("sshd2"));
}

#[test]
fn walk_stops_after_the_depth_limit() {
    let mut procs: Vec<(u32, u32, &str, &[u8])> = Vec::new();
    for pid in 1..=40u32 {
        procs.push((pid + 100, pid + 99, "bash", b"USER=alice\0"));
    }
    procs.push((100, 1, "sshd", b"USER=alice\0"));
    assert!(!chain_is_ssh(&procs, 140));
    assert!(chain_is_ssh(&procs, 110));
}

#[test]
fn process_table_walk_matches_the_chain() {
    // (pid, marks SSH, parent)
    let table = [(1000, true, Some(900)), (1001, false, Some(1000)), (1002, false, Some(1001))];
    assert!(process_chain_is_ssh(1002, &table));
    assert!(!process_chain_is_ssh(4000, &[(4000, false, Some(4000))]));
    assert!(!process_chain_is_ssh(5, &[]));
    // the marker lies beyond the sixteen processes a walk inspects
    let mut deep: Vec<(u32, bool, Option<u32>)> = (1..=20).map(|p| (p, false, Some(p + 1))).collect();
    deep.push((21, true, None));
    assert!(!process_chain_is_ssh(1, &deep));
    assert!(process_chain_is_ssh(6, &deep));
}
