use gaze::daemon::{
    enroll_prompt, enroll_saved_signal, enroll_unavailable_signal, verify_can_start, EnrollEvent,
    EnrollFinish, EnrollSession, Spectrum, VerifyEvent, VerifyFinish, VerifySession,
};
use gaze::session::{
    capture_prompt_at, CaptureHint, CaptureMode, CapturePrompt, CaptureSession, CaptureState,
    FrameCheck, CAPTURE_STEPS,
};
use gaze::status::{CaptureStatus, EnrollPrompt, VerifyResult};

#[test]
fn capture_session_counts_down_then_captures_each_pose() {
    let mut s: CaptureSession<u32> = CaptureSession::new().with_countdown(100);
    assert!(s.require_centering());
    // Before starting, the session only reports readiness.
    assert_eq!(
        s.process_frame(FrameCheck::Ready(0), 0),
        CaptureState::Prompting {
            prompt: CapturePrompt::ReadyToStart,
            hint: CaptureHint::CenteredReady,
            step: 0,
            total_steps: 0
        }
    );
    s.start();
    assert!(s.is_active());
    assert_eq!(
        s.process_frame(FrameCheck::Ready(1), 1_000),
        CaptureState::Countdown {
            prompt: CapturePrompt::LookStraight,
            remaining_ns: 100,
            step: 1,
            total_steps: CAPTURE_STEPS
        }
    );
    assert_eq!(
        s.process_frame(FrameCheck::Ready(2), 1_040),
        CaptureState::Countdown {
            prompt: CapturePrompt::LookStraight,
            remaining_ns: 60,
            step: 1,
            total_steps: CAPTURE_STEPS
        }
    );
    // Losing the face restarts the countdown.
    assert_eq!(
        s.process_frame(FrameCheck::NotCentered, 1_050),
        CaptureState::Prompting {
            prompt: CapturePrompt::LookStraight,
            hint: CaptureHint::NotCentered,
            step: 1,
            total_steps: CAPTURE_STEPS
        }
    );
    s.process_frame(FrameCheck::Ready(3), 2_000);
    assert_eq!(
        s.process_frame(FrameCheck::Ready(4), 2_100),
        CaptureState::Captured {
            prompt: CapturePrompt::LookStraight
        }
    );
    for (i, t) in [(1usize, 3_000u64), (2, 4_000), (3, 5_000)] {
        s.process_frame(FrameCheck::Ready(10), t);
        let r = s.process_frame(FrameCheck::Ready(10 + i as u32), t + 100);
        assert_eq!(r, CaptureState::Captured { prompt: capture_prompt_at(i) });
    }
    assert!(s.is_complete());
    assert_eq!(s.process_frame(FrameCheck::NoFace, 9_000), CaptureState::Complete);
    assert_eq!(s.take_captures(), vec![4, 11, 12, 13]);
    assert!(s.take_captures().is_empty());
}

#[test]
fn capture_session_modes_and_messages() {
    let s: CaptureSession<()> = CaptureSession::new().with_mode(CaptureMode::Refine);
    assert!(!s.is_active());
    assert_eq!(CapturePrompt::TurnLeft.message(), "Turn your head slightly LEFT");
    assert_eq!(CaptureHint::FaceClipped.message(), "Face is clipped...");
    let mut s: CaptureSession<()> = CaptureSession::new();
    s.start();
    s.advance_step();
    assert_eq!(
        s.process_frame(FrameCheck::Clipped, 0),
        CaptureState::Prompting {
            prompt: CapturePrompt::TurnLeft,
            hint: CaptureHint::FaceClipped,
            step: 2,
            total_steps: CAPTURE_STEPS
        }
    );
    s.stop();
    assert!(!s.is_active());
}

#[test]
fn verify_session_matches_under_the_policy() {
    assert!(!verify_can_start(false, false));
    let mut v = VerifySession::new(true, true, "and".to_string(), 40);
    let a = v.handle(VerifyEvent::Status {
        spectrum: Spectrum::Rgb,
        status: CaptureStatus::Usable,
        has_face: true,
        now_ms: 0,
    });
    assert_eq!(a.face_status, Some(CaptureStatus::Usable));
    assert_eq!(a.finish, None);
    assert_eq!(v.handle(VerifyEvent::Success { spectrum: Spectrum::Rgb }).finish, None);
    assert_eq!(
        v.handle(VerifyEvent::Success { spectrum: Spectrum::Ir }).finish,
        Some(VerifyFinish::Verdict {
            result: VerifyResult::VerifyMatch,
            with_scores: true
        })
    );
}

#[test]
fn verify_session_gives_up_in_the_dark_and_after_max_frames() {
    let mut v = VerifySession::new(true, false, "or".to_string(), 40);
    let dark = |now_ms| VerifyEvent::Status {
        spectrum: Spectrum::Rgb,
        status: CaptureStatus::TooDark,
        has_face: false,
        now_ms,
    };
    assert_eq!(v.handle(dark(100)).finish, None);
    assert_eq!(v.handle(dark(600)).finish, None);
    assert_eq!(
        v.handle(dark(1_100)).finish,
        Some(VerifyFinish::Verdict {
            result: VerifyResult::VerifyNoMatch,
            with_scores: false
        })
    );

    let mut v = VerifySession::new(false, true, "or".to_string(), 2);
    let face = VerifyEvent::Status {
        spectrum: Spectrum::Ir,
        status: CaptureStatus::Usable,
        has_face: true,
        now_ms: 0,
    };
    assert_eq!(v.handle(face).finish, None);
    assert_eq!(
        v.handle(face).finish,
        Some(VerifyFinish::Verdict {
            result: VerifyResult::VerifyNoMatch,
            with_scores: true
        })
    );

    let mut v = VerifySession::new(true, true, "or".to_string(), 5);
    assert_eq!(v.handle(VerifyEvent::Closed).finish, Some(VerifyFinish::Stop));
    let mut v = VerifySession::new(true, true, "or".to_string(), 5);
    assert_eq!(
        v.handle(VerifyEvent::Cancelled).finish,
        Some(VerifyFinish::Verdict {
            result: VerifyResult::VerifyNoMatch,
            with_scores: false
        })
    );
}

#[test]
fn enroll_session_walks_the_poses() {
    assert_eq!(enroll_prompt(0), EnrollPrompt::LookStraight);
    assert_eq!(enroll_prompt(4), EnrollPrompt::LookRight);
    assert_eq!(enroll_unavailable_signal().prompt, EnrollPrompt::Cancelled);
    assert_eq!(enroll_saved_signal(true).prompt, EnrollPrompt::Completed);
    assert_eq!(enroll_saved_signal(false).prompt, EnrollPrompt::DbFailed);

    let mut e = EnrollSession::new(true, true);
    let p = e.next_prompt().expect("first prompt");
    assert_eq!((p.progress, p.prompt), (0, EnrollPrompt::LookStraight));
    assert!(e.next_prompt().is_none());
    for step in 0..5u32 {
        let a = e.handle(EnrollEvent::Captured { step, spectrum: Spectrum::Rgb });
        assert!(a.step_complete.is_none());
        // A capture for another step is ignored.
        let stale = e.handle(EnrollEvent::Captured { step: step + 7, spectrum: Spectrum::Ir });
        assert!(stale.step_complete.is_none());
        let a = e.handle(EnrollEvent::Captured { step, spectrum: Spectrum::Ir });
        let done = a.step_complete.expect("step done");
        assert_eq!(done.progress, step + 1);
        assert_eq!(done.prompt, EnrollPrompt::Captured);
        if step < 4 {
            assert!(a.finish.is_none());
            assert!(e.next_prompt().is_some());
        } else {
            assert_eq!(a.finish, Some(EnrollFinish::Save));
        }
    }
}

#[test]
fn enroll_session_reports_status_and_cancellation() {
    let mut e = EnrollSession::new(true, false);
    let a = e.handle(EnrollEvent::Status {
        step: 0,
        spectrum: Spectrum::Rgb,
        status: CaptureStatus::TooDark,
    });
    assert_eq!(a.face_status, Some(CaptureStatus::TooDark));
    let a = e.handle(EnrollEvent::Status {
        step: 0,
        spectrum: Spectrum::Rgb,
        status: CaptureStatus::TooDark,
    });
    assert_eq!(a.face_status, None);
    let a = e.handle(EnrollEvent::Cancelled);
    match a.finish {
        Some(EnrollFinish::Abort(sig)) => {
            assert_eq!(sig.prompt, EnrollPrompt::Cancelled);
            assert_eq!(sig.time_remaining, -1);
        }
        _ => panic!("cancellation aborts"),
    }
}

#[test]
fn an_ir_match_alone_does_not_pass_the_and_policy() {
    let mut v = VerifySession::new(true, true, "and".to_string(), 10);
    assert_eq!(v.handle(VerifyEvent::Success { spectrum: Spectrum::Ir }).finish, None);
    assert!(v.ir_success);
    assert!(!v.rgb_success);
    assert!(!v.rgb_attempted);
    assert_eq!(v.rgb_status, CaptureStatus::Unused);
    assert_eq!(
        v.handle(VerifyEvent::Success { spectrum: Spectrum::Rgb }).finish,
        Some(VerifyFinish::Verdict { result: VerifyResult::VerifyMatch, with_scores: true })
    );
}

#[test]
fn a_captured_pose_shows_no_face_for_that_stream() {
    let mut e = EnrollSession::new(true, true);
    e.handle(EnrollEvent::Status { step: 0, spectrum: Spectrum::Rgb, status: CaptureStatus::Ready });
    let a = e.handle(EnrollEvent::Captured { step: 0, spectrum: Spectrum::Rgb });
    assert_eq!(a.face_status, Some(CaptureStatus::NoFace));
    assert_eq!(a.step_complete, None);
    assert!(e.has_rgb_for_step && !e.has_ir_for_step);
    assert_eq!(e.last_emitted, Some(CaptureStatus::NoFace));
}
