use gaze::devices::{CameraBus, IrQuery};
use gaze::led::{IrProfile, ProbeCache, ProbePlan, RuntimeControl, SequenceRun};

fn profile(name: &str) -> IrProfile {
    IrProfile {
        name: name.to_string(),
        on_sequence: vec![RuntimeControl { unit: 3, selector: 6, query: IrQuery::SetCur, payload: vec![1, 3, 2, 0, 0, 0, 0, 0, 0] }],
        off_sequence: vec![RuntimeControl { unit: 3, selector: 6, query: IrQuery::SetCur, payload: vec![1, 3, 1, 0, 0, 0, 0, 0, 0] }],
        source: "test".to_string(),
    }
}

#[test]
fn ipu6_cameras_are_never_probed() {
    let mut cache = ProbeCache::new();
    assert_eq!(cache.plan("/dev/video0", CameraBus::Ipu6), ProbePlan::Skip);
    assert!(matches!(cache.get("/dev/video0"), Some(None)));
    assert_eq!(cache.plan("/dev/video0", CameraBus::Uvc), ProbePlan::Cached);
}

#[test]
fn a_probe_outcome_is_kept_but_a_failed_probe_is_retried() {
    let mut cache = ProbeCache::new();
    assert_eq!(cache.plan("/dev/video2", CameraBus::Uvc), ProbePlan::Probe);
    cache.record("/dev/video2", Err("busy".to_string()));
    assert!(cache.get("/dev/video2").is_none());
    assert_eq!(cache.plan("/dev/video2", CameraBus::Uvc), ProbePlan::Probe);
    cache.record("/dev/video2", Ok(Some(profile("probed"))));
    assert_eq!(cache.plan("/dev/video2", CameraBus::Uvc), ProbePlan::Cached);
    match cache.get("/dev/video2") {
        Some(Some(p)) => assert_eq!(p.name, "probed"),
        _ => panic!("expected the probed profile"),
    }
}

#[test]
fn a_control_sequence_stops_at_the_first_failure() {
    let mut run = SequenceRun::new(3);
    assert_eq!(run.next_step(), Some(0));
    run.report(Ok(()));
    assert_eq!(run.next_step(), Some(1));
    run.report(Err("ioctl failed".to_string()));
    assert_eq!(run.next_step(), None);
    assert_eq!(run.outcome(), Err("ioctl failed".to_string()));

    let mut all = SequenceRun::new(2);
    while let Some(_) = all.next_step() {
        all.report(Ok(()));
    }
    assert_eq!(all.issued, 2);
    assert_eq!(all.outcome(), Ok(()));
}
