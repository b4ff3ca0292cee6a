use audio_capture::backend::{CaptureBackend, SilentBackend};
use audio_capture::error::CaptureError;
use audio_capture::session::{CaptureSession, Status};

fn fresh() -> CaptureSession<SilentBackend> {
    CaptureSession::new()
}

#[test]
fn new_session_is_idle_and_empty() {
    let s = fresh();
    assert_eq!(s.status(), Status::Idle);
    assert_eq!(s.deadline(), None);
    assert_eq!(s.started_at(), 0);
    assert_eq!(s.max_duration(), 0);
}

#[test]
fn start_stop_cycle_with_second_start_refused() {
    let mut s = fresh();
    assert_eq!(s.start(5, 100), Ok(()));
    assert_eq!(s.start(5, 100), Err(CaptureError::AlreadyCapturing));
    let location = s.stop().unwrap();
    assert!(!location.is_empty());
    assert_eq!(location, "silence");
    assert_eq!(s.stop(), Err(CaptureError::NotCapturing));
}

#[test]
fn zero_duration_is_refused_and_leaves_no_residue() {
    let mut s = fresh();
    assert_eq!(s.start(0, 100), Err(CaptureError::InvalidDuration));
    assert_eq!(s.status(), Status::Idle);
    assert_eq!(s.deadline(), None);
    assert_eq!(s.start(5, 100), Ok(()));
    assert_eq!(s.status(), Status::Capturing);
}

#[test]
fn second_start_changes_nothing() {
    let mut s = fresh();
    assert_eq!(s.start(5, 100), Ok(()));
    let before = (s.status(), s.started_at(), s.max_duration(), s.deadline());
    assert_eq!(s.start(9, 103), Err(CaptureError::AlreadyCapturing));
    assert_eq!(s.start(0, 104), Err(CaptureError::AlreadyCapturing));
    assert_eq!((s.status(), s.started_at(), s.max_duration(), s.deadline()), before);
    assert_eq!(before, (Status::Capturing, 100, 5, Some(105)));
    let held = s.begin_stop().unwrap();
    assert_eq!(held.max_duration_secs(), 5);
}

#[test]
fn stop_on_a_session_never_started() {
    let mut s = fresh();
    assert_eq!(s.stop(), Err(CaptureError::NotCapturing));
    assert_eq!(s.status(), Status::Idle);
    assert!(matches!(s.begin_stop(), Err(CaptureError::NotCapturing)));
    assert_eq!(s.status(), Status::Idle);
}

#[test]
fn start_records_time_bound_and_deadline() {
    let mut s = fresh();
    assert_eq!(s.start(30, 1_000), Ok(()));
    assert_eq!(s.status(), Status::Capturing);
    assert_eq!(s.started_at(), 1_000);
    assert_eq!(s.max_duration(), 30);
    assert_eq!(s.deadline(), Some(1_030));
}

#[test]
fn deadline_stops_at_the_end_of_the_clock() {
    let mut s = fresh();
    assert_eq!(s.start(u32::MAX, u64::MAX - 1), Ok(()));
    assert_eq!(s.deadline(), Some(u64::MAX));
    assert!(!s.watchdog_due(u64::MAX - 1));
    assert!(s.watchdog_due(u64::MAX));
}

#[test]
fn watchdog_is_due_from_the_deadline_on() {
    let mut s = fresh();
    assert!(!s.watchdog_due(0));
    assert_eq!(s.start(5, 100), Ok(()));
    assert!(!s.watchdog_due(0));
    assert!(!s.watchdog_due(100));
    assert!(!s.watchdog_due(104));
    assert!(s.watchdog_due(105));
    assert!(s.watchdog_due(1_000));
}

#[test]
fn watchdog_forces_the_stop_when_nobody_stops() {
    let mut s = fresh();
    assert_eq!(s.start(5, 100), Ok(()));
    assert_eq!(s.enforce_deadline(104), None);
    assert_eq!(s.status(), Status::Capturing);
    assert_eq!(s.deadline(), Some(105));
    assert_eq!(s.enforce_deadline(105), Some(Ok("silence".to_string())));
    assert_eq!(s.status(), Status::Idle);
    assert_eq!(s.deadline(), None);
}

#[test]
fn forced_stop_is_final() {
    let mut s = fresh();
    assert_eq!(s.start(5, 100), Ok(()));
    assert!(s.enforce_deadline(200).is_some());
    assert_eq!(s.stop(), Err(CaptureError::NotCapturing));
    assert_eq!(s.enforce_deadline(300), None);
}

#[test]
fn watchdog_does_nothing_on_an_idle_session() {
    let mut s = fresh();
    assert_eq!(s.enforce_deadline(u64::MAX), None);
    assert!(s.begin_forced_stop(u64::MAX).is_none());
    assert_eq!(s.status(), Status::Idle);
}

#[test]
fn stale_deadline_does_not_stop_a_later_capture() {
    let mut s = fresh();
    assert_eq!(s.start(5, 100), Ok(()));
    assert!(s.stop().is_ok());
    assert_eq!(s.start(60, 103), Ok(()));
    assert_eq!(s.enforce_deadline(105), None);
    assert_eq!(s.status(), Status::Capturing);
    assert_eq!(s.deadline(), Some(163));
}

#[test]
fn start_succeeds_again_after_a_stop_that_succeeded() {
    let mut s = fresh();
    assert_eq!(s.start(5, 100), Ok(()));
    assert!(s.stop().is_ok());
    assert_eq!(s.status(), Status::Idle);
    assert_eq!(s.started_at(), 0);
    assert_eq!(s.max_duration(), 0);
    assert_eq!(s.deadline(), None);
    assert_eq!(s.start(5, 100), Ok(()));
    assert_eq!(s.deadline(), Some(105));
}

#[test]
fn start_succeeds_again_after_a_stop_that_failed() {
    let mut s = fresh();
    assert_eq!(s.start(5, 100), Ok(()));
    let backend = s.begin_stop().unwrap();
    drop(backend);
    assert_eq!(
        s.finish_stop(Err("flush failed".to_string())),
        Err(CaptureError::BackendFailure("flush failed".to_string()))
    );
    assert_eq!(s.status(), Status::Idle);
    assert_eq!(s.deadline(), None);
    assert_eq!(s.start(5, 100), Ok(()));
    assert_eq!(s.status(), Status::Capturing);
}

#[test]
fn begin_stop_disarms_and_hands_out_the_backend() {
    let mut s = fresh();
    assert_eq!(s.start(7, 10), Ok(()));
    let backend = s.begin_stop().unwrap();
    assert_eq!(backend.max_duration_secs(), 7);
    assert_eq!(s.status(), Status::Stopping);
    assert_eq!(s.deadline(), None);
    assert_eq!(s.started_at(), 10);
    assert_eq!(s.max_duration(), 7);
    assert!(!s.watchdog_due(u64::MAX));
    assert_eq!(s.finish_stop(backend.finalize()), Ok("silence".to_string()));
    assert_eq!(s.status(), Status::Idle);
}

#[test]
fn stop_during_a_stop_is_refused() {
    let mut s = fresh();
    assert_eq!(s.start(5, 100), Ok(()));
    let _backend = s.begin_stop().unwrap();
    assert_eq!(s.stop(), Err(CaptureError::AlreadyStopping));
    assert!(matches!(s.begin_stop(), Err(CaptureError::AlreadyStopping)));
    assert_eq!(s.status(), Status::Stopping);
    assert_eq!(s.enforce_deadline(u64::MAX), None);
    assert_eq!(s.status(), Status::Stopping);
}

#[test]
fn start_during_a_stop_is_refused() {
    let mut s = fresh();
    assert_eq!(s.start(5, 100), Ok(()));
    let _backend = s.begin_stop().unwrap();
    assert_eq!(s.start(5, 101), Err(CaptureError::AlreadyCapturing));
    assert_eq!(s.check_start(5), Err(CaptureError::AlreadyCapturing));
    assert_eq!(s.status(), Status::Stopping);
}

#[test]
fn forced_stop_in_two_steps() {
    let mut s = fresh();
    assert_eq!(s.start(5, 100), Ok(()));
    assert!(s.begin_forced_stop(104).is_none());
    assert_eq!(s.status(), Status::Capturing);
    let backend = s.begin_forced_stop(105).unwrap();
    assert_eq!(backend.max_duration_secs(), 5);
    assert_eq!(s.status(), Status::Stopping);
    assert_eq!(s.finish_stop(Ok("clip-1".to_string())), Ok("clip-1".to_string()));
    assert_eq!(s.status(), Status::Idle);
}

#[test]
fn device_failure_on_start_rolls_back() {
    let mut s = fresh();
    assert_eq!(
        s.start_with(5, 100, Err("device busy".to_string())),
        Err(CaptureError::BackendFailure("device busy".to_string()))
    );
    assert_eq!(s.status(), Status::Idle);
    assert_eq!(s.deadline(), None);
    assert_eq!(s.started_at(), 0);
    assert_eq!(s.max_duration(), 0);
    assert_eq!(s.start(5, 100), Ok(()));
}

#[test]
fn start_with_an_opened_backend() {
    let mut s = fresh();
    assert_eq!(s.start_with(5, 100, SilentBackend::open(5)), Ok(()));
    assert_eq!(s.status(), Status::Capturing);
    assert_eq!(s.deadline(), Some(105));
    assert_eq!(
        s.start_with(8, 101, SilentBackend::open(8)),
        Err(CaptureError::AlreadyCapturing)
    );
    assert_eq!(s.begin_stop().unwrap().max_duration_secs(), 5);
}

#[test]
fn refusal_comes_before_the_device_is_heard() {
    let mut s = fresh();
    assert_eq!(
        s.start_with(0, 100, Err("device busy".to_string())),
        Err(CaptureError::InvalidDuration)
    );
    assert_eq!(s.start(5, 100), Ok(()));
    assert_eq!(
        s.start_with(0, 100, Err("device busy".to_string())),
        Err(CaptureError::AlreadyCapturing)
    );
}

#[test]
fn check_start_tells_the_refusal() {
    let mut s = fresh();
    assert_eq!(s.check_start(5), Ok(()));
    assert_eq!(s.check_start(0), Err(CaptureError::InvalidDuration));
    assert_eq!(s.status(), Status::Idle);
    assert_eq!(s.start(5, 0), Ok(()));
    assert_eq!(s.check_start(5), Err(CaptureError::AlreadyCapturing));
    assert_eq!(s.check_start(0), Err(CaptureError::AlreadyCapturing));
}

#[test]
fn finish_stop_always_ends_idle() {
    let mut s = fresh();
    assert_eq!(s.finish_stop(Ok("a".to_string())), Ok("a".to_string()));
    assert_eq!(s.status(), Status::Idle);
    assert_eq!(s.start(5, 100), Ok(()));
    assert_eq!(
        s.finish_stop(Err("gone".to_string())),
        Err(CaptureError::BackendFailure("gone".to_string()))
    );
    assert_eq!(s.status(), Status::Idle);
    assert_eq!(s.deadline(), None);
}

#[test]
fn many_cycles_on_one_session() {
    let mut s = fresh();
    let mut now: u64 = 0;
    while now < 50 {
        assert_eq!(s.start(3, now), Ok(()));
        assert_eq!(s.deadline(), Some(now + 3));
        assert_eq!(s.stop(), Ok("silence".to_string()));
        assert_eq!(s.status(), Status::Idle);
        now += 1;
    }
}
