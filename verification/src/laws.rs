//! What holds of every session, whatever the device does.

use vstd::prelude::*;
use crate::backend::CaptureBackend;
use crate::error::CaptureError;
use crate::platform::PlatformBackend;
use crate::session::{deadline_of, SessionState, Status};

verus! {

/// Every step keeps a well-formed session well-formed: a start, whatever
/// the device answered; the beginning of a stop; and its end.
pub proof fn lemma_steps_keep_well_formed<B>(
    s: SessionState<B>,
    supported: bool,
    max_duration: u32,
    now: u64,
    opened: Result<B, String>,
)
    requires
        s.wf(),
    ensures
        s.after_start(supported, max_duration, now, opened).wf(),
        s.status == Status::Capturing ==> s.stopping().wf(),
        SessionState::<B>::idle().wf(),
{
}

/// A start that returns an error leaves the session as it was.
pub proof fn lemma_failed_start_changes_nothing<B>(
    s: SessionState<B>,
    supported: bool,
    max_duration: u32,
    now: u64,
    opened: Result<B, String>,
)
    requires
        s.start_outcome(supported, max_duration, opened) is Err,
    ensures
        s.after_start(supported, max_duration, now, opened) == s,
{
}

/// Starting is exclusive. After a `start` that succeeded, a second `start`
/// without a stop between them is refused as `AlreadyCapturing`, whatever
/// its duration and its time, and the session with its backend and watchdog
/// is exactly as the first start left it.
pub proof fn lemma_second_start_refused<B: CaptureBackend>(
    s: SessionState<B>,
    first_duration: u32,
    first_now: u64,
    capturing: SessionState<B>,
    second_duration: u32,
    second_now: u64,
    second_outcome: Result<(), CaptureError>,
    after: SessionState<B>,
)
    requires
        s.start_allows(first_duration, first_now, Ok(()), capturing),
        capturing.start_allows(second_duration, second_now, second_outcome, after),
    ensures
        second_outcome == Err::<(), CaptureError>(CaptureError::AlreadyCapturing),
        after == capturing,
{
}

/// The same of the step `start_with`: after one that succeeded, a second is
/// refused as `AlreadyCapturing` whatever a device has answered, and changes
/// nothing.
pub proof fn lemma_second_start_with_refused<B>(
    s: SessionState<B>,
    supported: bool,
    first_duration: u32,
    first_now: u64,
    first_opened: Result<B, String>,
    second_duration: u32,
    second_now: u64,
    second_opened: Result<B, String>,
)
    requires
        s.start_outcome(supported, first_duration, first_opened) is Ok,
    ensures
        ({
            let capturing = s.after_start(supported, first_duration, first_now, first_opened);
            &&& capturing.start_outcome(supported, second_duration, second_opened) == Err::<
                (),
                CaptureError,
            >(CaptureError::AlreadyCapturing)
            &&& capturing.after_start(supported, second_duration, second_now, second_opened)
                == capturing
        }),
{
}

/// A session that was never started refuses a stop as `NotCapturing`, and
/// so does every idle session.
pub proof fn lemma_stop_needs_a_capture<B>(s: SessionState<B>)
    requires
        s.status == Status::Idle,
    ensures
        s.stop_refusal() == Some(CaptureError::NotCapturing),
        SessionState::<B>::idle().stop_refusal() == Some(CaptureError::NotCapturing),
{
}

/// No capture outlasts its bound. After a `start` at `now` for
/// `max_duration` seconds the watchdog is due from `deadline_of(now,
/// max_duration)` on and not before: at every time from `now + max_duration`
/// on, and at none before it but the clock's last. Enforcing a due deadline
/// leaves the session idle, whatever the device answers.
pub proof fn lemma_watchdog_due_from_deadline<B: CaptureBackend>(
    s: SessionState<B>,
    max_duration: u32,
    now: u64,
    capturing: SessionState<B>,
    later: u64,
    forced: Result<String, CaptureError>,
    after: SessionState<B>,
)
    requires
        s.start_allows(max_duration, now, Ok(()), capturing),
    ensures
        capturing.status == Status::Capturing,
        capturing.watchdog_due(later) <==> later >= deadline_of(now, max_duration),
        later >= now + max_duration ==> capturing.watchdog_due(later),
        later < now + max_duration && later < u64::MAX ==> !capturing.watchdog_due(later),
        capturing.finalize_allows(forced, after) ==> after.status == Status::Idle,
{
}

/// A due watchdog and a stop by the caller take the same step, and once
/// either has begun the other finds nothing to finalize: the watchdog is
/// disarmed and a stop is refused as `AlreadyStopping`.
pub proof fn lemma_one_stop_wins<B>(s: SessionState<B>, now: u64)
    requires
        s.wf(),
        s.status == Status::Capturing,
    ensures
        s.stopping().backend is None,
        !s.stopping().watchdog_due(now),
        s.stopping().stop_refusal() == Some(CaptureError::AlreadyStopping),
{
}

/// A stop leaves nothing behind. After `stop`, whether it succeeded, failed
/// or was refused for want of a capture, the session is idle and holds
/// neither backend nor watchdog: it is a new session. (A stop refused
/// because another stop is under way leaves that stop to end.)
pub proof fn lemma_stop_leaves_new_session<B: CaptureBackend>(
    s: SessionState<B>,
    outcome: Result<String, CaptureError>,
    after: SessionState<B>,
)
    requires
        s.wf(),
        s.status != Status::Stopping,
        s.stop_allows(outcome, after),
    ensures
        after == SessionState::<B>::idle(),
        after.status == Status::Idle,
        after.backend is None,
        after.watchdog is None,
{
}

/// On a new session a start is admitted whenever there is a backend and the
/// duration is positive. So a start that succeeded before a stop succeeds
/// after it again, given the same answer of the device.
pub proof fn lemma_start_again_after_stop<B>(
    s: SessionState<B>,
    supported: bool,
    max_duration: u32,
    now: u64,
    opened: Result<B, String>,
)
    requires
        s.start_outcome(supported, max_duration, opened) is Ok,
    ensures
        ({
            let stopped = SessionState::<B>::idle();
            &&& stopped.start_refusal(supported, max_duration) is None
            &&& stopped.start_outcome(supported, max_duration, opened) is Ok
            &&& stopped.after_start(supported, max_duration, now, opened).status
                == Status::Capturing
        }),
{
}

/// Without a backend nothing starts: `start` is refused as `Unsupported`
/// for every duration, zero too, in every state, and changes nothing.
pub proof fn lemma_unsupported_start_refused<B: CaptureBackend>(
    s: SessionState<B>,
    max_duration: u32,
    now: u64,
    outcome: Result<(), CaptureError>,
    after: SessionState<B>,
)
    requires
        !B::available(),
        s.start_allows(max_duration, now, outcome, after),
    ensures
        outcome == Err::<(), CaptureError>(CaptureError::Unsupported),
        after == s,
{
}

/// The running platform has no backend, so every start on it is refused in
/// that way.
pub proof fn lemma_platform_never_starts(
    s: SessionState<PlatformBackend>,
    max_duration: u32,
    now: u64,
    outcome: Result<(), CaptureError>,
    after: SessionState<PlatformBackend>,
)
    requires
        s.start_allows(max_duration, now, outcome, after),
    ensures
        !PlatformBackend::available(),
        outcome == Err::<(), CaptureError>(CaptureError::Unsupported),
        after == s,
{
}

/// An error's message tells its kind: two errors with one message are of
/// one kind.
pub proof fn lemma_message_tells_kind(a: CaptureError, b: CaptureError)
    requires
        a.message_spec() == b.message_spec(),
    ensures
        a is Unsupported <==> b is Unsupported,
        a is InvalidDuration <==> b is InvalidDuration,
        a is AlreadyCapturing <==> b is AlreadyCapturing,
        a is NotCapturing <==> b is NotCapturing,
        a is AlreadyStopping <==> b is AlreadyStopping,
        a is BackendFailure <==> b is BackendFailure,
{
    lemma_message_initial(a);
    lemma_message_initial(b);
}

/// The first character of each kind's message.
pub open spec fn initial_of(e: CaptureError) -> char {
    match e {
        CaptureError::Unsupported => 'u',
        CaptureError::InvalidDuration => 'i',
        CaptureError::AlreadyCapturing => 'a',
        CaptureError::NotCapturing => 'n',
        CaptureError::AlreadyStopping => 's',
        CaptureError::BackendFailure(_) => 'b',
    }
}

/// No message is empty, and each begins with its kind's own letter.
pub proof fn lemma_message_initial(e: CaptureError)
    ensures
        e.message_spec().len() > 0,
        e.message_spec()[0] == initial_of(e),
{
    reveal_strlit("unsupported: audio capture is not available on this platform");
    reveal_strlit("invalid duration: the maximum duration must be positive");
    reveal_strlit("already capturing: stop the running capture first");
    reveal_strlit("not capturing: there is no capture to stop");
    reveal_strlit("stopping: a stop is already in progress");
    reveal_strlit("backend failure: ");
}

} // verus!
