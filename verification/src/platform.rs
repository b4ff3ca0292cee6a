//! The host's entry points: capture on the running platform, with errors
//! shown as text.

use vstd::prelude::*;
use crate::backend::{CaptureBackend, NoBackend};
use crate::error::CaptureError;
use crate::session::CaptureSession;

verus! {

/// The backend of the running platform. There is none that records.
pub type PlatformBackend = NoBackend;

/// The host's one capture session.
pub type AudioCaptureState = CaptureSession<PlatformBackend>;

/// Whether `shown` is `outcome` as the host sees it: a success as it is, an
/// error as its message.
pub open spec fn shows<T>(shown: Result<T, String>, outcome: Result<T, CaptureError>) -> bool {
    match outcome {
        Ok(value) => shown == Ok::<T, String>(value),
        Err(error) => shown is Err && shown->Err_0@ == error.message_spec(),
    }
}

/// Turns an outcome into what the host sees of it.
pub fn show<T>(outcome: Result<T, CaptureError>) -> (shown: Result<T, String>)
    ensures
        shows(shown, outcome),
{
    match outcome {
        Ok(value) => Ok(value),
        Err(error) => Err(error.message()),
    }
}

/// Whether audio can be captured on the running platform. It cannot.
pub fn is_supported() -> (supported: bool)
    ensures
        supported == PlatformBackend::available(),
        !supported,
{
    PlatformBackend::is_available()
}

/// Starts a capture of at most `max_duration_secs` seconds at the time
/// `now_secs`, as `CaptureSession::start` does, and shows its outcome.
pub fn start_capture<B: CaptureBackend>(
    state: &mut CaptureSession<B>,
    max_duration_secs: u32,
    now_secs: u64,
) -> (shown: Result<(), String>)
    ensures
        old(state)@.wf(),
        final(state)@.wf(),
        exists|outcome: Result<(), CaptureError>|
            {
                &&& #[trigger] shows(shown, outcome)
                &&& old(state)@.start_allows(
                    max_duration_secs,
                    now_secs,
                    outcome,
                    final(state)@,
                )
            },
{
    let outcome = state.start(max_duration_secs, now_secs);
    show(outcome)
}

/// Stops the running capture, as `CaptureSession::stop` does, and shows its
/// outcome: the recording's location, or the error's message.
pub fn stop_capture<B: CaptureBackend>(state: &mut CaptureSession<B>) -> (shown: Result<
    String,
    String,
>)
    ensures
        old(state)@.wf(),
        final(state)@.wf(),
        exists|outcome: Result<String, CaptureError>|
            {
                &&& #[trigger] shows(shown, outcome)
                &&& old(state)@.stop_allows(outcome, final(state)@)
            },
{
    let outcome = state.stop();
    show(outcome)
}

} // verus!
