//! The capture session: one recording at a time, bounded by a deadline.
//!
//! A session is idle, capturing or stopping. `start` takes it from idle to
//! capturing and arms the watchdog; a stop, asked for by the caller or forced
//! by the watchdog, takes it through stopping back to idle. Every transition
//! is one call on `&mut CaptureSession`, so no two of them interleave.
//!
//! Each transition exists in two forms. The steps (`start_with`,
//! `begin_stop`, `begin_forced_stop`, `finish_stop`) take what the device
//! answered as an argument, for a host that talks to the device itself.
//! `start`, `stop` and `enforce_deadline` make the backend's calls between
//! the steps.
//!
//! A stop forced by the watchdog is final: its outcome goes to whoever
//! reported the deadline, and a later `stop` finds the session idle.

use vstd::prelude::*;
use crate::backend::CaptureBackend;
use crate::error::CaptureError;

verus! {

/// Where a session stands.
#[derive(Debug, Clone, Copy, PartialEq, Eq, Structural)]
pub enum Status {
    /// Nothing is being recorded.
    Idle,
    /// A backend is recording and the watchdog is armed.
    Capturing,
    /// A stop has begun and the backend is being finalized.
    Stopping,
}

/// What a session holds, as contracts speak of it. Times are in seconds on
/// the host's clock.
pub struct SessionState<B> {
    /// Where the session stands.
    pub status: Status,
    /// The open device stream.
    pub backend: Option<B>,
    /// When the running capture began.
    pub started_at: u64,
    /// The longest that the running capture may last.
    pub max_duration: u32,
    /// The armed watchdog: the time at which it stops the capture.
    pub watchdog: Option<u64>,
}

/// The time at which a capture begun at `started_at` has lasted
/// `max_duration`, or the clock's last value if that lies beyond it.
pub open spec fn deadline_of(started_at: u64, max_duration: u32) -> u64 {
    if started_at + max_duration <= u64::MAX {
        (started_at + max_duration) as u64
    } else {
        u64::MAX
    }
}

/// What a stop returns once the backend has answered.
pub open spec fn stop_outcome(finalized: Result<String, String>) -> Result<String, CaptureError> {
    match finalized {
        Ok(location) => Ok(location),
        Err(reason) => Err(CaptureError::BackendFailure(reason)),
    }
}

impl<B> SessionState<B> {
    /// A session that records nothing.
    pub open spec fn idle() -> Self {
        SessionState {
            status: Status::Idle,
            backend: None,
            started_at: 0,
            max_duration: 0,
            watchdog: None,
        }
    }

    /// A backend and an armed watchdog exist exactly while capturing, the
    /// watchdog is set to the capture's deadline, and an idle session keeps
    /// nothing of an earlier capture.
    pub open spec fn wf(self) -> bool {
        &&& self.status == Status::Capturing <==> self.backend is Some
        &&& self.status == Status::Capturing <==> self.watchdog is Some
        &&& self.status == Status::Capturing ==> self.max_duration > 0 && self.watchdog == Some(
            deadline_of(self.started_at, self.max_duration),
        )
        &&& self.status == Status::Idle ==> self.started_at == 0 && self.max_duration == 0
    }

    /// Why a start is refused before the device is asked, if it is: first for
    /// want of a backend, then because the session is not idle, then for a
    /// duration of zero.
    pub open spec fn start_refusal(self, supported: bool, max_duration: u32) -> Option<
        CaptureError,
    > {
        if !supported {
            Some(CaptureError::Unsupported)
        } else if self.status != Status::Idle {
            Some(CaptureError::AlreadyCapturing)
        } else if max_duration == 0 {
            Some(CaptureError::InvalidDuration)
        } else {
            None
        }
    }

    /// What a start returns, given what opening the device gave.
    pub open spec fn start_outcome(
        self,
        supported: bool,
        max_duration: u32,
        opened: Result<B, String>,
    ) -> Result<(), CaptureError> {
        match self.start_refusal(supported, max_duration) {
            Some(refusal) => Err(refusal),
            None => match opened {
                Ok(_) => Ok(()),
                Err(reason) => Err(CaptureError::BackendFailure(reason)),
            },
        }
    }

    /// The session after a start at time `now`: capturing with the opened
    /// backend where the start succeeds, unchanged where it does not.
    pub open spec fn after_start(
        self,
        supported: bool,
        max_duration: u32,
        now: u64,
        opened: Result<B, String>,
    ) -> Self {
        if self.start_refusal(supported, max_duration) is None && opened is Ok {
            SessionState {
                status: Status::Capturing,
                backend: Some(opened->Ok_0),
                started_at: now,
                max_duration,
                watchdog: Some(deadline_of(now, max_duration)),
            }
        } else {
            self
        }
    }

    /// Why a stop is refused, if it is.
    pub open spec fn stop_refusal(self) -> Option<CaptureError> {
        match self.status {
            Status::Idle => Some(CaptureError::NotCapturing),
            Status::Stopping => Some(CaptureError::AlreadyStopping),
            Status::Capturing => None,
        }
    }

    /// The session once a stop has begun: the watchdog is disarmed and the
    /// backend has left for its finalization.
    pub open spec fn stopping(self) -> Self {
        SessionState {
            status: Status::Stopping,
            backend: None,
            started_at: self.started_at,
            max_duration: self.max_duration,
            watchdog: None,
        }
    }

    /// Whether the watchdog stops the capture at time `now`.
    pub open spec fn watchdog_due(self, now: u64) -> bool {
        self.watchdog is Some && now >= self.watchdog->Some_0
    }
}

impl<B: CaptureBackend> SessionState<B> {
    /// What `start` may return and leave behind. A refusal decides both, and
    /// the device is not asked. An admitted start is decided by the device:
    /// by one of the answers that the backend may give to `open`.
    pub open spec fn start_allows(
        self,
        max_duration: u32,
        now: u64,
        outcome: Result<(), CaptureError>,
        after: Self,
    ) -> bool {
        match self.start_refusal(B::available(), max_duration) {
            Some(refusal) => outcome == Err::<(), CaptureError>(refusal) && after == self,
            None => exists|opened: Result<B, String>|
                {
                    &&& #[trigger] B::opens(max_duration, opened)
                    &&& outcome == self.start_outcome(B::available(), max_duration, opened)
                    &&& after == self.after_start(B::available(), max_duration, now, opened)
                },
        }
    }

    /// What `stop` may return and leave behind. A refusal changes nothing.
    /// Otherwise the session ends idle, and the outcome is that of one of
    /// the answers that the backend may give to `finalize`.
    pub open spec fn stop_allows(self, outcome: Result<String, CaptureError>, after: Self) -> bool {
        match self.stop_refusal() {
            Some(refusal) => outcome == Err::<String, CaptureError>(refusal) && after == self,
            None => self.finalize_allows(outcome, after),
        }
    }

    /// What finalizing the session's backend may return and leave behind.
    pub open spec fn finalize_allows(
        self,
        outcome: Result<String, CaptureError>,
        after: Self,
    ) -> bool {
        &&& after == Self::idle()
        &&& exists|finalized: Result<String, String>|
            {
                &&& #[trigger] self.backend->Some_0.finalizes(finalized)
                &&& outcome == stop_outcome(finalized)
            }
    }
}

/// One capture session. It lives as long as the host and serves one
/// recording after another.
pub struct CaptureSession<B> {
    state: SessionState<B>,
}

impl<B> View for CaptureSession<B> {
    type V = SessionState<B>;

    closed spec fn view(&self) -> SessionState<B> {
        self.state
    }
}

impl<B> CaptureSession<B> {
    /// Every session holds a well-formed state, at all times.
    #[verifier::type_invariant]
    closed spec fn inv(self) -> bool {
        self.state.wf()
    }

    /// A new, idle session.
    pub fn new() -> (session: Self)
        ensures
            session@ == SessionState::<B>::idle(),
    {
        CaptureSession {
            state: SessionState {
                status: Status::Idle,
                backend: None,
                started_at: 0,
                max_duration: 0,
                watchdog: None,
            },
        }
    }

    /// Begins a stop that the caller asked for. On a capturing session it
    /// disarms the watchdog and hands out the backend, which the caller
    /// finalizes before `finish_stop`. Otherwise nothing changes.
    pub fn begin_stop(&mut self) -> (handed: Result<B, CaptureError>)
        ensures
            old(self)@.wf(),
            final(self)@.wf(),
            match old(self)@.stop_refusal() {
                Some(refusal) => {
                    &&& handed == Err::<B, CaptureError>(refusal)
                    &&& final(self)@ == old(self)@
                },
                None => {
                    &&& handed == Ok::<B, CaptureError>(old(self)@.backend->Some_0)
                    &&& final(self)@ == old(self)@.stopping()
                },
            },
    {
        proof {
            use_type_invariant(&*self);
        }
        match self.state.status {
            Status::Idle => Err(CaptureError::NotCapturing),
            Status::Stopping => Err(CaptureError::AlreadyStopping),
            Status::Capturing => Ok(self.hand_out().unwrap()),
        }
    }

    /// Begins the stop that the watchdog forces, if the deadline has come by
    /// `now`: the same step as `begin_stop`. Before the deadline, and on a
    /// session that is not capturing, nothing changes.
    pub fn begin_forced_stop(&mut self, now: u64) -> (handed: Option<B>)
        ensures
            old(self)@.wf(),
            final(self)@.wf(),
            old(self)@.watchdog_due(now) ==> {
                &&& handed is Some
                &&& handed == old(self)@.backend
                &&& final(self)@ == old(self)@.stopping()
            },
            !old(self)@.watchdog_due(now) ==> handed is None && final(self)@ == old(self)@,
    {
        proof {
            use_type_invariant(&*self);
        }
        if self.watchdog_due(now) {
            self.hand_out()
        } else {
            None
        }
    }

    /// The step that both kinds of stop share: the session goes from
    /// capturing to stopping and gives up its backend.
    fn hand_out(&mut self) -> (handed: Option<B>)
        requires
            old(self)@.status == Status::Capturing,
        ensures
            handed == old(self)@.backend,
            final(self)@ == old(self)@.stopping(),
    {
        let mut held = SessionState {
            status: Status::Stopping,
            backend: None,
            started_at: self.state.started_at,
            max_duration: self.state.max_duration,
            watchdog: None,
        };
        core::mem::swap(&mut self.state, &mut held);
        held.backend
    }

    /// Ends a stop with what finalizing the backend gave. Whatever that was,
    /// and wherever the session stood, it is idle afterwards and holds
    /// nothing.
    pub fn finish_stop(&mut self, finalized: Result<String, String>) -> (outcome: Result<
        String,
        CaptureError,
    >)
        ensures
            final(self)@ == SessionState::<B>::idle(),
            outcome == stop_outcome(finalized),
    {
        self.state = SessionState {
            status: Status::Idle,
            backend: None,
            started_at: 0,
            max_duration: 0,
            watchdog: None,
        };
        match finalized {
            Ok(location) => Ok(location),
            Err(reason) => Err(CaptureError::BackendFailure(reason)),
        }
    }

    /// Whether the watchdog stops the capture at time `now`: the session is
    /// capturing and its deadline is not after `now`.
    pub fn watchdog_due(&self, now: u64) -> (due: bool)
        ensures
            due == self@.watchdog_due(now),
    {
        match self.state.watchdog {
            Some(deadline) => now >= deadline,
            None => false,
        }
    }

    /// Where the session stands.
    pub fn status(&self) -> (status: Status)
        ensures
            status == self@.status,
            self@.wf(),
    {
        proof {
            use_type_invariant(self);
        }
        self.state.status
    }

    /// The time at which the watchdog stops the running capture.
    pub fn deadline(&self) -> (deadline: Option<u64>)
        ensures
            deadline == self@.watchdog,
    {
        self.state.watchdog
    }

    /// When the running capture began; 0 on an idle session.
    pub fn started_at(&self) -> (at: u64)
        ensures
            at == self@.started_at,
    {
        self.state.started_at
    }

    /// The longest that the running capture may last, in seconds; 0 on an
    /// idle session.
    pub fn max_duration(&self) -> (secs: u32)
        ensures
            secs == self@.max_duration,
    {
        self.state.max_duration
    }
}

impl<B: CaptureBackend> CaptureSession<B> {
    /// Tells whether a start would be refused before the device is asked,
    /// and changes nothing.
    pub fn check_start(&self, max_duration: u32) -> (admitted: Result<(), CaptureError>)
        ensures
            admitted == match self@.start_refusal(B::available(), max_duration) {
                Some(refusal) => Err::<(), CaptureError>(refusal),
                None => Ok::<(), CaptureError>(()),
            },
    {
        if !B::is_available() {
            Err(CaptureError::Unsupported)
        } else {
            match self.state.status {
                Status::Idle => {
                    if max_duration == 0 {
                        Err(CaptureError::InvalidDuration)
                    } else {
                        Ok(())
                    }
                },
                _ => Err(CaptureError::AlreadyCapturing),
            }
        }
    }

    /// Starts a capture at time `now`, given what opening the device gave.
    /// The refusals are tested here again, in one step with the change, so
    /// of two starts that opened a device at once only one takes hold. A
    /// backend that comes with a refused start is dropped.
    pub fn start_with(
        &mut self,
        max_duration: u32,
        now: u64,
        opened: Result<B, String>,
    ) -> (outcome: Result<(), CaptureError>)
        ensures
            old(self)@.wf(),
            final(self)@.wf(),
            outcome == old(self)@.start_outcome(B::available(), max_duration, opened),
            final(self)@ == old(self)@.after_start(B::available(), max_duration, now, opened),
    {
        proof {
            use_type_invariant(&*self);
        }
        match self.check_start(max_duration) {
            Err(refusal) => Err(refusal),
            Ok(()) => match opened {
                Err(reason) => Err(CaptureError::BackendFailure(reason)),
                Ok(backend) => {
                    self.state = SessionState {
                        status: Status::Capturing,
                        backend: Some(backend),
                        started_at: now,
                        max_duration,
                        watchdog: Some(now.saturating_add(max_duration as u64)),
                    };
                    Ok(())
                },
            },
        }
    }

    /// Starts a capture of at most `max_duration` seconds at time `now`.
    ///
    /// A refusal leaves the session as it was and the device untouched. An
    /// admitted start opens the backend: if that succeeds the session is
    /// capturing, with the watchdog set to `deadline_of(now, max_duration)`;
    /// if it fails the session is as it was and the error carries the
    /// device's reason.
    pub fn start(&mut self, max_duration: u32, now: u64) -> (outcome: Result<(), CaptureError>)
        ensures
            old(self)@.wf(),
            final(self)@.wf(),
            old(self)@.start_allows(max_duration, now, outcome, final(self)@),
    {
        proof {
            use_type_invariant(&*self);
        }
        match self.check_start(max_duration) {
            Err(refusal) => Err(refusal),
            Ok(()) => {
                let opened = B::open(max_duration);
                self.start_with(max_duration, now, opened)
            },
        }
    }

    /// Stops the running capture and returns where the recording is.
    ///
    /// An idle session answers `NotCapturing`, one that is already stopping
    /// `AlreadyStopping`; neither changes. A capturing session finalizes its
    /// backend and is idle afterwards, whether that succeeded or failed with
    /// the device's reason.
    pub fn stop(&mut self) -> (outcome: Result<String, CaptureError>)
        ensures
            old(self)@.wf(),
            final(self)@.wf(),
            old(self)@.stop_allows(outcome, final(self)@),
    {
        match self.begin_stop() {
            Err(refusal) => Err(refusal),
            Ok(backend) => {
                let finalized = backend.finalize();
                self.finish_stop(finalized)
            },
        }
    }

    /// The watchdog's part: once the deadline has come by `now`, stops the
    /// capture as `stop` does and returns that stop's outcome. Before the
    /// deadline, and on a session that is not capturing, it returns `None`
    /// and changes nothing.
    pub fn enforce_deadline(&mut self, now: u64) -> (forced: Option<Result<String, CaptureError>>)
        ensures
            old(self)@.wf(),
            final(self)@.wf(),
            old(self)@.watchdog_due(now) ==> forced is Some && old(self)@.finalize_allows(
                forced->Some_0,
                final(self)@,
            ),
            !old(self)@.watchdog_due(now) ==> forced is None && final(self)@ == old(self)@,
    {
        match self.begin_forced_stop(now) {
            None => None,
            Some(backend) => {
                let finalized = backend.finalize();
                Some(self.finish_stop(finalized))
            },
        }
    }
}

} // verus!
