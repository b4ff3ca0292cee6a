//! The interface between a session and the platform's audio device.

use vstd::prelude::*;

verus! {

/// One platform's way to record from an audio device.
///
/// A value of the implementing type is one open device stream. It is made by
/// `open` when a session starts and consumed by `finalize` when it stops, so
/// no stream serves two sessions.
pub trait CaptureBackend: Sized {
    /// Whether this backend can record on the running platform.
    spec fn available() -> bool;

    /// What `open` may answer when asked for `max_duration_secs` seconds.
    spec fn opens(max_duration_secs: u32, opened: Result<Self, String>) -> bool;

    /// What `finalize` may answer for this stream.
    spec fn finalizes(self, finalized: Result<String, String>) -> bool;

    /// Reports `available()`. Has no side effects.
    fn is_available() -> (supported: bool)
        ensures
            supported == Self::available(),
    ;

    /// Acquires the device and begins to record, for at most
    /// `max_duration_secs` seconds. An error carries the device's reason.
    fn open(max_duration_secs: u32) -> (opened: Result<Self, String>)
        ensures
            Self::opens(max_duration_secs, opened),
    ;

    /// Closes the stream and hands back where the recording can be found. An
    /// error carries the device's reason.
    fn finalize(self) -> (finalized: Result<String, String>)
        ensures
            self.finalizes(finalized),
    ;
}

/// The backend of a platform on which nothing can be recorded.
#[derive(Debug)]
pub struct NoBackend {}

impl CaptureBackend for NoBackend {
    open spec fn available() -> bool {
        false
    }

    /// Opening fails, with a fixed reason.
    open spec fn opens(max_duration_secs: u32, opened: Result<Self, String>) -> bool {
        opened is Err && opened->Err_0@ == "no audio capture backend on this platform"@
    }

    /// Finalizing fails, with the same reason.
    open spec fn finalizes(self, finalized: Result<String, String>) -> bool {
        finalized is Err && finalized->Err_0@ == "no audio capture backend on this platform"@
    }

    fn is_available() -> (supported: bool) {
        false
    }

    fn open(max_duration_secs: u32) -> (opened: Result<Self, String>) {
        Err(String::from_str("no audio capture backend on this platform"))
    }

    fn finalize(self) -> (finalized: Result<String, String>) {
        Err(String::from_str("no audio capture backend on this platform"))
    }
}

/// A backend without a device: it is always available, opens at once and
/// records silence, which it hands back under the name `silence`.
#[derive(Debug)]
pub struct SilentBackend {
    max_duration_secs: u32,
}

impl SilentBackend {
    /// The longest recording that this stream was opened for, in seconds.
    pub closed spec fn limit(self) -> u32 {
        self.max_duration_secs
    }

    /// The longest recording that this stream was opened for, in seconds.
    pub fn max_duration_secs(&self) -> (limit: u32)
        ensures
            limit == self.limit(),
    {
        self.max_duration_secs
    }
}

impl CaptureBackend for SilentBackend {
    open spec fn available() -> bool {
        true
    }

    /// Opening succeeds, with a stream that remembers the bound.
    open spec fn opens(max_duration_secs: u32, opened: Result<Self, String>) -> bool {
        opened is Ok && opened->Ok_0.limit() == max_duration_secs
    }

    /// Finalizing succeeds, and the recording is called `silence`.
    open spec fn finalizes(self, finalized: Result<String, String>) -> bool {
        finalized is Ok && finalized->Ok_0@ == "silence"@
    }

    fn is_available() -> (supported: bool) {
        true
    }

    fn open(max_duration_secs: u32) -> (opened: Result<Self, String>) {
        Ok(SilentBackend { max_duration_secs })
    }

    fn finalize(self) -> (finalized: Result<String, String>) {
        Ok(String::from_str("silence"))
    }
}

} // verus!
