//! What can go wrong when a capture is started or stopped.

use vstd::prelude::*;

verus! {

/// The reasons for which `start` or `stop` refuses or fails.
#[derive(Debug, PartialEq, Eq)]
pub enum CaptureError {
    /// The platform has no working capture backend.
    Unsupported,
    /// The caller asked for a recording of zero length.
    InvalidDuration,
    /// A start was attempted while the session was not idle.
    AlreadyCapturing,
    /// A stop was attempted on an idle session.
    NotCapturing,
    /// A stop was attempted while another stop was finalizing.
    AlreadyStopping,
    /// The device or the operating system failed; the reason is the backend's.
    BackendFailure(String),
}

impl CaptureError {
    /// The text by which an error is shown to the host: a fixed sentence for
    /// each kind, and for a backend failure a fixed prefix before the reason.
    pub open spec fn message_spec(self) -> Seq<char> {
        match self {
            CaptureError::Unsupported => "unsupported: audio capture is not available on this platform"@,
            CaptureError::InvalidDuration => "invalid duration: the maximum duration must be positive"@,
            CaptureError::AlreadyCapturing => "already capturing: stop the running capture first"@,
            CaptureError::NotCapturing => "not capturing: there is no capture to stop"@,
            CaptureError::AlreadyStopping => "stopping: a stop is already in progress"@,
            CaptureError::BackendFailure(reason) => "backend failure: "@ + reason@,
        }
    }

    /// Renders the error as text.
    pub fn message(&self) -> (text: String)
        ensures
            text@ == self.message_spec(),
    {
        match self {
            CaptureError::Unsupported => String::from_str(
                "unsupported: audio capture is not available on this platform",
            ),
            CaptureError::InvalidDuration => String::from_str(
                "invalid duration: the maximum duration must be positive",
            ),
            CaptureError::AlreadyCapturing => String::from_str(
                "already capturing: stop the running capture first",
            ),
            CaptureError::NotCapturing => String::from_str(
                "not capturing: there is no capture to stop",
            ),
            CaptureError::AlreadyStopping => String::from_str(
                "stopping: a stop is already in progress",
            ),
            CaptureError::BackendFailure(reason) => String::from_str("backend failure: ").concat(
                reason.as_str(),
            ),
        }
    }
}

} // verus!
