//! Audio capture session control.
//!
//! A capture session records from one audio input device for a bounded time.
//! This crate holds the session's state machine: exclusive start, stop with a
//! finalized result, and the deadline after which a recording is stopped even
//! if nobody asks. Device access, timers and the clock belong to the host,
//! which hands their outcomes to the session as plain values.

pub mod error;
pub mod backend;
pub mod session;
pub mod platform;
pub mod laws;
