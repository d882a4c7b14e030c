//! Blocking, bounded wait for the answer to an outstanding request.

use vstd::prelude::*;

use std::sync::mpsc::Receiver;

use crate::report::HidppReport;

verus! {

/// Why a bounded wait on the answer channel ended without an answer.
#[derive(Clone, Copy, Debug, PartialEq, Eq, Structural)]
pub enum WaitError {
    TimedOut,
    Disconnected,
}

/// Relies on std::sync::mpsc::Receiver::recv_timeout: yields a report some
/// sender delivered, or says whether the wait timed out or every sender is
/// gone. Which of the outcomes happens depends on scheduling, so nothing
/// more is claimed of it.
#[verifier::external_body]
pub fn wait_event_timeout(answers: &Receiver<HidppReport>, timeout_secs: u64) -> (r: Result<
    HidppReport,
    WaitError,
>) {
    match answers.recv_timeout(std::time::Duration::new(timeout_secs, 0)) {
        Ok(report) => Ok(report),
        Err(std::sync::mpsc::RecvTimeoutError::Timeout) => Err(WaitError::TimedOut),
        Err(std::sync::mpsc::RecvTimeoutError::Disconnected) => Err(WaitError::Disconnected),
    }
}

} // verus!
