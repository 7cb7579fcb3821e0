//! Polling the cancellation signal of a waiting request. What a poll finds
//! depends on the client's task, so no contract says what it is. A
//! `CancelPoll` is made only by `poll_cancellation`, in this module: a
//! function that states its result for "some poll" states it for what a poll
//! of the signal really found, not for any state.

use vstd::prelude::*;

use crate::auth_processor::CancelState;

verus! {

/// Calls tokio's `oneshot::Receiver::try_recv` and tells its three outcomes
/// apart: the value arrived, the sender is gone, nothing yet. What it finds
/// depends on the client's task, so nothing is promised.
#[verifier::external_body]
fn poll_cancel_signal(rx: &mut tokio::sync::oneshot::Receiver<()>) -> (state: CancelState) {
    match rx.try_recv() {
        Ok(()) => CancelState::Signalled,
        Err(tokio::sync::oneshot::error::TryRecvError::Closed) => CancelState::Closed,
        Err(tokio::sync::oneshot::error::TryRecvError::Empty) => CancelState::Pending,
    }
}

/// What one poll of a cancellation signal found. Only `poll_cancellation`
/// makes one.
pub struct CancelPoll {
    state: CancelState,
}

impl CancelPoll {
    /// The state that this poll found.
    pub closed spec fn state(&self) -> CancelState {
        self.state
    }

    /// The state that this poll found.
    pub fn found(&self) -> (state: CancelState)
        ensures
            state == self.state(),
    {
        self.state
    }
}

/// Polls the cancellation signal `rx` once, without waiting.
pub fn poll_cancellation(rx: &mut tokio::sync::oneshot::Receiver<()>) -> (poll: CancelPoll) {
    CancelPoll { state: poll_cancel_signal(rx) }
}

} // verus!
