//! The outbound share session. The native share surface reports through
//! callbacks: first whether the outgoing data could be populated, then whether
//! the user completed or dismissed the share. The session turns those signals
//! into one outcome; the first signal that settles it wins.
use vstd::prelude::*;
use crate::error::{ShareError, Result};

verus! {

/// A signal from the native share surface.
#[derive(Debug, PartialEq, Eq)]
pub enum ShareSignal {
    /// The outgoing data was populated.
    DataPopulated,
    /// Populating the outgoing data failed, with the platform's message.
    DataFailed(String),
    /// The user completed the share.
    Completed,
    /// The user dismissed the share surface.
    Canceled,
}

/// Where a session stands.
#[derive(Clone, Copy, Debug, PartialEq, Eq, Structural)]
pub enum SessionPhase {
    /// Waiting for the data-requested callback.
    AwaitingData,
    /// The data is populated; waiting for the user to complete or dismiss.
    AwaitingOutcome,
    /// The outcome is known; later signals are ignored.
    Finished,
}

/// The phase after signal `s` arrives in phase `p`.
pub open spec fn next_phase(p: SessionPhase, s: ShareSignal) -> SessionPhase {
    match (p, s) {
        (SessionPhase::AwaitingData, ShareSignal::DataPopulated) => SessionPhase::AwaitingOutcome,
        (SessionPhase::AwaitingData, ShareSignal::DataFailed(_)) => SessionPhase::Finished,
        (SessionPhase::AwaitingOutcome, ShareSignal::Completed) => SessionPhase::Finished,
        (SessionPhase::AwaitingOutcome, ShareSignal::Canceled) => SessionPhase::Finished,
        _ => p,
    }
}

/// The outcome that signal `s` settles in phase `p`, if it settles one: success
/// only on completion, a cancellation error on dismissal, and the platform's
/// failure when the data could not be populated.
pub open spec fn settled(p: SessionPhase, s: ShareSignal) -> Option<Result<()>> {
    match (p, s) {
        (SessionPhase::AwaitingData, ShareSignal::DataFailed(m)) => Some(
            Err(ShareError::NativeApiFailure(m)),
        ),
        (SessionPhase::AwaitingOutcome, ShareSignal::Completed) => Some(Ok(())),
        (SessionPhase::AwaitingOutcome, ShareSignal::Canceled) => Some(Err(ShareError::ShareCancelled)),
        _ => None,
    }
}

/// One outbound share, from the request to its outcome.
#[derive(Debug)]
pub struct ShareSession {
    phase: SessionPhase,
}

impl View for ShareSession {
    type V = SessionPhase;

    closed spec fn view(&self) -> SessionPhase {
        self.phase
    }
}

impl ShareSession {
    /// A session that waits for the data-requested callback.
    pub fn new() -> (r: Self)
        ensures
            r@ == SessionPhase::AwaitingData,
    {
        ShareSession { phase: SessionPhase::AwaitingData }
    }

    /// Where the session stands.
    pub fn phase(&self) -> (r: SessionPhase)
        ensures
            r == self@,
    {
        self.phase
    }

    /// Takes in one signal. Returns the outcome when this signal settles the
    /// session: the host then unregisters its callbacks and returns it.
    pub fn on_signal(&mut self, signal: ShareSignal) -> (r: Option<Result<()>>)
        ensures
            r == settled(old(self)@, signal),
            final(self)@ == next_phase(old(self)@, signal),
            r is Some <==> (old(self)@ != SessionPhase::Finished && final(self)@ == SessionPhase::Finished),
    {
        match self.phase {
            SessionPhase::AwaitingData => match signal {
                ShareSignal::DataPopulated => {
                    self.phase = SessionPhase::AwaitingOutcome;
                    None
                },
                ShareSignal::DataFailed(m) => {
                    self.phase = SessionPhase::Finished;
                    Some(Err(ShareError::NativeApiFailure(m)))
                },
                _ => None,
            },
            SessionPhase::AwaitingOutcome => match signal {
                ShareSignal::Completed => {
                    self.phase = SessionPhase::Finished;
                    Some(Ok(()))
                },
                ShareSignal::Canceled => {
                    self.phase = SessionPhase::Finished;
                    Some(Err(ShareError::ShareCancelled))
                },
                _ => None,
            },
            SessionPhase::Finished => None,
        }
    }
}

/// Once a session is settled, no later signal changes it or settles it again.
pub proof fn first_outcome_wins(s: ShareSignal)
    ensures
        next_phase(SessionPhase::Finished, s) == SessionPhase::Finished,
        settled(SessionPhase::Finished, s) is None,
{
}

} // verus!
