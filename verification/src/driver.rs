//! The session state machine the surrounding program drives.
//!
//! `Uninitialized → Initialized → Calibrated → Sampling`, with any failed
//! step falling to `Terminated`: initialization and calibration failures are
//! fatal, and a read or send failure during steady-state sampling ends the
//! loop (the inherited minimal policy; no retry).

use vstd::prelude::*;

verus! {

/// Where a session stands.
#[derive(Clone, Copy, Debug, PartialEq, Eq, Structural)]
pub enum Phase {
    /// The bus has not been brought up yet.
    Uninitialized,
    /// The bus is up; calibration has not run.
    Initialized,
    /// Bias and variance estimation both succeeded.
    Calibrated,
    /// The steady-state measure–encode–send loop is running.
    Sampling,
    /// A fatal failure ended the session.
    Terminated,
}

/// What the program should do next in a given phase.
#[derive(Clone, Copy, Debug, PartialEq, Eq, Structural)]
pub enum PhaseAction {
    /// Bring the bus up.
    Initialize,
    /// Run bias estimation, then variance estimation.
    Calibrate,
    /// Build, encode and send one measurement.
    Sample,
    /// Stop: nothing more may run.
    Stop,
}

/// The successor phase after the current phase's work succeeded or failed.
pub open spec fn next_phase(p: Phase, success: bool) -> Phase {
    match p {
        Phase::Uninitialized => if success {
            Phase::Initialized
        } else {
            Phase::Terminated
        },
        Phase::Initialized => if success {
            Phase::Calibrated
        } else {
            Phase::Terminated
        },
        Phase::Calibrated => if success {
            Phase::Sampling
        } else {
            Phase::Terminated
        },
        Phase::Sampling => if success {
            Phase::Sampling
        } else {
            Phase::Terminated
        },
        Phase::Terminated => Phase::Terminated,
    }
}

impl Phase {
    /// The phase a fresh session starts in.
    pub fn start() -> (r: Phase)
        ensures
            r == Phase::Uninitialized,
    {
        Phase::Uninitialized
    }

    /// What to do in this phase.
    pub fn action(self) -> (r: PhaseAction)
        ensures
            self == Phase::Uninitialized ==> r == PhaseAction::Initialize,
            self == Phase::Initialized ==> r == PhaseAction::Calibrate,
            self == Phase::Calibrated || self == Phase::Sampling ==> r == PhaseAction::Sample,
            self == Phase::Terminated ==> r == PhaseAction::Stop,
    {
        match self {
            Phase::Uninitialized => PhaseAction::Initialize,
            Phase::Initialized => PhaseAction::Calibrate,
            Phase::Calibrated => PhaseAction::Sample,
            Phase::Sampling => PhaseAction::Sample,
            Phase::Terminated => PhaseAction::Stop,
        }
    }

    /// Advance after the phase's work succeeded or failed.  Termination is
    /// absorbing, and a failure in any phase is fatal.
    pub fn advance(self, success: bool) -> (r: Phase)
        ensures
            r == next_phase(self, success),
    {
        match self {
            Phase::Uninitialized => if success {
                Phase::Initialized
            } else {
                Phase::Terminated
            },
            Phase::Initialized => if success {
                Phase::Calibrated
            } else {
                Phase::Terminated
            },
            Phase::Calibrated => if success {
                Phase::Sampling
            } else {
                Phase::Terminated
            },
            Phase::Sampling => if success {
                Phase::Sampling
            } else {
                Phase::Terminated
            },
            Phase::Terminated => Phase::Terminated,
        }
    }
}

/// A failure never leads anywhere but termination, and termination is
/// absorbing: no event resumes a terminated session.
pub proof fn lemma_failure_is_fatal(p: Phase, success: bool)
    ensures
        !success ==> next_phase(p, success) == Phase::Terminated,
        p == Phase::Terminated ==> next_phase(p, success) == Phase::Terminated,
{
}

} // verus!
