//! The process-wide coordinator: it accepts triggers, enforces that at
//! most one update job is ever in flight (further triggers are coalesced,
//! not queued), and records the outcome of the most recent run.

use vstd::prelude::*;
use crate::errors::AppError;

verus! {

/// Whether a trigger started a job or found one already in flight.
pub enum TriggerOutcome {
    /// No job was in flight; one starts now.
    Started,
    /// A job was already in flight; the call is a no-op.
    Coalesced,
}

/// Process-wide coordinator state.
pub struct Coordinator {
    /// Whether a job is currently in flight.
    pub in_flight: bool,
    /// The outcome of the most recent finished run, for diagnostics.
    pub last_outcome: Option<Result<(), AppError>>,
}

impl Coordinator {
    /// What a trigger does: nothing while a job is in flight, else it
    /// marks one in flight; the second component says whether a job starts.
    pub open spec fn trigger_model(s: Coordinator) -> (Coordinator, bool) {
        if s.in_flight {
            (s, false)
        } else {
            (Coordinator { in_flight: true, last_outcome: s.last_outcome }, true)
        }
    }

    /// The state at startup: idle, with no run recorded.
    pub fn new() -> (c: Coordinator)
        ensures
            !c.in_flight,
            c.last_outcome is None,
    {
        Coordinator { in_flight: false, last_outcome: None }
    }

    /// Accepts a trigger: starts a job unless one is already in flight,
    /// in which case the call is coalesced and changes nothing. Never
    /// blocks the caller.
    pub fn trigger(&mut self) -> (r: TriggerOutcome)
        ensures
            *final(self) == Self::trigger_model(*old(self)).0,
            (r is Started) == Self::trigger_model(*old(self)).1,
    {
        if self.in_flight {
            TriggerOutcome::Coalesced
        } else {
            self.in_flight = true;
            TriggerOutcome::Started
        }
    }

    /// Records that the in-flight job finished with the given outcome,
    /// and lets the next trigger start a job again.
    pub fn finish(&mut self, outcome: Result<(), AppError>)
        requires
            old(self).in_flight,
        ensures
            !final(self).in_flight,
            final(self).last_outcome == Some(outcome),
    {
        self.in_flight = false;
        self.last_outcome = Some(outcome);
    }
}

/// While a job is in flight, a trigger starts nothing and changes nothing.
pub proof fn lemma_trigger_coalesces(s: Coordinator)
    requires
        s.in_flight,
    ensures
        Coordinator::trigger_model(s) == (s, false),
{
}

/// Single flight: from an idle state, the first trigger starts a job,
/// and a second trigger issued while that job is still in flight is
/// accepted but starts no second job and changes no state — two triggers
/// lead to exactly one job.
pub proof fn lemma_single_flight(s: Coordinator)
    requires
        !s.in_flight,
    ensures
        ({
            let (s1, started1) = Coordinator::trigger_model(s);
            let (s2, started2) = Coordinator::trigger_model(s1);
            started1 && !started2 && s2 == s1
        }),
{
}

} // verus!
