//! The supervisor's side of the lifecycle handshake.
//!
//! The supervisor launches the worker, consumes the start signal exactly
//! once, and only after observing `Started` may it request a shutdown; it
//! then waits for the worker to terminate. A shutdown requested in any other
//! phase is a detectable programmer error, reported without touching the
//! supervisor's state.

use vstd::prelude::*;

use crate::worker::StartResult;

verus! {

/// The unit stop request, produced at most once per launched worker and
/// sent over the stop signal.
pub struct StopRequest;

/// A misuse of the supervisor, reported instead of being silently tolerated.
pub enum LifecycleError {
    /// A shutdown was requested before `Started` was observed (or after the
    /// launch had already failed).
    StopBeforeStart,
    /// A second shutdown was requested on the same handle.
    DoubleStop,
}

/// Where the supervisor stands.
#[derive(Clone, Copy)]
pub enum SupervisorPhase {
    /// The worker was spawned; the start signal has not resolved yet.
    Launching,
    /// `Started` was observed; the worker is serving.
    Running,
    /// The stop request was sent; waiting for the worker to terminate.
    Stopping,
    /// The worker terminated and was joined.
    Terminated,
    /// The start signal carried `Failed`; the worker has already exited.
    LaunchFailed,
}

/// The supervisor's record of the handshake.
pub struct Supervisor {
    phase: SupervisorPhase,
    started_observed: bool,
    stop_sent: bool,
}

impl Supervisor {
    /// The current phase.
    pub closed spec fn phase(&self) -> SupervisorPhase {
        self.phase
    }

    /// Whether `Started` has been consumed from the start signal.
    pub closed spec fn started_observed(&self) -> bool {
        self.started_observed
    }

    /// Whether the stop request has been produced.
    pub closed spec fn stop_sent(&self) -> bool {
        self.stop_sent
    }

    /// The ordering guarantee of the handshake: a stop request exists only
    /// if `Started` was consumed first.
    pub open spec fn stop_only_after_start(&self) -> bool {
        self.stop_sent() ==> self.started_observed()
    }

    /// The phases and the two flags agree.
    pub open spec fn wf(&self) -> bool {
        &&& (self.phase() is Launching ==> !self.started_observed() && !self.stop_sent())
        &&& (self.phase() is Running ==> self.started_observed() && !self.stop_sent())
        &&& (self.phase() is Stopping ==> self.started_observed() && self.stop_sent())
        &&& (self.phase() is Terminated ==> self.started_observed() && self.stop_sent())
        &&& (self.phase() is LaunchFailed ==> !self.started_observed() && !self.stop_sent())
    }

    /// A supervisor for a freshly spawned worker, waiting on the start
    /// signal.
    pub fn new() -> (s: Self)
        ensures
            s.wf(),
            s.phase() is Launching,
            !s.started_observed(),
            !s.stop_sent(),
    {
        Supervisor { phase: SupervisorPhase::Launching, started_observed: false, stop_sent: false }
    }

    /// Consumes the start signal's value and branches on it: on `Started`
    /// the supervisor is running and reports success; on `Failed` it reports
    /// the reason to the caller and the launch is over (the worker has
    /// already exited after sending `Failed`, so it is not joined further).
    pub fn observe_start(&mut self, r: StartResult) -> (out: Result<(), String>)
        requires
            old(self).wf(),
            old(self).phase() is Launching,
        ensures
            final(self).wf(),
            r is Started ==> {
                &&& out is Ok
                &&& final(self).phase() is Running
                &&& final(self).started_observed()
                &&& !final(self).stop_sent()
            },
            r matches StartResult::Failed(reason) ==> {
                &&& out == Err::<(), String>(reason)
                &&& final(self).phase() is LaunchFailed
                &&& !final(self).started_observed()
                &&& !final(self).stop_sent()
            },
    {
        match r {
            StartResult::Started => {
                self.phase = SupervisorPhase::Running;
                self.started_observed = true;
                Ok(())
            },
            StartResult::Failed(reason) => {
                self.phase = SupervisorPhase::LaunchFailed;
                Err(reason)
            },
        }
    }

    /// Requests the shutdown: exactly once, and only while running. The one
    /// legal call yields the stop request to send and moves the supervisor
    /// to `Stopping`. A call before `Started` was observed reports
    /// `StopBeforeStart`; a second call reports `DoubleStop`; in both cases
    /// the supervisor is left exactly as it was.
    pub fn shutdown(&mut self) -> (r: Result<StopRequest, LifecycleError>)
        requires
            old(self).wf(),
        ensures
            final(self).wf(),
            old(self).phase() is Running ==> {
                &&& r is Ok
                &&& final(self).phase() is Stopping
                &&& final(self).stop_sent()
                &&& final(self).started_observed()
            },
            (old(self).phase() is Launching || old(self).phase() is LaunchFailed) ==> {
                &&& r == Err::<StopRequest, LifecycleError>(LifecycleError::StopBeforeStart)
                &&& *final(self) == *old(self)
            },
            (old(self).phase() is Stopping || old(self).phase() is Terminated) ==> {
                &&& r == Err::<StopRequest, LifecycleError>(LifecycleError::DoubleStop)
                &&& *final(self) == *old(self)
            },
    {
        match self.phase {
            SupervisorPhase::Running => {
                self.phase = SupervisorPhase::Stopping;
                self.stop_sent = true;
                Ok(StopRequest)
            },
            SupervisorPhase::Launching => Err(LifecycleError::StopBeforeStart),
            SupervisorPhase::LaunchFailed => Err(LifecycleError::StopBeforeStart),
            SupervisorPhase::Stopping => Err(LifecycleError::DoubleStop),
            SupervisorPhase::Terminated => Err(LifecycleError::DoubleStop),
        }
    }

    /// Records that the start signal can never resolve to a value: the
    /// worker ended before sending it. The launch is over; the condition is
    /// surfaced to the caller rather than masked, and no stop request will
    /// ever be produced for this worker.
    pub fn observe_lost_worker(&mut self)
        requires
            old(self).wf(),
            old(self).phase() is Launching,
        ensures
            final(self).wf(),
            final(self).phase() is LaunchFailed,
            !final(self).started_observed(),
            !final(self).stop_sent(),
    {
        self.phase = SupervisorPhase::LaunchFailed;
    }

    /// The current phase, for callers outside the proof.
    pub fn current_phase(&self) -> (p: SupervisorPhase)
        ensures
            p == self.phase(),
    {
        self.phase
    }

    /// Records that the worker's context was joined after the stop request:
    /// the handshake is complete.
    pub fn observe_join(&mut self)
        requires
            old(self).wf(),
            old(self).phase() is Stopping,
        ensures
            final(self).wf(),
            final(self).phase() is Terminated,
            final(self).started_observed(),
            final(self).stop_sent(),
    {
        self.phase = SupervisorPhase::Terminated;
    }
}

/// A well-formed supervisor never has a stop request outstanding without
/// having first consumed `Started`: shutting down before the start signal
/// resolved cannot occur in the supervisor's logic.
pub proof fn lemma_stop_only_after_start(s: &Supervisor)
    requires
        s.wf(),
    ensures
        s.stop_only_after_start(),
{
}

} // verus!
