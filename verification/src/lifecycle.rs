//! The whole handshake, run end to end.
//!
//! The supervisor and the worker share exactly two one-shot slots and the
//! address string; there is no other shared state. The order of the
//! handshake is fixed: the worker attempts its bind and announces the
//! outcome, the supervisor consumes it and branches, and only on `Started`
//! does serving, the stop request, the drain and the join follow. The run
//! here walks that order once, with the bind outcome supplied by the caller
//! (the operating system decides it), and returns where both sides ended.

use vstd::prelude::*;
use vstd::pervasive::unreached;

use crate::response::RouteResponse;
use crate::response::greet;
use crate::response::hello_body;
use crate::signal::OneShot;
use crate::supervisor::Supervisor;
use crate::supervisor::StopRequest;
use crate::worker::StartResult;
use crate::worker::WorkerEffect;
use crate::worker::WorkerEvent;
use crate::worker::WorkerState;
use crate::worker::worker_step;

verus! {

/// What the supervisor reports when the start signal resolves without a
/// value: the worker's context ended before announcing its start outcome.
pub open spec fn worker_vanished_reason() -> Seq<char> {
    "the worker ended before announcing its start outcome"@
}

/// The supervisor's first blocking point: consume the start signal once it
/// has resolved, and branch. A pending `Started` puts the supervisor in
/// `Running`; a pending `Failed` hands the reason to the caller; a slot that
/// will never yield a value (the worker ended before sending) is a
/// detectable failure, reported rather than hung on, and ends the launch.
pub fn await_start(chan: &mut OneShot<StartResult>, supervisor: &mut Supervisor) -> (out: Result<(), String>)
    requires
        old(chan).resolved(),
        old(supervisor).wf(),
        old(supervisor).phase() is Launching,
    ensures
        final(supervisor).wf(),
        !final(supervisor).stop_sent(),
        old(chan).has_pending() && old(chan).pending_value() is Started ==> {
            &&& out is Ok
            &&& final(supervisor).phase() is Running
            &&& final(supervisor).started_observed()
        },
        old(chan).has_pending() ==> (old(chan).pending_value() matches StartResult::Failed(reason) ==> {
            &&& out == Err::<(), String>(reason)
            &&& final(supervisor).phase() is LaunchFailed
        }),
        !old(chan).has_pending() ==> {
            &&& out matches Err(m) && m@ == worker_vanished_reason()
            &&& final(supervisor).phase() is LaunchFailed
        },
{
    match chan.recv() {
        Ok(result) => supervisor.observe_start(result),
        Err(_) => {
            supervisor.observe_lost_worker();
            Err(String::from_str("the worker ended before announcing its start outcome"))
        },
    }
}

/// Where a completed run of the handshake ended: the final states of both
/// sides, and either the response that the running server answered with or
/// the bind failure's reason, reported to the caller.
pub struct LifecycleReport {
    pub worker: WorkerState,
    pub supervisor: Supervisor,
    pub outcome: Result<RouteResponse, String>,
}

/// Runs the lifecycle once, from spawn to termination, for the given bind
/// outcome. On a successful bind the worker serves (answering with the fixed
/// response), the supervisor requests the shutdown, the worker drains, and
/// both sides terminate. On a failed bind the reason is reported unchanged,
/// the worker has already exited, and no serving loop is left running.
pub fn run_lifecycle(bind: Result<(), String>) -> (r: LifecycleReport)
    ensures
        r.supervisor.wf(),
        r.worker is Stopped,
        bind is Ok ==> {
            &&& r.supervisor.phase() is Terminated
            &&& r.outcome matches Ok(resp) && resp.status == 200 && resp.body@ == hello_body()
        },
        bind matches Err(reason) ==> {
            &&& r.supervisor.phase() is LaunchFailed
            &&& !r.supervisor.stop_sent()
            &&& r.outcome == Err::<RouteResponse, String>(reason)
        },
{
    let mut start_chan: OneShot<StartResult> = OneShot::new();
    let mut stop_chan: OneShot<StopRequest> = OneShot::new();
    let mut supervisor = Supervisor::new();

    // Worker context: attempt the bind and announce the outcome exactly once.
    let bind_event = match bind {
        Ok(()) => WorkerEvent::BindSucceeded,
        Err(reason) => WorkerEvent::BindFailed(reason),
    };
    let (worker_state, bind_effect) = match worker_step(WorkerState::Unbound, bind_event) {
        Ok(step) => step,
        Err(_) => unreached(),
    };
    let announced = match bind_effect {
        WorkerEffect::AnnounceStart(result) => result,
        _ => unreached(),
    };
    match start_chan.send(announced) {
        Ok(()) => (),
        Err(_) => unreached(),
    }

    // Supervisor context: block on the start signal and branch on its value.
    let branch = await_start(&mut start_chan, &mut supervisor);

    match branch {
        Err(reason) => {
            // The worker exited right after sending `Failed`; the launch is
            // over and the reason goes to the caller.
            LifecycleReport { worker: worker_state, supervisor, outcome: Err(reason) }
        },
        Ok(()) => {
            // The server is up: every accepted request gets the fixed
            // response while the supervisor goes about its other work.
            let response = greet();

            // Supervisor context: request the shutdown, exactly once.
            let stop_request = match supervisor.shutdown() {
                Ok(request) => request,
                Err(_) => unreached(),
            };
            match stop_chan.send(stop_request) {
                Ok(()) => (),
                Err(_) => unreached(),
            }

            // Worker context: the stop request unblocks the loop-control
            // point; drain and exit.
            let StopRequest = match stop_chan.recv() {
                Ok(request) => request,
                Err(_) => unreached(),
            };
            let (worker_state, _drain_effect) = match worker_step(worker_state, WorkerEvent::StopRequested) {
                Ok(step) => step,
                Err(_) => unreached(),
            };
            let (worker_state, _exit_effect) = match worker_step(worker_state, WorkerEvent::Drained) {
                Ok(step) => step,
                Err(_) => unreached(),
            };

            // Supervisor context: the join returns once the worker exited.
            supervisor.observe_join();

            LifecycleReport { worker: worker_state, supervisor, outcome: Ok(response) }
        },
    }
}

} // verus!
