//! The worker's lifecycle state machine.
//!
//! The worker hosts the serving loop. It attempts to bind its address,
//! announces the outcome over the start signal exactly once, serves until a
//! stop request arrives, then drains in-flight work and exits. Its states
//! move only forward: `Unbound` to `Bound` on a successful bind, `Unbound`
//! straight to `Stopped` on a failed one, `Bound` to `Draining` only on a
//! stop request, `Draining` to `Stopped` once the drain completes. No
//! transition ever returns to `Bound`.

use vstd::prelude::*;

verus! {

/// The outcome of the worker's bind attempt, sent exactly once over the
/// start signal: the worker is serving, or could not start, with the reason.
pub enum StartResult {
    Started,
    Failed(String),
}

/// Where the worker stands in its life.
#[derive(Clone, Copy)]
pub enum WorkerState {
    /// The serving endpoint has not been acquired yet.
    Unbound,
    /// The server is bound and accepting connections.
    Bound,
    /// A stop request arrived: no new connections, in-flight work finishing.
    Draining,
    /// The worker has exited (after a drain, or right after a failed bind).
    Stopped,
}

/// What can happen to the worker.
pub enum WorkerEvent {
    /// The bind attempt acquired the address.
    BindSucceeded,
    /// The bind attempt failed, with the reason.
    BindFailed(String),
    /// The stop signal was received.
    StopRequested,
    /// All in-flight connections have completed.
    Drained,
}

/// What the worker does in response to an event.
pub enum WorkerEffect {
    /// Send this outcome over the start signal.
    AnnounceStart(StartResult),
    /// Tell the server to stop accepting and wait for the drain.
    BeginDrain,
    /// Leave the worker context.
    Exit,
}

/// An event arrived in a state where the lifecycle contract forbids it:
/// a programmer error, reported loudly rather than tolerated.
pub struct ProtocolFault;

/// The worker's transition function. `None` marks the pairs of state and
/// event that the lifecycle contract forbids.
pub open spec fn worker_step_spec(s: WorkerState, e: WorkerEvent) -> Option<(WorkerState, WorkerEffect)> {
    match (s, e) {
        (WorkerState::Unbound, WorkerEvent::BindSucceeded) => Some(
            (WorkerState::Bound, WorkerEffect::AnnounceStart(StartResult::Started)),
        ),
        (WorkerState::Unbound, WorkerEvent::BindFailed(reason)) => Some(
            (WorkerState::Stopped, WorkerEffect::AnnounceStart(StartResult::Failed(reason))),
        ),
        (WorkerState::Bound, WorkerEvent::StopRequested) => Some(
            (WorkerState::Draining, WorkerEffect::BeginDrain),
        ),
        (WorkerState::Draining, WorkerEvent::Drained) => Some(
            (WorkerState::Stopped, WorkerEffect::Exit),
        ),
        _ => None,
    }
}

/// Takes one step of the worker's state machine: the next state and the
/// effect to perform, or a fault where the contract forbids the event.
pub fn worker_step(s: WorkerState, e: WorkerEvent) -> (r: Result<(WorkerState, WorkerEffect), ProtocolFault>)
    ensures
        worker_step_spec(s, e) matches Some(t) ==> r matches Ok(u) && u == t,
        worker_step_spec(s, e) is None ==> r is Err,
{
    match (s, e) {
        (WorkerState::Unbound, WorkerEvent::BindSucceeded) => Ok(
            (WorkerState::Bound, WorkerEffect::AnnounceStart(StartResult::Started)),
        ),
        (WorkerState::Unbound, WorkerEvent::BindFailed(reason)) => Ok(
            (WorkerState::Stopped, WorkerEffect::AnnounceStart(StartResult::Failed(reason))),
        ),
        (WorkerState::Bound, WorkerEvent::StopRequested) => Ok(
            (WorkerState::Draining, WorkerEffect::BeginDrain),
        ),
        (WorkerState::Draining, WorkerEvent::Drained) => Ok(
            (WorkerState::Stopped, WorkerEffect::Exit),
        ),
        _ => Err(ProtocolFault),
    }
}

/// The serving state is entered only once, by a successful bind: no
/// transition returns to `Bound` from any later state.
pub proof fn lemma_no_return_to_bound(s: WorkerState, e: WorkerEvent)
    ensures
        (worker_step_spec(s, e) matches Some(t) && t.0 is Bound) ==> (s is Unbound && e is BindSucceeded),
{
}

/// The worker leaves the serving state only for `Draining`, and only on
/// receipt of a stop request.
pub proof fn lemma_drain_only_on_stop(s: WorkerState, e: WorkerEvent)
    ensures
        (worker_step_spec(s, e) matches Some(t) && t.0 is Draining) ==> (s is Bound && e is StopRequested),
        (s is Bound && worker_step_spec(s, e) is Some) ==> e is StopRequested,
{
}

/// `Stopped` is terminal: a stopped worker accepts no further event, so
/// nothing can be served after the drain completes.
pub proof fn lemma_stopped_is_terminal(e: WorkerEvent)
    ensures
        worker_step_spec(WorkerState::Stopped, e) is None,
{
}

/// A stop request received while serving leads, once the drain completes,
/// to the terminal state: issuing a stop is the one way the serving loop
/// ends, and it does end it.
pub proof fn lemma_stop_terminates()
    ensures
        worker_step_spec(WorkerState::Bound, WorkerEvent::StopRequested)
            == Some::<(WorkerState, WorkerEffect)>((WorkerState::Draining, WorkerEffect::BeginDrain)),
        worker_step_spec(WorkerState::Draining, WorkerEvent::Drained)
            == Some::<(WorkerState, WorkerEffect)>((WorkerState::Stopped, WorkerEffect::Exit)),
{
}

} // verus!
