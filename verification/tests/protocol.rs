use server_lifecycle::signal::OneShot;
use server_lifecycle::signal::SignalError;
use server_lifecycle::worker::worker_step;
use server_lifecycle::worker::StartResult;
use server_lifecycle::worker::WorkerEffect;
use server_lifecycle::worker::WorkerEvent;
use server_lifecycle::worker::WorkerState;

#[test]
fn one_shot_delivers_the_single_value() {
    let mut slot: OneShot<u32> = OneShot::new();
    assert!(slot.send(7).is_ok());
    assert_eq!(slot.recv().ok(), Some(7));
}

#[test]
fn one_shot_second_send_is_a_double_signal() {
    let mut slot: OneShot<u32> = OneShot::new();
    assert!(slot.send(1).is_ok());
    assert!(matches!(slot.send(2), Err(SignalError::DoubleSignal)));
    assert_eq!(slot.recv().ok(), Some(1));
}

#[test]
fn one_shot_receive_from_closed_empty_slot_fails_detectably() {
    let mut slot: OneShot<u32> = OneShot::new();
    slot.close();
    assert!(matches!(slot.recv(), Err(SignalError::ChannelClosed)));
    assert!(matches!(slot.send(3), Err(SignalError::ChannelClosed)));
}

#[test]
fn one_shot_second_receive_finds_the_slot_exhausted() {
    let mut slot: OneShot<u32> = OneShot::new();
    assert!(slot.send(9).is_ok());
    assert_eq!(slot.recv().ok(), Some(9));
    assert!(matches!(slot.recv(), Err(SignalError::ChannelClosed)));
}

#[test]
fn bind_success_starts_serving() {
    let step = worker_step(WorkerState::Unbound, WorkerEvent::BindSucceeded).ok().unwrap();
    assert!(matches!(step.0, WorkerState::Bound));
    assert!(matches!(step.1, WorkerEffect::AnnounceStart(StartResult::Started)));
}

#[test]
fn bind_failure_stops_without_serving() {
    let step = worker_step(
        WorkerState::Unbound,
        WorkerEvent::BindFailed(String::from("can't bind the address")),
    )
    .ok()
    .unwrap();
    assert!(matches!(step.0, WorkerState::Stopped));
    match step.1 {
        WorkerEffect::AnnounceStart(StartResult::Failed(reason)) => {
            assert_eq!(reason, "can't bind the address");
            assert!(!reason.is_empty());
        }
        _ => panic!("a failed bind must announce the failure"),
    }
}

#[test]
fn stop_request_then_drain_terminates_the_worker() {
    let step = worker_step(WorkerState::Bound, WorkerEvent::StopRequested).ok().unwrap();
    assert!(matches!(step.0, WorkerState::Draining));
    assert!(matches!(step.1, WorkerEffect::BeginDrain));
    let step = worker_step(step.0, WorkerEvent::Drained).ok().unwrap();
    assert!(matches!(step.0, WorkerState::Stopped));
    assert!(matches!(step.1, WorkerEffect::Exit));
}

#[test]
fn stopped_worker_accepts_no_further_event() {
    assert!(worker_step(WorkerState::Stopped, WorkerEvent::StopRequested).is_err());
    assert!(worker_step(WorkerState::Stopped, WorkerEvent::Drained).is_err());
    assert!(worker_step(WorkerState::Stopped, WorkerEvent::BindSucceeded).is_err());
}

#[test]
fn stop_request_before_serving_is_a_fault() {
    assert!(worker_step(WorkerState::Unbound, WorkerEvent::StopRequested).is_err());
    assert!(worker_step(WorkerState::Draining, WorkerEvent::StopRequested).is_err());
}
