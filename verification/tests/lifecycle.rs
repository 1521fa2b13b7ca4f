use server_lifecycle::lifecycle::await_start;
use server_lifecycle::lifecycle::run_lifecycle;
use server_lifecycle::signal::OneShot;
use server_lifecycle::response::greet;
use server_lifecycle::supervisor::LifecycleError;
use server_lifecycle::supervisor::Supervisor;
use server_lifecycle::supervisor::SupervisorPhase;
use server_lifecycle::worker::StartResult;

#[test]
fn greet_answers_hello() {
    let response = greet();
    assert_eq!(response.status, 200);
    assert_eq!(response.body, "hello world");
}

#[test]
fn launch_with_good_bind_serves_and_terminates() {
    let report = run_lifecycle(Ok(()));
    assert!(matches!(report.worker, server_lifecycle::worker::WorkerState::Stopped));
    assert!(matches!(report.supervisor.current_phase(), SupervisorPhase::Terminated));
    let response = report.outcome.unwrap();
    assert_eq!(response.status, 200);
    assert_eq!(response.body, "hello world");
}

#[test]
fn launch_with_failed_bind_reports_the_reason() {
    let report = run_lifecycle(Err(String::from("address already in use")));
    assert!(matches!(report.worker, server_lifecycle::worker::WorkerState::Stopped));
    assert!(matches!(report.supervisor.current_phase(), SupervisorPhase::LaunchFailed));
    let reason = report.outcome.err().unwrap();
    assert_eq!(reason, "address already in use");
    assert!(!reason.is_empty());
}

#[test]
fn shutdown_before_start_is_rejected() {
    let mut supervisor = Supervisor::new();
    let refused = supervisor.shutdown();
    assert!(matches!(refused, Err(LifecycleError::StopBeforeStart)));
    assert!(matches!(supervisor.current_phase(), SupervisorPhase::Launching));
}

#[test]
fn shutdown_after_failed_launch_is_rejected() {
    let mut supervisor = Supervisor::new();
    let branch = supervisor.observe_start(StartResult::Failed(String::from("no permission")));
    assert_eq!(branch.err().unwrap(), "no permission");
    assert!(matches!(supervisor.current_phase(), SupervisorPhase::LaunchFailed));
    let refused = supervisor.shutdown();
    assert!(matches!(refused, Err(LifecycleError::StopBeforeStart)));
}

#[test]
fn double_shutdown_is_detected() {
    let mut supervisor = Supervisor::new();
    let branch = supervisor.observe_start(StartResult::Started);
    assert!(branch.is_ok());
    assert!(matches!(supervisor.current_phase(), SupervisorPhase::Running));
    let first = supervisor.shutdown();
    assert!(first.is_ok());
    assert!(matches!(supervisor.current_phase(), SupervisorPhase::Stopping));
    let second = supervisor.shutdown();
    assert!(matches!(second, Err(LifecycleError::DoubleStop)));
    assert!(matches!(supervisor.current_phase(), SupervisorPhase::Stopping));
}

#[test]
fn awaiting_a_started_signal_runs_the_supervisor() {
    let mut chan: OneShot<StartResult> = OneShot::new();
    assert!(chan.send(StartResult::Started).is_ok());
    let mut supervisor = Supervisor::new();
    let branch = await_start(&mut chan, &mut supervisor);
    assert!(branch.is_ok());
    assert!(matches!(supervisor.current_phase(), SupervisorPhase::Running));
}

#[test]
fn worker_lost_before_start_fails_detectably() {
    let mut chan: OneShot<StartResult> = OneShot::new();
    chan.close();
    let mut supervisor = Supervisor::new();
    let branch = await_start(&mut chan, &mut supervisor);
    assert_eq!(
        branch.err().unwrap(),
        "the worker ended before announcing its start outcome"
    );
    assert!(matches!(supervisor.current_phase(), SupervisorPhase::LaunchFailed));
    assert!(matches!(supervisor.shutdown(), Err(LifecycleError::StopBeforeStart)));
}

#[test]
fn full_supervisor_walk_ends_terminated() {
    let mut supervisor = Supervisor::new();
    let branch = supervisor.observe_start(StartResult::Started);
    assert!(branch.is_ok());
    let stop = supervisor.shutdown();
    assert!(stop.is_ok());
    supervisor.observe_join();
    assert!(matches!(supervisor.current_phase(), SupervisorPhase::Terminated));
    let late = supervisor.shutdown();
    assert!(matches!(late, Err(LifecycleError::DoubleStop)));
}
