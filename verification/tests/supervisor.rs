use phantom_hand::event::{ExitPayload, OutputEvent};
use phantom_hand::launch::{launch_spec, LaunchSpec, SpawnOutcome, PORT_FLAG, PORT_VALUE, WORKER_PROGRAM};
use phantom_hand::supervisor::{StartError, Supervisor, WorkerHandle};

#[test]
fn worker_is_launched_with_its_fixed_port() {
    assert_eq!(
        launch_spec(),
        LaunchSpec {
            program: "PhantomHandBackend".to_string(),
            args: vec!["--port".to_string(), "8765".to_string()],
        }
    );
    assert_eq!(WORKER_PROGRAM, "PhantomHandBackend");
    assert_eq!(PORT_FLAG, "--port");
    assert_eq!(PORT_VALUE, "8765");
}

#[test]
fn new_supervisor_has_no_worker() {
    let supervisor = Supervisor::new();
    assert!(!supervisor.status());
    assert_eq!(supervisor.current_worker(), None);
}

#[test]
fn status_is_true_right_after_a_successful_start() {
    let mut supervisor = Supervisor::new();
    let relay = supervisor.start(SpawnOutcome::Spawned { pid: 100 }).unwrap();
    assert!(supervisor.status());
    assert_eq!(supervisor.current_worker(), Some(WorkerHandle { pid: 100, running: true }));
    assert!(supervisor.current_worker().unwrap().is_running());
    assert_eq!(relay.worker_id(), 100);
}

#[test]
fn missing_executable_fails_the_start_and_leaves_status_false() {
    let mut supervisor = Supervisor::new();
    let result = supervisor.start(SpawnOutcome::NotLocated("No such file or directory".to_string()));
    match result {
        Err(StartError::SpawnFailed(reason)) => {
            assert_eq!(reason, "无法创建 sidecar: No such file or directory");
        }
        Ok(_) => panic!("no relay may exist after a failed start"),
    }
    assert!(!supervisor.status());
    assert_eq!(supervisor.current_worker(), None);
}

#[test]
fn refused_spawn_fails_the_start_with_its_reason() {
    let mut supervisor = Supervisor::new();
    let error = supervisor
        .start(SpawnOutcome::NotStarted("Permission denied".to_string()))
        .unwrap_err();
    assert_eq!(error, StartError::SpawnFailed("无法启动后端: Permission denied".to_string()));
    assert_eq!(error.into_reason(), "无法启动后端: Permission denied");
    assert!(!supervisor.status());
}

#[test]
fn empty_detail_leaves_the_bare_prefix() {
    let mut supervisor = Supervisor::new();
    let error = supervisor.start(SpawnOutcome::NotStarted(String::new())).unwrap_err();
    assert_eq!(error.into_reason(), "无法启动后端: ");
}

#[test]
fn status_stays_true_after_the_exit_was_relayed() {
    let mut supervisor = Supervisor::new();
    let mut relay = supervisor.start(SpawnOutcome::Spawned { pid: 5 }).unwrap();
    let action = relay.on_event(OutputEvent::Terminated(ExitPayload { code: Some(1), signal: None }));
    assert!(action.is_some());
    relay.on_closed();
    // The flag is raised by a start and not lowered by an exit.
    assert!(supervisor.status());
    assert_eq!(supervisor.current_worker(), Some(WorkerHandle { pid: 5, running: true }));
}

#[test]
fn status_stays_true_after_a_failure_was_relayed() {
    let mut supervisor = Supervisor::new();
    let relay = supervisor.start(SpawnOutcome::Spawned { pid: 5 }).unwrap();
    let action = relay.on_event(OutputEvent::LaunchFailure("crashed".to_string()));
    assert!(action.is_some());
    assert!(supervisor.status());
}

#[test]
fn restart_confirms_and_replaces_the_handle() {
    let mut supervisor = Supervisor::new();
    let first = supervisor.start(SpawnOutcome::Spawned { pid: 10 }).unwrap();
    let restarted = supervisor.restart(SpawnOutcome::Spawned { pid: 11 }).unwrap();
    assert_eq!(restarted.message, "后端已重启");
    assert_eq!(restarted.relay.worker_id(), 11);
    assert!(!restarted.relay.is_finished());
    assert!(supervisor.status());
    assert_eq!(supervisor.current_worker(), Some(WorkerHandle { pid: 11, running: true }));
    // The earlier worker was not stopped: its relay still answers.
    assert!(!first.is_finished());
    assert!(first.on_event(OutputEvent::StandardOutputLine("still here".to_string())).is_some());
}

#[test]
fn restart_without_an_earlier_start_starts_the_worker() {
    let mut supervisor = Supervisor::new();
    let restarted = supervisor.restart(SpawnOutcome::Spawned { pid: 3 }).unwrap();
    assert_eq!(restarted.relay.worker_id(), 3);
    assert!(supervisor.status());
}

#[test]
fn failed_restart_returns_the_error_and_disturbs_nothing() {
    let mut supervisor = Supervisor::new();
    let relay = supervisor.start(SpawnOutcome::Spawned { pid: 21 }).unwrap();
    let before = supervisor.current_worker();

    let error = supervisor
        .restart(SpawnOutcome::NotStarted("Text file busy".to_string()))
        .unwrap_err();
    assert_eq!(error, StartError::SpawnFailed("无法启动后端: Text file busy".to_string()));

    assert_eq!(supervisor.current_worker(), before);
    assert!(supervisor.status());
    assert!(!relay.is_finished());
    assert_eq!(relay.worker_id(), 21);
    assert!(relay.on_event(OutputEvent::StandardOutputLine("tick".to_string())).is_some());
}

#[test]
fn failed_restart_on_a_fresh_supervisor_leaves_status_false() {
    let mut supervisor = Supervisor::new();
    let error = supervisor.restart(SpawnOutcome::NotLocated("gone".to_string())).unwrap_err();
    assert_eq!(error.into_reason(), "无法创建 sidecar: gone");
    assert!(!supervisor.status());
}
