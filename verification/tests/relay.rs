use phantom_hand::event::{ExitPayload, OutputEvent};
use phantom_hand::launch::SpawnOutcome;
use phantom_hand::relay::{
    dispatch, EventRelay, LogLevel, LogMessage, LogRecord, Notification, RelayAction,
    BACKEND_ERROR, BACKEND_STOPPED, EXITED_NOTE,
};
use phantom_hand::supervisor::Supervisor;

fn live_relay(pid: u32) -> EventRelay {
    let mut supervisor = Supervisor::new();
    supervisor.start(SpawnOutcome::Spawned { pid }).expect("a spawned worker starts")
}

fn clean_exit() -> ExitPayload {
    ExitPayload { code: Some(0), signal: None }
}

#[test]
fn stdout_line_is_logged_as_info_without_notification() {
    let action = dispatch(OutputEvent::StandardOutputLine("listening".to_string()));
    assert_eq!(
        action,
        RelayAction {
            log: LogRecord {
                level: LogLevel::Info,
                message: LogMessage::Line("listening".to_string()),
            },
            notification: None,
        }
    );
}

#[test]
fn stderr_line_is_logged_as_error_without_notification() {
    let action = dispatch(OutputEvent::ErrorOutputLine("warning: slow".to_string()));
    assert_eq!(
        action,
        RelayAction {
            log: LogRecord {
                level: LogLevel::Error,
                message: LogMessage::Line("warning: slow".to_string()),
            },
            notification: None,
        }
    );
}

#[test]
fn failure_is_logged_as_fatal_and_reported_with_its_description() {
    let action = dispatch(OutputEvent::LaunchFailure("broken pipe".to_string()));
    assert_eq!(
        action,
        RelayAction {
            log: LogRecord {
                level: LogLevel::Fatal,
                message: LogMessage::Line("broken pipe".to_string()),
            },
            notification: Some(Notification::BackendError("broken pipe".to_string())),
        }
    );
}

#[test]
fn exit_is_logged_and_reported_as_stopped() {
    let payload = ExitPayload { code: None, signal: Some(9) };
    let action = dispatch(OutputEvent::Terminated(payload));
    assert_eq!(
        action,
        RelayAction {
            log: LogRecord { level: LogLevel::Info, message: LogMessage::Exited(payload) },
            notification: Some(Notification::BackendStopped(payload)),
        }
    );
}

#[test]
fn notifications_go_out_under_their_event_names() {
    assert_eq!(BACKEND_ERROR, "backend-error");
    assert_eq!(BACKEND_STOPPED, "backend-stopped");
    assert_eq!(Notification::BackendError("x".to_string()).channel(), "backend-error");
    assert_eq!(Notification::BackendStopped(clean_exit()).channel(), "backend-stopped");
}

#[test]
fn log_lines_open_with_the_tag_of_their_level() {
    assert_eq!(LogLevel::Info.tag(), "[Backend] ");
    assert_eq!(LogLevel::Error.tag(), "[Backend Error] ");
    assert_eq!(LogLevel::Fatal.tag(), "[Backend Fatal] ");
    assert_eq!(EXITED_NOTE, "进程退出: ");
}

#[test]
fn only_informational_records_go_to_standard_output() {
    assert!(!LogLevel::Info.to_error_stream());
    assert!(LogLevel::Error.to_error_stream());
    assert!(LogLevel::Fatal.to_error_stream());
}

#[test]
fn relay_of_a_started_worker_is_live_and_bound_to_it() {
    let relay = live_relay(4242);
    assert_eq!(relay.worker_id(), 4242);
    assert!(!relay.is_finished());
}

#[test]
fn live_relay_answers_each_event_with_its_action() {
    let relay = live_relay(1);
    let event = OutputEvent::LaunchFailure("no such file".to_string());
    assert_eq!(relay.on_event(event.clone()), Some(dispatch(event)));
    assert!(!relay.is_finished());
}

#[test]
fn exit_event_does_not_finish_the_relay() {
    let relay = live_relay(1);
    let action = relay.on_event(OutputEvent::Terminated(clean_exit()));
    assert!(action.is_some());
    assert!(!relay.is_finished());
}

#[test]
fn closed_channel_finishes_the_relay_for_good() {
    let mut relay = live_relay(7);
    relay.on_closed();
    assert!(relay.is_finished());
    assert_eq!(relay.worker_id(), 7);
    assert_eq!(relay.on_event(OutputEvent::StandardOutputLine("late".to_string())), None);
    assert_eq!(relay.on_event(OutputEvent::Terminated(clean_exit())), None);
    assert!(relay.relay_all(vec![OutputEvent::ErrorOutputLine("late".to_string())]).is_empty());
    relay.on_closed();
    assert!(relay.is_finished());
}

#[test]
fn batch_is_relayed_in_arrival_order() {
    let relay = live_relay(1);
    let events = vec![
        OutputEvent::StandardOutputLine("one".to_string()),
        OutputEvent::ErrorOutputLine("two".to_string()),
        OutputEvent::LaunchFailure("three".to_string()),
        OutputEvent::StandardOutputLine("four".to_string()),
        OutputEvent::Terminated(clean_exit()),
    ];
    let expected: Vec<RelayAction> = events.iter().cloned().map(dispatch).collect();
    let actions = relay.relay_all(events);
    assert_eq!(actions, expected);
    let texts: Vec<LogMessage> = actions.iter().map(|a| a.log.message.clone()).collect();
    assert_eq!(
        texts,
        vec![
            LogMessage::Line("one".to_string()),
            LogMessage::Line("two".to_string()),
            LogMessage::Line("three".to_string()),
            LogMessage::Line("four".to_string()),
            LogMessage::Exited(clean_exit()),
        ]
    );
}

#[test]
fn empty_batch_gives_no_action() {
    let relay = live_relay(1);
    assert!(relay.relay_all(Vec::new()).is_empty());
}

#[test]
fn two_batches_relay_as_one() {
    let relay = live_relay(1);
    let first = vec![
        OutputEvent::StandardOutputLine("a".to_string()),
        OutputEvent::LaunchFailure("b".to_string()),
    ];
    let second = vec![OutputEvent::Terminated(clean_exit())];
    let mut both = first.clone();
    both.extend(second.iter().cloned());
    let mut in_turn = relay.relay_all(first);
    in_turn.extend(relay.relay_all(second));
    assert_eq!(in_turn, relay.relay_all(both));
}

#[test]
fn one_stopped_notification_per_exit() {
    let relay = live_relay(1);
    let actions = relay.relay_all(vec![
        OutputEvent::StandardOutputLine("a".to_string()),
        OutputEvent::Terminated(clean_exit()),
        OutputEvent::ErrorOutputLine("b".to_string()),
        OutputEvent::Terminated(ExitPayload { code: Some(1), signal: None }),
    ]);
    let stopped = actions
        .iter()
        .filter(|a| matches!(a.notification, Some(Notification::BackendStopped(_))))
        .count();
    assert_eq!(stopped, 2);
}

#[test]
fn worker_runs_prints_three_lines_and_exits() {
    let mut supervisor = Supervisor::new();
    let mut relay = supervisor
        .start(SpawnOutcome::Spawned { pid: 311 })
        .expect("a spawned worker starts");
    let mut emitted: Vec<Notification> = Vec::new();

    for line in ["starting", "loading model", "ready on 8765"] {
        let action = relay
            .on_event(OutputEvent::StandardOutputLine(line.to_string()))
            .expect("a live relay answers");
        assert_eq!(action.log.level, LogLevel::Info);
        assert_eq!(action.log.message, LogMessage::Line(line.to_string()));
        emitted.extend(action.notification);
    }
    assert!(emitted.is_empty());
    assert!(supervisor.status());

    let action = relay
        .on_event(OutputEvent::Terminated(clean_exit()))
        .expect("a live relay answers");
    emitted.extend(action.notification);
    relay.on_closed();

    assert!(relay.is_finished());
    assert_eq!(emitted, vec![Notification::BackendStopped(clean_exit())]);
    assert_eq!(emitted[0].channel(), "backend-stopped");
}
