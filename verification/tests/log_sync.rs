use p2panda_net::sync::log_sync::api::{LogSyncError, Shutdown, ShutdownAction, TaskSlot};

type Error = LogSyncError<String, String>;
use p2panda_net::sync::log_sync::{Builder, LOG_SYNC_PROTOCOL_ID};

/// Runs a shutdown to its end and returns the steps it asked for and what it reported.
fn run_shutdown(
    task_held: bool,
    stop_error: Option<&str>,
    task_error: Option<&str>,
) -> (Vec<&'static str>, Result<(), Error>) {
    let (mut shutdown, mut action) = Shutdown::<String, String>::start(task_held);
    let mut trace = Vec::new();
    loop {
        action = match action {
            ShutdownAction::StopAndWait => {
                trace.push("stop");
                shutdown.stopped(stop_error.map(|s| s.to_string()))
            }
            ShutdownAction::JoinTask => {
                trace.push("join");
                shutdown.joined(task_error.map(|s| s.to_string()))
            }
            ShutdownAction::Finish(result) => return (trace, result),
        };
    }
}

#[test]
fn shutdown_stops_then_joins_and_succeeds() {
    let (trace, result) = run_shutdown(true, None, None);
    assert_eq!(trace, vec!["stop", "join"]);
    assert!(result.is_ok());
}

#[test]
fn shutdown_joins_even_when_stopping_failed_and_reports_the_stop() {
    let (trace, result) = run_shutdown(true, Some("actor gone"), Some("task panicked"));
    assert_eq!(trace, vec!["stop", "join"]);
    match result {
        Err(LogSyncError::ActorStop(m)) => assert_eq!(m, "actor gone"),
        other => panic!("unexpected {:?}", other),
    }
}

#[test]
fn shutdown_reports_a_failed_join() {
    let (_, result) = run_shutdown(true, None, Some("task panicked"));
    match result {
        Err(LogSyncError::ActorTask(m)) => assert_eq!(m, "task panicked"),
        other => panic!("unexpected {:?}", other),
    }
}

#[test]
fn shutdown_without_task_only_stops() {
    let (trace, result) = run_shutdown(false, None, Some("never asked"));
    assert_eq!(trace, vec!["stop"]);
    assert!(result.is_ok());
    let (trace, result) = run_shutdown(false, Some("actor gone"), None);
    assert_eq!(trace, vec!["stop"]);
    assert!(matches!(result, Err(LogSyncError::ActorStop(_))));
}

#[test]
fn task_is_taken_by_the_first_shutdown_only() {
    let mut slot = TaskSlot::new(42u32);
    let (_, action, task) = Shutdown::<String, String>::start_with(&mut slot);
    assert!(matches!(action, ShutdownAction::StopAndWait));
    assert_eq!(task, Some(42));
    let (mut second, _, task) = Shutdown::<String, String>::start_with(&mut slot);
    assert_eq!(task, None);
    match second.stopped(None) {
        ShutdownAction::Finish(result) => assert!(result.is_ok()),
        _ => panic!("a shutdown without the task must not join it"),
    }
    assert_eq!(slot.take(), None);
}

#[test]
fn builder_uses_the_default_protocol_id() {
    let (id, store, endpoint, gossip) = Builder::new("store", 1u8, 2u16).into_parts();
    assert_eq!(id, b"p2panda/log_sync/v1".to_vec());
    assert_eq!(id, LOG_SYNC_PROTOCOL_ID.as_bytes().to_vec());
    assert_eq!((store, endpoint, gossip), ("store", 1u8, 2u16));
}

#[test]
fn builder_uses_the_last_named_protocol_id() {
    let (id, _, _, _) = Builder::new((), (), ())
        .protocol_id(b"lane-a")
        .protocol_id(b"lane-b")
        .into_parts();
    assert_eq!(id, b"lane-b".to_vec());
}
