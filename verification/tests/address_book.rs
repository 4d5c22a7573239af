use p2panda_net::address_book::store::{StoreError, Write, WriteAction, WriteMode, WriteStep};
use p2panda_net::address_book::{AddressBookError, Builder};

fn err(msg: &str) -> StoreError {
    StoreError::new(msg.to_string(), Vec::new())
}

/// Runs a write to its end, answering each step with the given results, and
/// returns the actions it asked for, the result named last.
fn run_write<T: Clone>(
    mode: WriteMode,
    began: Result<(), &str>,
    applied: Result<T, &str>,
    committed: Result<(), &str>,
) -> (Vec<&'static str>, Result<T, String>) {
    let (mut write, mut action) = Write::<T, StoreError>::start(mode);
    let mut trace = Vec::new();
    loop {
        let step = match action {
            WriteAction::Begin => {
                trace.push("begin");
                WriteStep::Began(began.map_err(err))
            }
            WriteAction::Apply => {
                trace.push("apply");
                WriteStep::Applied(applied.clone().map_err(err))
            }
            WriteAction::Commit => {
                trace.push("commit");
                WriteStep::Committed(committed.map_err(err))
            }
            WriteAction::Finish(result) => {
                trace.push("finish");
                return (trace, result.map_err(|e| e.message()));
            }
        };
        assert!(write.is_expected(&step));
        action = write.step(step);
    }
}

#[test]
fn store_error_keeps_message_and_cause_chain() {
    let e = StoreError::new(
        "disk full".to_string(),
        vec!["io error".to_string(), "no space left on device".to_string()],
    );
    assert_eq!(e.message(), "disk full");
    let cause = e.source().unwrap();
    assert_eq!(cause.message(), "io error");
    let root = cause.source().unwrap();
    assert_eq!(root.message(), "no space left on device");
    assert!(root.source().is_none());
    let e = err("locked");
    assert_eq!(e.message(), "locked");
    assert!(e.source().is_none());
}

#[test]
fn direct_write_applies_once_and_returns_its_result() {
    let (trace, result) = run_write(WriteMode::Direct, Err("unused"), Ok(true), Err("unused"));
    assert_eq!(trace, vec!["apply", "finish"]);
    assert_eq!(result, Ok(true));
    let (trace, result) = run_write::<bool>(WriteMode::Direct, Ok(()), Err("no such table"), Ok(()));
    assert_eq!(trace, vec!["apply", "finish"]);
    assert_eq!(result, Err("no such table".to_string()));
}

#[test]
fn transacted_write_commits_after_a_successful_operation() {
    let (trace, result) = run_write(WriteMode::Transacted, Ok(()), Ok(7usize), Ok(()));
    assert_eq!(trace, vec!["begin", "apply", "commit", "finish"]);
    assert_eq!(result, Ok(7));
}

#[test]
fn transacted_write_stops_at_the_first_failing_step() {
    let (trace, result) = run_write::<bool>(WriteMode::Transacted, Err("busy"), Ok(true), Ok(()));
    assert_eq!(trace, vec!["begin", "finish"]);
    assert_eq!(result, Err("busy".to_string()));

    let (trace, result) = run_write::<bool>(WriteMode::Transacted, Ok(()), Err("constraint"), Ok(()));
    assert_eq!(trace, vec!["begin", "apply", "finish"]);
    assert_eq!(result, Err("constraint".to_string()));

    let (trace, result) = run_write(WriteMode::Transacted, Ok(()), Ok(()), Err("commit failed"));
    assert_eq!(trace, vec!["begin", "apply", "commit", "finish"]);
    assert_eq!(result, Err("commit failed".to_string()));
}

#[test]
fn write_accepts_only_the_step_it_asked_for() {
    let (write, _) = Write::<bool, StoreError>::start(WriteMode::Transacted);
    assert!(write.is_expected(&WriteStep::Began(Ok(()))));
    assert!(!write.is_expected(&WriteStep::Applied(Ok(true))));
    assert!(!write.is_expected(&WriteStep::Committed(Ok(()))));
    let (write, _) = Write::<bool, StoreError>::start(WriteMode::Direct);
    assert!(!write.is_expected(&WriteStep::Began(Ok(()))));
    assert!(write.is_expected(&WriteStep::Applied(Ok(true))));
}

#[test]
fn builder_spawns_with_the_given_store() {
    let builder = Builder::<u32>::new().store(3).store(5);
    assert_eq!(builder.into_store(), Some(5));
}

#[test]
fn builder_without_store_falls_back_to_the_default() {
    let builder = Builder::<u32>::new();
    assert_eq!(builder.into_store(), None);
}

#[test]
fn address_book_errors_carry_their_cause() {
    let e: AddressBookError<StoreError, String> =
        AddressBookError::Store(StoreError::new("locked".to_string(), Vec::new()));
    assert!(matches!(e, AddressBookError::Store(ref s) if s.message() == "locked"));
    let e: AddressBookError<StoreError, String> = AddressBookError::NoStore;
    assert!(matches!(e, AddressBookError::NoStore));
    let e: AddressBookError<StoreError, String> = AddressBookError::ActorSpawn("spawn failed".to_string());
    assert!(matches!(e, AddressBookError::ActorSpawn(ref m) if m == "spawn failed"));
}
