use p2panda_net::sync::actors::poller::{
    PollerAction, PollerInput, PollerPhase, Polled, SyncPoller, ToSyncPoller,
};

/// Drives a poller through one handler invocation, with a stream that yields
/// `polled` one by one, then `stop`, then `drained` without waiting, and a
/// subscriber side whose sends succeed unless their event is in `failing`.
/// Returns the events sent, in order, and the handler's result.
fn run_handler(
    poller: &SyncPoller<(), u32>,
    phase: &mut PollerPhase,
    polled: &[u32],
    stop: Polled<u32>,
    drained: &[u32],
    failing: &[u32],
) -> (Vec<u32>, Result<(), String>) {
    let mut polled = polled.iter().copied();
    let mut drained = drained.iter().copied();
    let mut stop = Some(stop);
    let mut sent = Vec::new();
    let mut action = poller.handle(phase, PollerInput::Message(ToSyncPoller::WaitForEvent));
    loop {
        let input = match action {
            PollerAction::Poll => match polled.next() {
                Some(ev) => PollerInput::Polled(Polled::Event(ev)),
                None => PollerInput::Polled(stop.take().unwrap()),
            },
            PollerAction::Forward(ev) => {
                sent.push(ev);
                if failing.contains(&ev) {
                    PollerInput::Sent(Err("channel closed".to_string()))
                } else {
                    PollerInput::Sent(Ok(()))
                }
            }
            PollerAction::Drain => PollerInput::Drained(drained.next()),
            PollerAction::ForwardIgnoringError(ev) => {
                sent.push(ev);
                PollerInput::Drained(drained.next())
            }
            PollerAction::Return(result) => return (sent, result),
        };
        assert!(poller.is_expected(*phase, &input));
        action = poller.handle(phase, input);
    }
}

#[test]
fn pre_start_waits_for_the_first_event() {
    let poller: SyncPoller<(), u32> = SyncPoller::default();
    let (phase, message) = poller.pre_start();
    assert_eq!(phase, PollerPhase::Idle);
    assert_eq!(message, ToSyncPoller::WaitForEvent);
}

#[test]
fn every_event_is_forwarded_in_order() {
    let poller: SyncPoller<(), u32> = SyncPoller::default();
    let (mut phase, _) = poller.pre_start();
    let (sent, result) = run_handler(&poller, &mut phase, &[1, 2, 3], Polled::Finish, &[4, 5], &[]);
    assert_eq!(sent, vec![1, 2, 3, 4, 5]);
    assert_eq!(result, Ok(()));
    assert_eq!(phase, PollerPhase::Finished);
}

#[test]
fn end_of_stream_stops_polling_and_drains() {
    let poller: SyncPoller<(), u32> = SyncPoller::default();
    let (mut phase, _) = poller.pre_start();
    let (sent, result) = run_handler(&poller, &mut phase, &[9], Polled::End, &[], &[]);
    assert_eq!(sent, vec![9]);
    assert_eq!(result, Ok(()));
    assert_eq!(phase, PollerPhase::Finished);
}

#[test]
fn failed_send_while_polling_fails_the_handler() {
    let poller: SyncPoller<(), u32> = SyncPoller::default();
    let (mut phase, _) = poller.pre_start();
    let (sent, result) = run_handler(&poller, &mut phase, &[1, 2, 3], Polled::Finish, &[4], &[2]);
    assert_eq!(sent, vec![1, 2]);
    assert_eq!(result, Err("channel closed".to_string()));
    assert_eq!(phase, PollerPhase::Failed);
}

#[test]
fn failed_send_while_draining_is_ignored() {
    let poller: SyncPoller<(), u32> = SyncPoller::default();
    let (mut phase, _) = poller.pre_start();
    let (sent, result) = run_handler(&poller, &mut phase, &[], Polled::Finish, &[4, 5], &[4, 5]);
    assert_eq!(sent, vec![4, 5]);
    assert_eq!(result, Ok(()));
}

#[test]
fn repeat_invocation_has_nothing_left_to_poll() {
    let poller: SyncPoller<(), u32> = SyncPoller::default();
    let (mut phase, _) = poller.pre_start();
    let _ = run_handler(&poller, &mut phase, &[1], Polled::Finish, &[], &[]);
    assert_eq!(phase, PollerPhase::Finished);
    let action = poller.handle::<u32>(&mut phase, PollerInput::Message(ToSyncPoller::WaitForEvent));
    assert!(matches!(action, PollerAction::Return(Ok(()))));
    assert_eq!(phase, PollerPhase::Finished);
}

#[test]
fn poller_accepts_only_what_it_waits_for() {
    let poller: SyncPoller<(), u32> = SyncPoller::default();
    assert!(poller.is_expected::<u32>(PollerPhase::Idle, &PollerInput::Message(ToSyncPoller::WaitForEvent)));
    assert!(!poller.is_expected::<u32>(PollerPhase::Polling, &PollerInput::Message(ToSyncPoller::WaitForEvent)));
    assert!(!poller.is_expected::<u32>(PollerPhase::Failed, &PollerInput::Message(ToSyncPoller::WaitForEvent)));
    assert!(poller.is_expected::<u32>(PollerPhase::Polling, &PollerInput::Polled(Polled::End)));
    assert!(!poller.is_expected::<u32>(PollerPhase::Draining, &PollerInput::Sent(Ok(()))));
}

#[test]
fn events_taken_before_a_failed_send_are_each_sent_once() {
    let poller: SyncPoller<(), u32> = SyncPoller::default();
    let (mut phase, _) = poller.pre_start();
    let (sent, result) = run_handler(&poller, &mut phase, &[7, 8, 9], Polled::End, &[], &[8]);
    // 9 is never taken from the stream: the handler fails after sending 8.
    assert_eq!(sent, vec![7, 8]);
    assert!(result.is_err());
}
