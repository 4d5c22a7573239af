//! Poll the sync manager for events and forward them to all subscribers.
//!
//! The poller keeps pulling events out of the sync manager's stream, because
//! the manager only makes progress while it is polled, and hands each event
//! on to the subscribers. It stops when told to finish or when the stream
//! ends, and then still forwards whatever the stream can yield without
//! waiting, so that no event already buffered is lost.
//!
//! The awaiting itself (the race between the finish signal and the stream,
//! the send to the subscribers) belongs to whoever runs the actor. What is
//! here is every decision the poller makes between two awaits:
//! [`SyncPoller::handle`] takes what the last await produced and names the
//! next thing to do.
use vstd::prelude::*;

verus! {

/// Messages the poller handles.
#[derive(Clone, Copy, Debug, PartialEq, Eq, Structural)]
pub enum ToSyncPoller {
    /// Wait for an event from the sync manager.
    WaitForEvent,
}

/// The actor that polls the sync manager's event stream.
pub struct SyncPoller<S, Ev> {
    _marker: core::marker::PhantomData<(S, Ev)>,
}

impl<S, Ev> Default for SyncPoller<S, Ev> {
    fn default() -> (poller: Self) {
        SyncPoller { _marker: core::marker::PhantomData }
    }
}

/// Where the poller stands.
#[derive(Clone, Copy, Debug, PartialEq, Eq, Structural)]
pub enum PollerPhase {
    /// Started; the message that starts polling has not been handled yet.
    Idle,
    /// Waiting for either the finish signal or the next event of the stream.
    Polling,
    /// An event is being sent to the subscribers.
    Forwarding,
    /// Stopped waiting; forwarding what the stream yields without waiting.
    Draining,
    /// Done: the stream has nothing more to give this poller.
    Finished,
    /// Sending to the subscribers failed while polling; the handler failed.
    Failed,
}

/// What the race between the finish signal and the stream produced. Which
/// of the two wins when both are ready is up to whoever runs the race; the
/// poller stops on the signal either way.
pub enum Polled<T> {
    /// The finish signal arrived, or its sender is gone.
    Finish,
    /// The stream yielded an event.
    Event(T),
    /// The stream ended.
    End,
}

/// What the last await of the handler produced.
pub enum PollerInput<T> {
    /// A message reached the handler.
    Message(ToSyncPoller),
    /// The race between the finish signal and the stream was decided.
    Polled(Polled<T>),
    /// Sending an event to the subscribers succeeded, or failed with this message.
    Sent(Result<(), String>),
    /// The stream, polled once without waiting, yielded this event, or
    /// nothing (because it had nothing ready or has ended).
    Drained(Option<T>),
}

/// What the handler is to do next.
pub enum PollerAction<T> {
    /// Race the finish signal against the next event of the stream.
    Poll,
    /// Send this event to the subscribers and report how that went.
    Forward(T),
    /// Poll the stream once without waiting and report what it yielded.
    Drain,
    /// Send this event to the subscribers, ignore whether that worked, and
    /// drain again.
    ForwardIgnoringError(T),
    /// Return from the handler with this result.
    Return(Result<(), String>),
}

/// Whether `input` is what the poller in `phase` is waiting for.
pub open spec fn expects<T>(phase: PollerPhase, input: PollerInput<T>) -> bool {
    match input {
        PollerInput::Message(_) => phase == PollerPhase::Idle || phase == PollerPhase::Finished,
        PollerInput::Polled(_) => phase == PollerPhase::Polling,
        PollerInput::Sent(_) => phase == PollerPhase::Forwarding,
        PollerInput::Drained(_) => phase == PollerPhase::Draining,
    }
}

/// The poller's next phase and action after `input`.
///
/// A first message starts polling; a message after the poller finished has
/// nothing left to poll and returns at once. Each event is forwarded before
/// the stream is polled again, and a failed send while polling fails the
/// handler. The finish signal or the end of the stream stops the waiting;
/// the events the stream still yields without waiting are then forwarded,
/// their send errors ignored (subscribers may already be gone), and the
/// handler returns successfully once nothing more is ready.
pub open spec fn poll_next<T>(phase: PollerPhase, input: PollerInput<T>) -> (PollerPhase, PollerAction<T>) {
    match input {
        PollerInput::Message(_) => if phase == PollerPhase::Idle {
            (PollerPhase::Polling, PollerAction::Poll)
        } else {
            (phase, PollerAction::Return(Ok(())))
        },
        PollerInput::Polled(Polled::Event(ev)) => (PollerPhase::Forwarding, PollerAction::Forward(ev)),
        PollerInput::Polled(_) => (PollerPhase::Draining, PollerAction::Drain),
        PollerInput::Sent(Ok(())) => (PollerPhase::Polling, PollerAction::Poll),
        PollerInput::Sent(Err(msg)) => (PollerPhase::Failed, PollerAction::Return(Err(msg))),
        PollerInput::Drained(Some(ev)) => (PollerPhase::Draining, PollerAction::ForwardIgnoringError(ev)),
        PollerInput::Drained(None) => (PollerPhase::Finished, PollerAction::Return(Ok(()))),
    }
}

impl<S, Ev> SyncPoller<S, Ev> {
    /// The poller's state when it starts, and the message it sends itself to
    /// wait for the first event of the stream.
    pub fn pre_start(&self) -> (res: (PollerPhase, ToSyncPoller))
        ensures
            res == (PollerPhase::Idle, ToSyncPoller::WaitForEvent),
    {
        (PollerPhase::Idle, ToSyncPoller::WaitForEvent)
    }

    /// Whether `input` is what the poller in `phase` is waiting for.
    pub fn is_expected<T>(&self, phase: PollerPhase, input: &PollerInput<T>) -> (b: bool)
        ensures
            b == expects(phase, *input),
    {
        match input {
            PollerInput::Message(_) => matches!(phase, PollerPhase::Idle | PollerPhase::Finished),
            PollerInput::Polled(_) => matches!(phase, PollerPhase::Polling),
            PollerInput::Sent(_) => matches!(phase, PollerPhase::Forwarding),
            PollerInput::Drained(_) => matches!(phase, PollerPhase::Draining),
        }
    }

    /// Takes in what the handler's last await produced, moves the poller on
    /// and names the next thing to do.
    pub fn handle<T>(&self, phase: &mut PollerPhase, input: PollerInput<T>) -> (action: PollerAction<T>)
        requires
            expects(*old(phase), input),
        ensures
            (*final(phase), action) == poll_next(*old(phase), input),
    {
        match input {
            PollerInput::Message(_) => {
                match *phase {
                    PollerPhase::Idle => {
                        *phase = PollerPhase::Polling;
                        PollerAction::Poll
                    },
                    _ => PollerAction::Return(Ok(())),
                }
            },
            PollerInput::Polled(Polled::Event(ev)) => {
                *phase = PollerPhase::Forwarding;
                PollerAction::Forward(ev)
            },
            PollerInput::Polled(_) => {
                *phase = PollerPhase::Draining;
                PollerAction::Drain
            },
            PollerInput::Sent(Ok(())) => {
                *phase = PollerPhase::Polling;
                PollerAction::Poll
            },
            PollerInput::Sent(Err(msg)) => {
                *phase = PollerPhase::Failed;
                PollerAction::Return(Err(msg))
            },
            PollerInput::Drained(Some(ev)) => {
                PollerAction::ForwardIgnoringError(ev)
            },
            PollerInput::Drained(None) => {
                *phase = PollerPhase::Finished;
                PollerAction::Return(Ok(()))
            },
        }
    }
}

/// The phase reached and the actions named when the poller in `phase` takes
/// in `inputs` one after the other.
pub open spec fn poller_run<T>(phase: PollerPhase, inputs: Seq<PollerInput<T>>) -> (PollerPhase, Seq<PollerAction<T>>)
    decreases inputs.len(),
{
    if inputs.len() == 0 {
        (phase, Seq::empty())
    } else {
        let (p1, a) = poll_next(phase, inputs[0]);
        let (p2, rest) = poller_run(p1, inputs.drop_first());
        (p2, seq![a] + rest)
    }
}

/// What the handler reports while the stream yields `events` and every send succeeds.
pub open spec fn polling_inputs<T>(events: Seq<T>) -> Seq<PollerInput<T>>
    decreases events.len(),
{
    if events.len() == 0 {
        Seq::empty()
    } else {
        seq![PollerInput::Polled(Polled::Event(events[0])), PollerInput::Sent(Ok(()))]
            + polling_inputs(events.drop_first())
    }
}

/// Each of `events` forwarded, each followed by polling again.
pub open spec fn polling_actions<T>(events: Seq<T>) -> Seq<PollerAction<T>>
    decreases events.len(),
{
    if events.len() == 0 {
        Seq::empty()
    } else {
        seq![PollerAction::Forward(events[0]), PollerAction::Poll] + polling_actions(events.drop_first())
    }
}

/// What the handler reports while the stream yields `events` without waiting.
pub open spec fn draining_inputs<T>(events: Seq<T>) -> Seq<PollerInput<T>> {
    events.map_values(|ev: T| PollerInput::Drained(Some(ev)))
}

/// Each of `events` forwarded, its send error ignored.
pub open spec fn draining_actions<T>(events: Seq<T>) -> Seq<PollerAction<T>> {
    events.map_values(|ev: T| PollerAction::ForwardIgnoringError(ev))
}

/// Taking in two runs of inputs one after the other is the same as taking in
/// their concatenation.
pub proof fn lemma_poller_run_append<T>(phase: PollerPhase, a: Seq<PollerInput<T>>, b: Seq<PollerInput<T>>)
    ensures
        poller_run(phase, a + b) == ({
            let (p1, x) = poller_run(phase, a);
            let (p2, y) = poller_run(p1, b);
            (p2, x + y)
        }),
    decreases a.len(),
{
    if a.len() == 0 {
        assert(a + b =~= b);
        assert(Seq::<PollerAction<T>>::empty() + poller_run(phase, b).1 =~= poller_run(phase, b).1);
    } else {
        let (p1, act) = poll_next(phase, a[0]);
        assert((a + b).drop_first() =~= a.drop_first() + b);
        lemma_poller_run_append(p1, a.drop_first(), b);
        let (q1, x) = poller_run(p1, a.drop_first());
        let (q2, y) = poller_run(q1, b);
        assert(seq![act] + (x + y) =~= (seq![act] + x) + y);
    }
}

/// While polling, each event the stream yields is forwarded and the stream
/// polled again.
pub proof fn lemma_polling_forwards_each_event<T>(events: Seq<T>)
    ensures
        poller_run(PollerPhase::Polling, polling_inputs(events))
            == (PollerPhase::Polling, polling_actions(events)),
    decreases events.len(),
{
    if events.len() > 0 {
        let head = seq![PollerInput::Polled(Polled::Event(events[0])), PollerInput::<T>::Sent(Ok(()))];
        lemma_poller_run_append(PollerPhase::Polling, head, polling_inputs(events.drop_first()));
        lemma_polling_forwards_each_event(events.drop_first());
        reveal_with_fuel(poller_run, 3);
        assert(head.drop_first().drop_first() =~= Seq::<PollerInput<T>>::empty());
        assert(poller_run(PollerPhase::Polling, head) == (
            PollerPhase::Polling,
            seq![PollerAction::Forward(events[0]), PollerAction::<T>::Poll],
        )) by {
            assert(head[0] == PollerInput::Polled(Polled::Event(events[0])));
            assert(head.drop_first()[0] == PollerInput::<T>::Sent(Ok(())));
            assert(seq![PollerAction::<T>::Poll] + Seq::<PollerAction<T>>::empty() =~= seq![PollerAction::<T>::Poll]);
            assert(seq![PollerAction::Forward(events[0])] + seq![PollerAction::<T>::Poll]
                =~= seq![PollerAction::Forward(events[0]), PollerAction::<T>::Poll]);
        }
    }
}

/// While draining, each event the stream yields without waiting is forwarded.
pub proof fn lemma_draining_forwards_each_event<T>(events: Seq<T>)
    ensures
        poller_run(PollerPhase::Draining, draining_inputs(events))
            == (PollerPhase::Draining, draining_actions(events)),
    decreases events.len(),
{
    if events.len() > 0 {
        assert(draining_inputs(events).drop_first() =~= draining_inputs(events.drop_first()));
        lemma_draining_forwards_each_event(events.drop_first());
        assert(draining_actions(events) =~= seq![PollerAction::ForwardIgnoringError(events[0])]
            + draining_actions(events.drop_first()));
    } else {
        assert(draining_inputs(events) =~= Seq::<PollerInput<T>>::empty());
        assert(draining_actions(events) =~= Seq::<PollerAction<T>>::empty());
    }
}

/// No event is lost: from the first message until the finish signal or the
/// end of the stream (`stop`), every event the stream yields is forwarded in
/// the order it came, then every event it still yields without waiting, and
/// the handler returns successfully with the poller finished.
pub proof fn lemma_poller_forwards_every_event<T>(polled: Seq<T>, stop: Polled<T>, drained: Seq<T>)
    requires
        !(stop is Event),
    ensures
        poller_run(
            PollerPhase::Idle,
            seq![PollerInput::Message(ToSyncPoller::WaitForEvent)] + polling_inputs(polled)
                + seq![PollerInput::Polled(stop)] + draining_inputs(drained)
                + seq![PollerInput::Drained(None)],
        ) == (
            PollerPhase::Finished,
            seq![PollerAction::Poll] + polling_actions(polled) + seq![PollerAction::Drain]
                + draining_actions(drained) + seq![PollerAction::Return(Ok(()))],
        ),
{
    let m = seq![PollerInput::<T>::Message(ToSyncPoller::WaitForEvent)];
    let pi = polling_inputs(polled);
    let s = seq![PollerInput::Polled(stop)];
    let di = draining_inputs(drained);
    let e = seq![PollerInput::<T>::Drained(None)];
    lemma_poller_run_append(PollerPhase::Idle, m + pi + s + di, e);
    lemma_poller_run_append(PollerPhase::Idle, m + pi + s, di);
    lemma_poller_run_append(PollerPhase::Idle, m + pi, s);
    lemma_poller_run_append(PollerPhase::Idle, m, pi);
    lemma_polling_forwards_each_event(polled);
    lemma_draining_forwards_each_event(drained);
    reveal_with_fuel(poller_run, 2);
    assert(m.drop_first() =~= Seq::<PollerInput<T>>::empty());
    assert(s.drop_first() =~= Seq::<PollerInput<T>>::empty());
    assert(e.drop_first() =~= Seq::<PollerInput<T>>::empty());
    assert(poller_run(PollerPhase::Idle, m).1 =~= seq![PollerAction::<T>::Poll]);
    assert(poller_run(PollerPhase::Polling, s).1 =~= seq![PollerAction::<T>::Drain]);
    assert(poller_run(PollerPhase::Draining, e).1 =~= seq![PollerAction::<T>::Return(Ok(()))]);
}

/// Once finished, the poller stays finished: each further message is
/// accepted and returns at once, and nothing is polled or forwarded again.
pub proof fn lemma_finished_poller_stays_finished<T>(messages: Seq<ToSyncPoller>)
    ensures
        forall|i: int| 0 <= i < messages.len()
            ==> #[trigger] expects::<T>(PollerPhase::Finished, PollerInput::Message(messages[i])),
        poller_run(PollerPhase::Finished, messages.map_values(|m: ToSyncPoller| PollerInput::<T>::Message(m)))
            == (
            PollerPhase::Finished,
            messages.map_values(|m: ToSyncPoller| PollerAction::<T>::Return(Ok(()))),
        ),
    decreases messages.len(),
{
    let inputs = messages.map_values(|m: ToSyncPoller| PollerInput::<T>::Message(m));
    let actions = messages.map_values(|m: ToSyncPoller| PollerAction::<T>::Return(Ok(())));
    if messages.len() == 0 {
        assert(inputs =~= Seq::<PollerInput<T>>::empty());
        assert(actions =~= Seq::<PollerAction<T>>::empty());
    } else {
        lemma_finished_poller_stays_finished::<T>(messages.drop_first());
        assert(inputs.drop_first() =~= messages.drop_first().map_values(
            |m: ToSyncPoller| PollerInput::<T>::Message(m),
        ));
        assert(actions =~= seq![PollerAction::<T>::Return(Ok(()))] + messages.drop_first().map_values(
            |m: ToSyncPoller| PollerAction::<T>::Return(Ok(())),
        ));
    }
}

/// The events that `actions` send to the subscribers, in order.
pub open spec fn forwarded<T>(actions: Seq<PollerAction<T>>) -> Seq<T>
    decreases actions.len(),
{
    if actions.len() == 0 {
        Seq::empty()
    } else {
        let head = match actions[0] {
            PollerAction::Forward(ev) => seq![ev],
            PollerAction::ForwardIgnoringError(ev) => seq![ev],
            _ => Seq::empty(),
        };
        head + forwarded(actions.drop_first())
    }
}

/// The events that `inputs` report as taken from the stream, in order.
pub open spec fn taken<T>(inputs: Seq<PollerInput<T>>) -> Seq<T>
    decreases inputs.len(),
{
    if inputs.len() == 0 {
        Seq::empty()
    } else {
        let head = match inputs[0] {
            PollerInput::Polled(Polled::Event(ev)) => seq![ev],
            PollerInput::Drained(Some(ev)) => seq![ev],
            _ => Seq::empty(),
        };
        head + taken(inputs.drop_first())
    }
}

/// Whatever happens along the way (a failed send, the finish signal, the
/// end of the stream), every event taken from the stream is sent to the
/// subscribers exactly once, in the order it was taken, and nothing else is
/// sent.
pub proof fn lemma_poller_forwards_what_it_takes<T>(phase: PollerPhase, inputs: Seq<PollerInput<T>>)
    ensures
        forwarded(poller_run(phase, inputs).1) == taken(inputs),
    decreases inputs.len(),
{
    if inputs.len() > 0 {
        let (p1, a) = poll_next(phase, inputs[0]);
        lemma_poller_forwards_what_it_takes(p1, inputs.drop_first());
        let actions = poller_run(phase, inputs).1;
        assert(actions[0] == a);
        assert(actions.drop_first() =~= poller_run(p1, inputs.drop_first()).1);
    } else {
        assert(poller_run(phase, inputs).1 =~= Seq::<PollerAction<T>>::empty());
    }
}

/// The poller accepts every answer to what it asked for: after polling, any
/// outcome of the race; after a forward, any send result; after a drain or
/// a forward whose error is ignored, anything the stream yields without
/// waiting; and after returning successfully, any further message.
pub proof fn lemma_poller_accepts_answers<T>(
    phase: PollerPhase,
    input: PollerInput<T>,
    polled: Polled<T>,
    sent: Result<(), String>,
    drained: Option<T>,
    m: ToSyncPoller,
)
    requires
        expects(phase, input),
    ensures
        ({
            let (next, action) = poll_next(phase, input);
            &&& action is Poll ==> expects(next, PollerInput::Polled(polled))
            &&& action is Forward ==> expects(next, PollerInput::<T>::Sent(sent))
            &&& (action is Drain || action is ForwardIgnoringError) ==> expects(
                next,
                PollerInput::Drained(drained),
            )
            &&& action == PollerAction::<T>::Return(Ok(())) ==> expects(next, PollerInput::<T>::Message(m))
        }),
{
}

/// A repeat invocation has nothing left to poll: a finished poller accepts
/// every further message and answers it by returning `Ok(())` at once,
/// staying finished and neither polling nor forwarding anything.
pub proof fn lemma_finished_poller_accepts_messages<T>(m: ToSyncPoller)
    ensures
        expects::<T>(PollerPhase::Finished, PollerInput::Message(m)),
        poll_next::<T>(PollerPhase::Finished, PollerInput::Message(m))
            == (PollerPhase::Finished, PollerAction::<T>::Return(Ok(()))),
{
}

/// After a complete run (the first message, the events polled, the finish
/// signal or the end of the stream, the events drained), a further message
/// is accepted and returns `Ok(())` at once.
pub proof fn lemma_repeat_invocation_returns_at_once<T>(
    polled: Seq<T>,
    stop: Polled<T>,
    drained: Seq<T>,
    m: ToSyncPoller,
)
    requires
        !(stop is Event),
    ensures
        ({
            let end = poller_run(
                PollerPhase::Idle,
                seq![PollerInput::Message(ToSyncPoller::WaitForEvent)] + polling_inputs(polled)
                    + seq![PollerInput::Polled(stop)] + draining_inputs(drained)
                    + seq![PollerInput::Drained(None)],
            ).0;
            &&& expects::<T>(end, PollerInput::Message(m))
            &&& poll_next::<T>(end, PollerInput::Message(m))
                == (PollerPhase::Finished, PollerAction::<T>::Return(Ok(())))
        }),
{
    lemma_poller_forwards_every_event(polled, stop, drained);
    lemma_finished_poller_accepts_messages::<T>(m);
}

} // verus!
