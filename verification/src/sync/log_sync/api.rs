//! Errors of the log-sync protocol and the sequence that shuts it down.
//!
//! Shutting down stops the sync manager's actor and waits until its task has
//! released the store, so that a resident process can reopen an exclusively
//! locked durable backend right after. [`Shutdown`] decides, between the two
//! awaits, what comes next and what the caller is told.
use vstd::prelude::*;

verus! {

/// Errors of the log-sync protocol, generic over the error of a failed
/// spawn (`S`) and of a failed call to the actor (`R`).
#[derive(Debug)]
pub enum LogSyncError<S, R> {
    /// Spawning the internal actor failed.
    ActorSpawn(S),
    /// Messaging with internal actor via RPC failed.
    ActorRpc(R),
    /// Stopping the internal actor failed before its resources were released.
    ActorStop(String),
    /// The actor stopped but its owning task failed before dropping state.
    ActorTask(String),
}

/// The actor's task, held until one shutdown takes it out, so that it is
/// waited for at most once however many handles share it.
pub struct TaskSlot<J> {
    task: Option<J>,
}

impl<J> TaskSlot<J> {
    /// The task still held, if no shutdown has taken it yet.
    pub closed spec fn held(self) -> Option<J> {
        self.task
    }

    /// The slot after a take, and what the take hands out.
    pub closed spec fn take_spec(self) -> (Self, Option<J>) {
        (TaskSlot { task: None }, self.held())
    }

    /// A slot holding `task`.
    pub fn new(task: J) -> (slot: Self)
        ensures
            slot.held() == Some(task),
    {
        TaskSlot { task: Some(task) }
    }

    /// Takes the task out, leaving the slot empty.
    pub fn take(&mut self) -> (task: Option<J>)
        ensures
            task == old(self).held(),
            final(self).held() is None,
            (*final(self), task) == old(self).take_spec(),
    {
        self.task.take()
    }
}

/// A task is handed out by the first take only: the slot is empty after it,
/// so any later take gives nothing.
pub proof fn lemma_task_taken_once<J>(slot: TaskSlot<J>)
    ensures
        slot.take_spec().1 == slot.held(),
        slot.take_spec().0.held() is None,
        slot.take_spec().0.take_spec().1 is None,
{
}

/// What the caller of a shutdown is told, given how stopping the actor and
/// joining its task went: a failed stop is reported over a failed join.
pub open spec fn shutdown_outcome<S, R>(stop_error: Option<String>, task_error: Option<String>) -> Result<(), LogSyncError<S, R>> {
    match stop_error {
        Some(e) => Err(LogSyncError::ActorStop(e)),
        None => match task_error {
            Some(e) => Err(LogSyncError::ActorTask(e)),
            None => Ok(()),
        },
    }
}

/// Where a shutdown stands.
#[derive(Clone, Copy, Debug, PartialEq, Eq, Structural)]
pub enum ShutdownPhase {
    /// Waiting for the actor to stop.
    Stopping,
    /// Waiting for the actor's task to finish.
    Joining,
    /// The outcome has been handed out.
    Done,
}

/// What the shutting-down side is to do next.
pub enum ShutdownAction<S, R> {
    /// Stop the actor and wait until it has stopped.
    StopAndWait,
    /// Wait for the actor's task to finish.
    JoinTask,
    /// The shutdown is over; report this.
    Finish(Result<(), LogSyncError<S, R>>),
}

/// One shutdown of the sync manager's actor, reporting errors of type
/// [`LogSyncError<S, R>`].
pub struct Shutdown<S, R> {
    phase: ShutdownPhase,
    /// Whether this shutdown took the actor's task and has to wait for it.
    task_held: bool,
    /// How stopping the actor went, once it is known.
    stop_error: Option<String>,
    /// The error types of the outcome.
    errors: core::marker::PhantomData<(S, R)>,
}

impl<S, R> Shutdown<S, R> {
    pub closed spec fn phase(self) -> ShutdownPhase {
        self.phase
    }

    pub closed spec fn task_held(self) -> bool {
        self.task_held
    }

    pub closed spec fn stop_error(self) -> Option<String> {
        self.stop_error
    }

    /// The shutdown's first step, given whether it took the actor's task
    /// (another handle may have shut down before and taken it).
    pub closed spec fn start_spec(task_held: bool) -> (Self, ShutdownAction<S, R>) {
        (
            Shutdown { phase: ShutdownPhase::Stopping, task_held, stop_error: None, errors: core::marker::PhantomData },
            ShutdownAction::StopAndWait,
        )
    }

    /// The shutdown after learning how stopping the actor went.
    pub closed spec fn stopped_spec(self, stop_error: Option<String>) -> (Self, ShutdownAction<S, R>) {
        if self.task_held {
            (Shutdown { phase: ShutdownPhase::Joining, stop_error, ..self }, ShutdownAction::JoinTask)
        } else {
            (
                Shutdown { phase: ShutdownPhase::Done, stop_error, ..self },
                ShutdownAction::Finish(shutdown_outcome(stop_error, None)),
            )
        }
    }

    /// The shutdown after learning how joining the actor's task went.
    pub closed spec fn joined_spec(self, task_error: Option<String>) -> (Self, ShutdownAction<S, R>) {
        (
            Shutdown { phase: ShutdownPhase::Done, ..self },
            ShutdownAction::Finish(shutdown_outcome(self.stop_error, task_error)),
        )
    }

    /// Starts a shutdown: the actor is stopped first.
    pub fn start(task_held: bool) -> (res: (Self, ShutdownAction<S, R>))
        ensures
            res == Self::start_spec(task_held),
            res.0.phase() == ShutdownPhase::Stopping,
            res.0.task_held() == task_held,
            res.0.stop_error() is None,
            res.1 is StopAndWait,
    {
        (
            Shutdown { phase: ShutdownPhase::Stopping, task_held, stop_error: None, errors: core::marker::PhantomData },
            ShutdownAction::StopAndWait,
        )
    }

    /// Starts a shutdown with the task taken out of `slot`: the shutdown
    /// waits for the task exactly when it got one, and the slot is left
    /// empty, so no later shutdown waits for the same task.
    pub fn start_with<J>(slot: &mut TaskSlot<J>) -> (res: (Self, ShutdownAction<S, R>, Option<J>))
        ensures
            res.2 == old(slot).held(),
            final(slot).held() is None,
            (res.0, res.1) == Self::start_spec(old(slot).held() is Some),
            res.0.task_held() == (old(slot).held() is Some),
            res.0.phase() == ShutdownPhase::Stopping,
            res.0.stop_error() is None,
            res.1 is StopAndWait,
    {
        let task = slot.take();
        let (shutdown, action) = Self::start(task.is_some());
        (shutdown, action, task)
    }

    /// Takes in how stopping the actor went. A held task is waited for even
    /// when stopping failed; without one the shutdown is over.
    pub fn stopped(&mut self, stop_error: Option<String>) -> (action: ShutdownAction<S, R>)
        requires
            old(self).phase() == ShutdownPhase::Stopping,
        ensures
            (*final(self), action) == old(self).stopped_spec(stop_error),
            final(self).stop_error() == stop_error,
            final(self).task_held() == old(self).task_held(),
            old(self).task_held() ==> final(self).phase() == ShutdownPhase::Joining
                && action is JoinTask,
            !old(self).task_held() ==> final(self).phase() == ShutdownPhase::Done
                && action == ShutdownAction::<S, R>::Finish(shutdown_outcome(stop_error, None)),
    {
        if self.task_held {
            self.phase = ShutdownPhase::Joining;
            self.stop_error = stop_error;
            ShutdownAction::JoinTask
        } else {
            self.phase = ShutdownPhase::Done;
            self.stop_error = stop_error.clone();
            ShutdownAction::Finish(Self::outcome(stop_error, None))
        }
    }

    /// Takes in how joining the actor's task went; the shutdown is over.
    pub fn joined(&mut self, task_error: Option<String>) -> (action: ShutdownAction<S, R>)
        requires
            old(self).phase() == ShutdownPhase::Joining,
        ensures
            (*final(self), action) == old(self).joined_spec(task_error),
            final(self).stop_error() == old(self).stop_error(),
            final(self).task_held() == old(self).task_held(),
            final(self).phase() == ShutdownPhase::Done,
            action == ShutdownAction::<S, R>::Finish(shutdown_outcome(old(self).stop_error(), task_error)),
    {
        self.phase = ShutdownPhase::Done;
        let stop_error = self.stop_error.clone();
        ShutdownAction::Finish(Self::outcome(stop_error, task_error))
    }

    fn outcome(stop_error: Option<String>, task_error: Option<String>) -> (r: Result<(), LogSyncError<S, R>>)
        ensures
            r == shutdown_outcome::<S, R>(stop_error, task_error),
    {
        match stop_error {
            Some(e) => Err(LogSyncError::ActorStop(e)),
            None => match task_error {
                Some(e) => Err(LogSyncError::ActorTask(e)),
                None => Ok(()),
            },
        }
    }
}

/// Every action a shutdown asks for, given whether it holds the actor's
/// task and how stopping and joining go.
pub open spec fn shutdown_trace<S, R>(
    task_held: bool,
    stop_error: Option<String>,
    task_error: Option<String>,
) -> Seq<ShutdownAction<S, R>> {
    let (s0, a0) = Shutdown::<S, R>::start_spec(task_held);
    let (s1, a1) = s0.stopped_spec(stop_error);
    if a1 is JoinTask {
        let (s2, a2) = s1.joined_spec(task_error);
        seq![a0, a1, a2]
    } else {
        seq![a0, a1]
    }
}

/// A shutdown first stops the actor and waits for it, then waits for the
/// actor's task whenever it holds it, whether or not stopping succeeded, so
/// the task has released its resources before anything is reported. A
/// failed stop is reported over a failed join; otherwise a failed join is
/// reported; otherwise the shutdown succeeds.
pub proof fn lemma_shutdown_stops_then_joins<S, R>(
    task_held: bool,
    stop_error: Option<String>,
    task_error: Option<String>,
)
    ensures
        task_held ==> shutdown_trace::<S, R>(task_held, stop_error, task_error) == seq![
            ShutdownAction::<S, R>::StopAndWait,
            ShutdownAction::JoinTask,
            ShutdownAction::Finish(shutdown_outcome(stop_error, task_error)),
        ],
        !task_held ==> shutdown_trace::<S, R>(task_held, stop_error, task_error) == seq![
            ShutdownAction::<S, R>::StopAndWait,
            ShutdownAction::Finish(shutdown_outcome(stop_error, None)),
        ],
{
}

/// Of two shutdowns that take the task from the same slot, only the first
/// waits for the task; the second stops the actor and reports how that
/// went, whatever happens to the task.
pub proof fn lemma_task_joined_by_first_shutdown_only<J, S, R>(
    slot: TaskSlot<J>,
    first_stop: Option<String>,
    first_join: Option<String>,
    second_stop: Option<String>,
    second_join: Option<String>,
)
    requires
        slot.held() is Some,
    ensures
        shutdown_trace::<S, R>(slot.take_spec().1 is Some, first_stop, first_join) == seq![
            ShutdownAction::<S, R>::StopAndWait,
            ShutdownAction::JoinTask,
            ShutdownAction::Finish(shutdown_outcome(first_stop, first_join)),
        ],
        shutdown_trace::<S, R>(slot.take_spec().0.take_spec().1 is Some, second_stop, second_join)
            == seq![
            ShutdownAction::<S, R>::StopAndWait,
            ShutdownAction::Finish(shutdown_outcome(second_stop, None)),
        ],
{
    lemma_shutdown_stops_then_joins::<S, R>(true, first_stop, first_join);
    lemma_shutdown_stops_then_joins::<S, R>(false, second_stop, second_join);
}

} // verus!
