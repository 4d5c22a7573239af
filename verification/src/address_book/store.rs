//! Store-agnostic writes for the address book.
//!
//! The address book talks to *a* store, not a particular one. Some backends
//! make each operation atomic on their own; others hand out a transaction
//! permit that has to be taken before a write and committed after it. A
//! write against the second kind is a short protocol: begin, apply, commit,
//! stopping at the first step that fails. [`Write`] is that protocol as a
//! state machine; whoever owns the store performs the step that the machine
//! asks for and reports back what came of it.
//!
//! A write carries the store's errors as they are; [`StoreError`] is the
//! address book's own, type-erased form of such an error.
use vstd::prelude::*;

verus! {

/// What a [`StoreError`] says: the backend error's message, and the
/// messages of the errors that caused it, nearest cause first.
pub struct StoreErrorView {
    pub message: Seq<char>,
    pub causes: Seq<Seq<char>>,
}

/// Error from the address book's backing store, with the backend's own type
/// erased: its message and the messages of its chain of causes.
#[derive(Debug)]
pub struct StoreError {
    message: String,
    causes: Vec<String>,
}

/// The views of `strings`, in order.
pub open spec fn string_views(strings: Seq<String>) -> Seq<Seq<char>> {
    strings.map_values(|s: String| s@)
}

impl View for StoreError {
    type V = StoreErrorView;

    closed spec fn view(&self) -> StoreErrorView {
        StoreErrorView { message: self.message@, causes: string_views(self.causes@) }
    }
}

impl StoreError {
    /// Wraps a backend error, given by its message and the messages of its
    /// causes, nearest first.
    pub fn new(message: String, causes: Vec<String>) -> (e: Self)
        ensures
            e@.message == message@,
            e@.causes == string_views(causes@),
    {
        StoreError { message, causes }
    }

    /// The message of the wrapped error; this is what the error displays as.
    pub fn message(&self) -> (m: String)
        ensures
            m@ == self@.message,
    {
        self.message.clone()
    }

    /// The error that caused the wrapped one, if any, with its own causes.
    pub fn source(&self) -> (s: Option<StoreError>)
        ensures
            s is Some == (self@.causes.len() > 0),
            s is Some ==> s->0@.message == self@.causes[0]
                && s->0@.causes == self@.causes.drop_first(),
    {
        if self.causes.len() == 0 {
            None
        } else {
            let mut rest: Vec<String> = Vec::new();
            let mut i: usize = 1;
            while i < self.causes.len()
                invariant
                    1 <= i <= self.causes@.len(),
                    string_views(rest@) == string_views(self.causes@).subrange(1, i as int),
                decreases self.causes@.len() - i,
            {
                let ghost prev = rest@;
                rest.push(self.causes[i].clone());
                assert(rest@ == prev.push(self.causes@[i as int]));
                assert(string_views(rest@) =~= string_views(prev).push(self.causes@[i as int]@));
                assert(string_views(rest@) =~= string_views(self.causes@).subrange(1, i + 1));
                i = i + 1;
            }
            assert(string_views(self.causes@).drop_first() =~= string_views(self.causes@).subrange(
                1,
                self.causes@.len() as int,
            ));
            Some(StoreError { message: self.causes[0].clone(), causes: rest })
        }
    }
}

/// How a backing store makes a single write atomic.
#[derive(Clone, Copy, Debug, PartialEq, Eq, Structural)]
pub enum WriteMode {
    /// The store's own operations are already atomic: the write is applied as is.
    Direct,
    /// The store provides transactions: a permit is taken before the write
    /// and committed after it, one permit per write.
    Transacted,
}

/// Where a write stands.
#[derive(Clone, Copy, Debug, PartialEq, Eq, Structural)]
pub enum WritePhase {
    /// Waiting for a transaction permit.
    Beginning,
    /// Waiting for the store operation itself.
    Applying,
    /// Waiting for the permit to be committed.
    Committing,
    /// The write's result has been handed out.
    Done,
}

/// What came of the step that a [`Write`] asked for.
pub enum WriteStep<T, E> {
    /// Result of taking a transaction permit.
    Began(Result<(), E>),
    /// Result of the store operation.
    Applied(Result<T, E>),
    /// Result of committing the permit.
    Committed(Result<(), E>),
}

/// What the owner of the store is to do next for a [`Write`].
pub enum WriteAction<T, E> {
    /// Take a transaction permit.
    Begin,
    /// Run the store operation.
    Apply,
    /// Commit the permit taken for this write.
    Commit,
    /// The write is over; this is its result.
    Finish(Result<T, E>),
}

/// One write against a backing store, from start to result.
pub struct Write<T, E> {
    mode: WriteMode,
    phase: WritePhase,
    /// The operation's result, held while its permit is committed.
    applied: Option<T>,
    /// The type of the store's errors.
    error: core::marker::PhantomData<E>,
}

impl<T, E> Write<T, E> {
    pub closed spec fn mode(self) -> WriteMode {
        self.mode
    }

    pub closed spec fn phase(self) -> WritePhase {
        self.phase
    }

    pub closed spec fn applied(self) -> Option<T> {
        self.applied
    }

    /// A result is held exactly while its permit is being committed, and only
    /// a transacted write ever begins or commits.
    pub open spec fn wf(self) -> bool {
        &&& (self.applied() is Some <==> self.phase() == WritePhase::Committing)
        &&& (self.mode() == WriteMode::Direct ==> self.phase() != WritePhase::Beginning
            && self.phase() != WritePhase::Committing)
    }

    /// The step result that this write is waiting for.
    pub open spec fn expects(self, step: WriteStep<T, E>) -> bool {
        match step {
            WriteStep::Began(_) => self.phase() == WritePhase::Beginning,
            WriteStep::Applied(_) => self.phase() == WritePhase::Applying,
            WriteStep::Committed(_) => self.phase() == WritePhase::Committing,
        }
    }

    /// The fresh write and its first action.
    pub closed spec fn start_spec(mode: WriteMode) -> (Self, WriteAction<T, E>) {
        match mode {
            WriteMode::Direct => (
                Write { mode, phase: WritePhase::Applying, applied: None, error: core::marker::PhantomData },
                WriteAction::Apply,
            ),
            WriteMode::Transacted => (
                Write { mode, phase: WritePhase::Beginning, applied: None, error: core::marker::PhantomData },
                WriteAction::Begin,
            ),
        }
    }

    /// The write after taking in `step`, and what to do next.
    pub closed spec fn next_spec(self, step: WriteStep<T, E>) -> (Self, WriteAction<T, E>) {
        match step {
            WriteStep::Began(Ok(())) => (
                Write { phase: WritePhase::Applying, ..self },
                WriteAction::Apply,
            ),
            WriteStep::Applied(Ok(r)) => match self.mode {
                WriteMode::Direct => (
                    Write { phase: WritePhase::Done, ..self },
                    WriteAction::Finish(Ok(r)),
                ),
                WriteMode::Transacted => (
                    Write { phase: WritePhase::Committing, applied: Some(r), ..self },
                    WriteAction::Commit,
                ),
            },
            WriteStep::Committed(Ok(())) => (
                Write { phase: WritePhase::Done, applied: None, ..self },
                WriteAction::Finish(Ok(self.applied->0)),
            ),
            WriteStep::Began(Err(e)) | WriteStep::Applied(Err(e))
            | WriteStep::Committed(Err(e)) => (
                Write { phase: WritePhase::Done, applied: None, ..self },
                WriteAction::Finish(Err(e)),
            ),
        }
    }

    /// Starts a write: a transacted one with taking a permit, a direct one
    /// with the operation itself.
    pub fn start(mode: WriteMode) -> (res: (Self, WriteAction<T, E>))
        ensures
            res == Self::start_spec(mode),
            res.0.wf(),
            res.0.mode() == mode,
            res.0.applied() is None,
            mode == WriteMode::Direct ==> res.0.phase() == WritePhase::Applying
                && res.1 is Apply,
            mode == WriteMode::Transacted ==> res.0.phase() == WritePhase::Beginning
                && res.1 is Begin,
    {
        match mode {
            WriteMode::Direct => (
                Write { mode, phase: WritePhase::Applying, applied: None, error: core::marker::PhantomData },
                WriteAction::Apply,
            ),
            WriteMode::Transacted => (
                Write { mode, phase: WritePhase::Beginning, applied: None, error: core::marker::PhantomData },
                WriteAction::Begin,
            ),
        }
    }

    /// Whether `step` is the result this write is waiting for.
    pub fn is_expected(&self, step: &WriteStep<T, E>) -> (b: bool)
        ensures
            b == self.expects(*step),
    {
        match step {
            WriteStep::Began(_) => matches!(self.phase, WritePhase::Beginning),
            WriteStep::Applied(_) => matches!(self.phase, WritePhase::Applying),
            WriteStep::Committed(_) => matches!(self.phase, WritePhase::Committing),
        }
    }

    /// Takes in the result of the step asked for and says what to do next.
    ///
    /// The first failing step ends the write with its error; a failed
    /// operation is not committed. A transacted write hands out the
    /// operation's result only once its permit is committed.
    pub fn step(&mut self, step: WriteStep<T, E>) -> (action: WriteAction<T, E>)
        requires
            old(self).wf(),
            old(self).expects(step),
        ensures
            (*final(self), action) == old(self).next_spec(step),
            final(self).wf(),
            final(self).mode() == old(self).mode(),
            match step {
                WriteStep::Began(Ok(())) => final(self).phase() == WritePhase::Applying
                    && action is Apply,
                WriteStep::Applied(Ok(r)) => if old(self).mode() == WriteMode::Direct {
                    final(self).phase() == WritePhase::Done
                        && action == WriteAction::<T, E>::Finish(Ok(r))
                } else {
                    final(self).phase() == WritePhase::Committing
                        && final(self).applied() == Some(r)
                        && action is Commit
                },
                WriteStep::Committed(Ok(())) => final(self).phase() == WritePhase::Done
                    && action == WriteAction::<T, E>::Finish(Ok(old(self).applied()->0)),
                WriteStep::Began(Err(e)) | WriteStep::Applied(Err(e))
                | WriteStep::Committed(Err(e)) => final(self).phase() == WritePhase::Done
                    && action == WriteAction::<T, E>::Finish(Err(e)),
            },
    {
        match step {
            WriteStep::Began(Ok(())) => {
                self.phase = WritePhase::Applying;
                WriteAction::Apply
            },
            WriteStep::Applied(Ok(r)) => {
                match self.mode {
                    WriteMode::Direct => {
                        self.phase = WritePhase::Done;
                        WriteAction::Finish(Ok(r))
                    },
                    WriteMode::Transacted => {
                        self.phase = WritePhase::Committing;
                        self.applied = Some(r);
                        WriteAction::Commit
                    },
                }
            },
            WriteStep::Committed(Ok(())) => {
                self.phase = WritePhase::Done;
                let r = self.applied.take().unwrap();
                WriteAction::Finish(Ok(r))
            },
            WriteStep::Began(Err(e)) | WriteStep::Applied(Err(e))
            | WriteStep::Committed(Err(e)) => {
                self.phase = WritePhase::Done;
                self.applied = None;
                WriteAction::Finish(Err(e))
            },
        }
    }
}

/// The step result that answers `action`, taken from the results the store's
/// steps would give.
pub open spec fn answer<T, E>(
    action: WriteAction<T, E>,
    began: Result<(), E>,
    applied: Result<T, E>,
    committed: Result<(), E>,
) -> WriteStep<T, E> {
    match action {
        WriteAction::Begin => WriteStep::Began(began),
        WriteAction::Apply => WriteStep::Applied(applied),
        _ => WriteStep::Committed(committed),
    }
}

/// The actions a write asks for, at most `steps` more after `action`, when
/// each step it asks for gives the result named here.
pub open spec fn drive<T, E>(
    w: Write<T, E>,
    action: WriteAction<T, E>,
    began: Result<(), E>,
    applied: Result<T, E>,
    committed: Result<(), E>,
    steps: nat,
) -> Seq<WriteAction<T, E>>
    decreases steps,
{
    if steps == 0 || action is Finish {
        seq![action]
    } else {
        let (w2, a2) = w.next_spec(answer(action, began, applied, committed));
        seq![action] + drive(w2, a2, began, applied, committed, (steps - 1) as nat)
    }
}

/// Every action a write in `mode` asks for, from its start to its result,
/// when its permit, operation and commit give the results named here.
pub open spec fn write_trace<T, E>(
    mode: WriteMode,
    began: Result<(), E>,
    applied: Result<T, E>,
    committed: Result<(), E>,
) -> Seq<WriteAction<T, E>> {
    let (w, a) = Write::<T, E>::start_spec(mode);
    drive(w, a, began, applied, committed, 3)
}

/// The protocol of a write, step by step: a direct write runs the operation
/// and returns its result; a transacted one begins, applies, commits, and
/// stops at the first step that fails with that step's error.
pub open spec fn write_protocol<T, E>(
    mode: WriteMode,
    began: Result<(), E>,
    applied: Result<T, E>,
    committed: Result<(), E>,
) -> Seq<WriteAction<T, E>> {
    match mode {
        WriteMode::Direct => seq![WriteAction::Apply, WriteAction::Finish(applied)],
        WriteMode::Transacted => match began {
            Err(e) => seq![WriteAction::Begin, WriteAction::Finish(Err(e))],
            Ok(()) => match applied {
                Err(e) => seq![WriteAction::Begin, WriteAction::Apply, WriteAction::Finish(Err(e))],
                Ok(r) => match committed {
                    Err(e) => seq![
                        WriteAction::Begin,
                        WriteAction::Apply,
                        WriteAction::Commit,
                        WriteAction::Finish(Err(e)),
                    ],
                    Ok(()) => seq![
                        WriteAction::Begin,
                        WriteAction::Apply,
                        WriteAction::Commit,
                        WriteAction::Finish(Ok(r)),
                    ],
                },
            },
        },
    }
}

/// A write takes at most one permit, applies the operation at most once and
/// only after its permit was taken, commits only an operation that
/// succeeded, and ends with the first error or, when every step succeeds,
/// with the operation's result.
pub proof fn lemma_write_follows_protocol<T, E>(
    mode: WriteMode,
    began: Result<(), E>,
    applied: Result<T, E>,
    committed: Result<(), E>,
)
    ensures
        write_trace(mode, began, applied, committed) == write_protocol(mode, began, applied, committed),
{
    reveal_with_fuel(drive, 4);
    assert(write_trace(mode, began, applied, committed) =~= write_protocol(mode, began, applied, committed));
}

/// A write accepts the result of every step it asks for, from its start on:
/// a permit's result after `Begin`, the operation's after `Apply`, the
/// commit's after `Commit`.
pub proof fn lemma_write_accepts_answers<T, E>(
    mode: WriteMode,
    w: Write<T, E>,
    step: WriteStep<T, E>,
    began: Result<(), E>,
    applied: Result<T, E>,
    committed: Result<(), E>,
)
    requires
        w.wf(),
        w.expects(step),
    ensures
        ({
            let (w0, a0) = Write::<T, E>::start_spec(mode);
            &&& a0 is Begin ==> w0.expects(WriteStep::Began(began))
            &&& a0 is Apply ==> w0.expects(WriteStep::Applied(applied))
        }),
        ({
            let (w2, a) = w.next_spec(step);
            &&& a is Begin ==> w2.expects(WriteStep::Began(began))
            &&& a is Apply ==> w2.expects(WriteStep::Applied(applied))
            &&& a is Commit ==> w2.expects(WriteStep::Committed(committed))
        }),
{
}

/// A direct write makes exactly one call of the store operation, never
/// takes or commits a permit, and ends with the operation's own result,
/// value or error, unchanged.
pub proof fn lemma_direct_write_is_the_operation<T, E>(
    began: Result<(), E>,
    applied: Result<T, E>,
    committed: Result<(), E>,
)
    ensures
        write_trace(WriteMode::Direct, began, applied, committed)
            == seq![WriteAction::<T, E>::Apply, WriteAction::<T, E>::Finish(applied)],
        !write_trace(WriteMode::Direct, began, applied, committed).contains(WriteAction::<T, E>::Begin),
        !write_trace(WriteMode::Direct, began, applied, committed).contains(WriteAction::<T, E>::Commit),
{
    lemma_write_follows_protocol(WriteMode::Direct, began, applied, committed);
    let t = write_trace(WriteMode::Direct, began, applied, committed);
    assert(t[0] == WriteAction::<T, E>::Apply && t[1] == WriteAction::<T, E>::Finish(applied));
    assert(t.len() == 2);
}

} // verus!
