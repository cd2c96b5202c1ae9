//! The acquire/release protocol over a conditionally writable lock store,
//! and the session that carries one task from its first poll to its outcome.
//!
//! The session decides; its caller performs. Each call of `TaskSession::step`
//! takes what the last action produced and returns the next action: read the
//! lock record, sleep, write the record conditionally, run the effect against
//! the object store, clear the record's `processing` flag, or finish.
use crate::image_task::{grayscale_of, grayscale, ImageTask, TaskType};
use crate::s3_sequencer::{sequencer_cmp, S3Sequencer};
use std::cmp::Ordering;
use vstd::prelude::*;

verus! {

/// A record of the lock store: the task that last acquired the lock for its
/// object, with `processing` true while that holder runs its effect.
pub type LockRecord = ImageTask;

/// Why a task failed.
#[derive(Debug, Clone, Copy, PartialEq, Eq, Structural)]
pub enum TaskError {
    /// The lock could not be acquired within the time budget.
    LockTimeout,
    /// The lock store or the object store failed.
    StoreUnavailable,
    /// The effect itself failed, for instance on bytes that do not decode.
    EffectFailed,
    /// The caller reported an event that the session was not waiting for.
    UnexpectedEvent,
}

/// How a task ended without error.
#[derive(Debug, Clone, Copy, PartialEq, Eq, Structural)]
pub enum Completion {
    /// The lock was acquired, the effect applied and the lock released.
    Executed,
    /// The notification was superseded by work already done or in flight.
    SkippedStale,
}

/// Where a session stands.
#[derive(Debug, Clone, Copy)]
pub enum Stage {
    /// About to check the time budget.
    Polling,
    /// Waiting for the lock record.
    Reading,
    /// Waiting out the retry interval.
    Sleeping,
    /// Waiting for the conditional write of the lock record.
    Writing,
    /// Lock held; waiting for the source object's bytes.
    ReadingInput,
    /// Lock held; waiting for the destination object to be written.
    WritingOutput,
    /// Lock held; waiting for the destination object to be deleted.
    Deleting,
    /// Waiting for `processing` to be cleared; holds the effect's error, if any.
    Releasing(Option<TaskError>),
    /// Done.
    Finished(Result<Completion, TaskError>),
}

/// What the caller observed while performing the last action.
#[derive(Debug, Clone)]
pub enum Event {
    /// The time elapsed since the session started, in the unit of the budget.
    Clock(u64),
    /// The lock record for the task's object, read with strong consistency.
    Record(Option<LockRecord>),
    /// The conditional write succeeded.
    PutDone,
    /// The conditional write found a record whose `processing` is true.
    PutConflict,
    /// The retry interval has passed.
    Woke,
    /// The source object's bytes.
    InputRead(Vec<u8>),
    /// The destination object was written.
    OutputWritten,
    /// The destination object was deleted.
    OutputDeleted,
    /// The destination object was already absent.
    OutputAbsent,
    /// `processing` was cleared.
    Released,
    /// A store operation failed.
    StoreFailed,
    /// The effect failed or was aborted.
    EffectFailed,
}

/// What the caller is to do next.
#[derive(Debug, Clone)]
pub enum Action {
    /// Measure the time elapsed since the session started and report `Clock`.
    CheckClock,
    /// Read the lock record of the task's object with strong consistency.
    ReadRecord,
    /// Sleep for the given interval and report `Woke`.
    Sleep(u64),
    /// Write the task as the lock record, on condition that no record exists
    /// or that the existing one has `processing` false.
    PutRecord,
    /// Read the source object.
    ReadInput,
    /// Write these bytes to the destination object.
    WriteOutput(Vec<u8>),
    /// Delete the destination object.
    DeleteOutput,
    /// Set `processing` to false on the lock record, leaving the rest.
    ClearProcessing,
    /// Stop: the outcome is in the session.
    Finish,
}

/// The decision taken on a lock record that was read.
#[derive(Debug, Clone, Copy, PartialEq, Eq, Structural)]
pub enum ReadDecision {
    /// The task's token is not newer than the stored one: skip the task.
    Stale,
    /// A newer task's holder is still at work: wait and poll again.
    Wait,
    /// Try to take the lock.
    Write,
}

/// A token is stale against a stored one when it orders before or equal to it.
pub open spec fn is_stale(token: S3Sequencer, stored: S3Sequencer) -> bool {
    sequencer_cmp(token, stored) == Some(Ordering::Less)
        || sequencer_cmp(token, stored) == Some(Ordering::Equal)
}

/// The decision for `task` on the record read for its object. The stale
/// check comes before the check for a holder at work.
pub open spec fn read_decision_spec(task: ImageTask, record: Option<LockRecord>) -> ReadDecision {
    match record {
        None => ReadDecision::Write,
        Some(r) => if is_stale(task.sequencer, r.sequencer) {
            ReadDecision::Stale
        } else if r.processing {
            ReadDecision::Wait
        } else {
            ReadDecision::Write
        },
    }
}

/// Decides what to do on the lock record read for the task's object.
pub fn read_decision(task: &ImageTask, record: &Option<LockRecord>) -> (r: ReadDecision)
    ensures
        r == read_decision_spec(*task, *record),
{
    match record {
        None => ReadDecision::Write,
        Some(rec) => {
            let stale = match task.sequencer.partial_cmp(&rec.sequencer) {
                Some(Ordering::Less) => true,
                Some(Ordering::Equal) => true,
                _ => false,
            };
            if stale {
                ReadDecision::Stale
            } else if rec.processing {
                ReadDecision::Wait
            } else {
                ReadDecision::Write
            }
        },
    }
}

/// The stage at which the effect of a task with the given kind starts.
pub open spec fn effect_stage(kind: TaskType) -> Stage {
    match kind {
        TaskType::Grayscale => Stage::ReadingInput,
        TaskType::Delete => Stage::Deleting,
    }
}

/// Whether the session holds the lock and runs its effect.
pub open spec fn in_effect(s: Stage) -> bool {
    s is ReadingInput || s is WritingOutput || s is Deleting
}

/// Whether the session has not yet acquired the lock.
pub open spec fn acquiring(s: Stage) -> bool {
    s is Polling || s is Reading || s is Sleeping || s is Writing
}

/// The error an effect stage records on an event other than the one it
/// waits for.
pub open spec fn effect_error_of(e: Event) -> TaskError {
    if e is StoreFailed {
        TaskError::StoreUnavailable
    } else {
        TaskError::EffectFailed
    }
}

/// The outcome once `processing` was cleared, given the effect's error.
pub open spec fn released_outcome(pending: Option<TaskError>) -> Result<Completion, TaskError> {
    match pending {
        Some(e) => Err(e),
        None => Ok(Completion::Executed),
    }
}

/// The outcome when clearing `processing` failed: the effect's error comes
/// first.
pub open spec fn release_failed_outcome(pending: Option<TaskError>) -> Result<Completion, TaskError> {
    match pending {
        Some(e) => Err(e),
        None => Err(TaskError::StoreUnavailable),
    }
}

/// A session for one task: the protocol's state and its configuration.
pub struct TaskSession {
    pub task: ImageTask,
    /// The time budget for acquiring the lock.
    pub timeout: u64,
    /// The interval between two polls of a busy lock.
    pub retry_interval: u64,
    pub stage: Stage,
}

/// One move of the protocol: from `stage`, on `event`, the session for
/// `task` goes to `next` and asks for `action`.
pub open spec fn step_spec(
    task: ImageTask,
    timeout: u64,
    interval: u64,
    stage: Stage,
    event: Event,
    next: Stage,
    action: Action,
) -> bool {
    match stage {
        Stage::Polling => match event {
            Event::Clock(elapsed) => if elapsed > timeout {
                next == Stage::Finished(Err(TaskError::LockTimeout)) && action is Finish
            } else {
                next == Stage::Reading && action is ReadRecord
            },
            Event::StoreFailed => next == Stage::Finished(Err(TaskError::StoreUnavailable))
                && action is Finish,
            _ => next == Stage::Finished(Err(TaskError::UnexpectedEvent)) && action is Finish,
        },
        Stage::Reading => match event {
            Event::Record(rec) => match read_decision_spec(task, rec) {
                ReadDecision::Stale => next == Stage::Finished(Ok(Completion::SkippedStale))
                    && action is Finish,
                ReadDecision::Wait => next == Stage::Sleeping && action == Action::Sleep(interval),
                ReadDecision::Write => next == Stage::Writing && action is PutRecord,
            },
            Event::StoreFailed => next == Stage::Finished(Err(TaskError::StoreUnavailable))
                && action is Finish,
            _ => next == Stage::Finished(Err(TaskError::UnexpectedEvent)) && action is Finish,
        },
        Stage::Sleeping => match event {
            Event::Woke => next == Stage::Polling && action is CheckClock,
            _ => next == Stage::Finished(Err(TaskError::UnexpectedEvent)) && action is Finish,
        },
        Stage::Writing => match event {
            Event::PutDone => next == effect_stage(task.task_type) && match task.task_type {
                TaskType::Grayscale => action is ReadInput,
                TaskType::Delete => action is DeleteOutput,
            },
            Event::PutConflict => next == Stage::Sleeping && action == Action::Sleep(interval),
            Event::StoreFailed => next == Stage::Finished(Err(TaskError::StoreUnavailable))
                && action is Finish,
            _ => next == Stage::Finished(Err(TaskError::UnexpectedEvent)) && action is Finish,
        },
        Stage::ReadingInput => match event {
            Event::InputRead(body) => match grayscale_of(task.object_key@, body@) {
                Some(out) => next == Stage::WritingOutput && (action matches Action::WriteOutput(
                    v,
                ) && v@ == out),
                None => next == Stage::Releasing(Some(TaskError::EffectFailed))
                    && action is ClearProcessing,
            },
            _ => next == Stage::Releasing(Some(effect_error_of(event))) && action is ClearProcessing,
        },
        Stage::WritingOutput => match event {
            Event::OutputWritten => next == Stage::Releasing(None) && action is ClearProcessing,
            _ => next == Stage::Releasing(Some(effect_error_of(event))) && action is ClearProcessing,
        },
        Stage::Deleting => match event {
            Event::OutputDeleted => next == Stage::Releasing(None) && action is ClearProcessing,
            Event::OutputAbsent => next == Stage::Releasing(None) && action is ClearProcessing,
            _ => next == Stage::Releasing(Some(effect_error_of(event))) && action is ClearProcessing,
        },
        Stage::Releasing(pending) => match event {
            Event::Released => next == Stage::Finished(released_outcome(pending)) && action is Finish,
            _ => next == Stage::Finished(release_failed_outcome(pending)) && action is Finish,
        },
        Stage::Finished(_) => next == stage && action is Finish,
    }
}

impl TaskSession {
    /// A session at its first poll, with the time budget `timeout` and the
    /// retry interval `retry_interval`. The caller starts by performing
    /// `Action::CheckClock`.
    pub fn new(task: ImageTask, timeout: u64, retry_interval: u64) -> (r: TaskSession)
        ensures
            r.task == task,
            r.timeout == timeout,
            r.retry_interval == retry_interval,
            r.stage == Stage::Polling,
    {
        TaskSession { task, timeout, retry_interval, stage: Stage::Polling }
    }

    /// The outcome, once the session is finished.
    pub fn outcome(&self) -> (r: Option<Result<Completion, TaskError>>)
        ensures
            match self.stage {
                Stage::Finished(o) => r == Some(o),
                _ => r.is_none(),
            },
    {
        match self.stage {
            Stage::Finished(o) => Some(o),
            _ => None,
        }
    }

    /// Moves on from an effect stage on the destination bytes computed from
    /// the source object: write them, or release the lock with an effect
    /// error where the source could not be converted.
    pub fn on_converted(&mut self, out: Option<Vec<u8>>) -> (r: Action)
        ensures
            final(self).task == old(self).task,
            final(self).timeout == old(self).timeout,
            final(self).retry_interval == old(self).retry_interval,
            match out {
                Some(v) => final(self).stage == Stage::WritingOutput && r == Action::WriteOutput(v),
                None => final(self).stage == Stage::Releasing(Some(TaskError::EffectFailed))
                    && r is ClearProcessing,
            },
    {
        match out {
            Some(v) => {
                self.stage = Stage::WritingOutput;
                Action::WriteOutput(v)
            },
            None => {
                self.stage = Stage::Releasing(Some(TaskError::EffectFailed));
                Action::ClearProcessing
            },
        }
    }

    /// Takes what the last action produced and returns the next action.
    pub fn step(&mut self, event: Event) -> (r: Action)
        ensures
            final(self).task == old(self).task,
            final(self).timeout == old(self).timeout,
            final(self).retry_interval == old(self).retry_interval,
            step_spec(
                old(self).task,
                old(self).timeout,
                old(self).retry_interval,
                old(self).stage,
                event,
                final(self).stage,
                r,
            ),
    {
        match self.stage {
            Stage::Polling => match event {
                Event::Clock(elapsed) => {
                    if elapsed > self.timeout {
                        self.stage = Stage::Finished(Err(TaskError::LockTimeout));
                        Action::Finish
                    } else {
                        self.stage = Stage::Reading;
                        Action::ReadRecord
                    }
                },
                Event::StoreFailed => self.finish(Err(TaskError::StoreUnavailable)),
                _ => self.finish(Err(TaskError::UnexpectedEvent)),
            },
            Stage::Reading => match event {
                Event::Record(rec) => match read_decision(&self.task, &rec) {
                    ReadDecision::Stale => self.finish(Ok(Completion::SkippedStale)),
                    ReadDecision::Wait => {
                        self.stage = Stage::Sleeping;
                        Action::Sleep(self.retry_interval)
                    },
                    ReadDecision::Write => {
                        self.stage = Stage::Writing;
                        Action::PutRecord
                    },
                },
                Event::StoreFailed => self.finish(Err(TaskError::StoreUnavailable)),
                _ => self.finish(Err(TaskError::UnexpectedEvent)),
            },
            Stage::Sleeping => match event {
                Event::Woke => {
                    self.stage = Stage::Polling;
                    Action::CheckClock
                },
                _ => self.finish(Err(TaskError::UnexpectedEvent)),
            },
            Stage::Writing => match event {
                Event::PutDone => match self.task.task_type {
                    TaskType::Grayscale => {
                        self.stage = Stage::ReadingInput;
                        Action::ReadInput
                    },
                    TaskType::Delete => {
                        self.stage = Stage::Deleting;
                        Action::DeleteOutput
                    },
                },
                Event::PutConflict => {
                    self.stage = Stage::Sleeping;
                    Action::Sleep(self.retry_interval)
                },
                Event::StoreFailed => self.finish(Err(TaskError::StoreUnavailable)),
                _ => self.finish(Err(TaskError::UnexpectedEvent)),
            },
            Stage::ReadingInput => match event {
                Event::InputRead(body) => {
                    let out = grayscale(&self.task, &body);
                    self.on_converted(out)
                },
                _ => self.release_with(Some(effect_error(&event))),
            },
            Stage::WritingOutput => match event {
                Event::OutputWritten => self.release_with(None),
                _ => self.release_with(Some(effect_error(&event))),
            },
            Stage::Deleting => match event {
                Event::OutputDeleted => self.release_with(None),
                Event::OutputAbsent => self.release_with(None),
                _ => self.release_with(Some(effect_error(&event))),
            },
            Stage::Releasing(pending) => match event {
                Event::Released => match pending {
                    Some(e) => self.finish(Err(e)),
                    None => self.finish(Ok(Completion::Executed)),
                },
                _ => match pending {
                    Some(e) => self.finish(Err(e)),
                    None => self.finish(Err(TaskError::StoreUnavailable)),
                },
            },
            Stage::Finished(_) => Action::Finish,
        }
    }

    fn finish(&mut self, outcome: Result<Completion, TaskError>) -> (r: Action)
        ensures
            final(self).task == old(self).task,
            final(self).timeout == old(self).timeout,
            final(self).retry_interval == old(self).retry_interval,
            final(self).stage == Stage::Finished(outcome),
            r is Finish,
    {
        self.stage = Stage::Finished(outcome);
        Action::Finish
    }

    fn release_with(&mut self, pending: Option<TaskError>) -> (r: Action)
        ensures
            final(self).task == old(self).task,
            final(self).timeout == old(self).timeout,
            final(self).retry_interval == old(self).retry_interval,
            final(self).stage == Stage::Releasing(pending),
            r is ClearProcessing,
    {
        self.stage = Stage::Releasing(pending);
        Action::ClearProcessing
    }
}

/// The error an effect stage records on `e`, an event other than the one
/// it waits for.
fn effect_error(e: &Event) -> (r: TaskError)
    ensures
        r == effect_error_of(*e),
{
    match e {
        Event::StoreFailed => TaskError::StoreUnavailable,
        _ => TaskError::EffectFailed,
    }
}

/// Whether the store's conditional write succeeds while it holds `stored`
/// for the object: no record, or one whose `processing` is false.
pub open spec fn conditional_write_ok(stored: Option<LockRecord>) -> bool {
    match stored {
        None => true,
        Some(r) => !r.processing,
    }
}

/// How many effect steps remain before the request to clear `processing`.
pub open spec fn effect_rank(s: Stage) -> nat {
    match s {
        Stage::ReadingInput => 2,
        Stage::WritingOutput => 1,
        Stage::Deleting => 1,
        _ => 0,
    }
}

/// A task whose token orders before or equal to the stored one is skipped
/// as soon as the record is read, without writing; one that is newer, on a
/// record whose holder is done, goes on to the conditional write.
pub proof fn lemma_stale_rejected_without_write(
    task: ImageTask,
    timeout: u64,
    interval: u64,
    rec: LockRecord,
    next: Stage,
    action: Action,
)
    requires
        step_spec(task, timeout, interval, Stage::Reading, Event::Record(Some(rec)), next, action),
    ensures
        is_stale(task.sequencer, rec.sequencer) ==> next == Stage::Finished(
            Ok(Completion::SkippedStale),
        ) && action is Finish,
        sequencer_cmp(task.sequencer, rec.sequencer) == Some(Ordering::Greater) && !rec.processing
            ==> next == Stage::Writing && action is PutRecord,
        sequencer_cmp(task.sequencer, rec.sequencer) == Some(Ordering::Greater) && rec.processing
            ==> next == Stage::Sleeping && action == Action::Sleep(interval),
{
}

/// Of two tasks racing for an object that has no record yet, the first
/// conditional write succeeds and the second, meeting the winner's record
/// with `processing` true, finds a conflict and goes back to sleep. When it
/// polls again it reads the winner's record: it is skipped as stale unless
/// its token is strictly newer, in which case it waits for the winner.
pub proof fn lemma_race_single_winner(
    winner: ImageTask,
    loser: ImageTask,
    timeout: u64,
    interval: u64,
    next: Stage,
    action: Action,
)
    requires
        winner.processing,
        step_spec(loser, timeout, interval, Stage::Writing, Event::PutConflict, next, action),
    ensures
        conditional_write_ok(None),
        !conditional_write_ok(Some(winner)),
        next == Stage::Sleeping,
        is_stale(loser.sequencer, winner.sequencer) ==> read_decision_spec(loser, Some(winner))
            == ReadDecision::Stale,
        !is_stale(loser.sequencer, winner.sequencer) ==> read_decision_spec(loser, Some(winner))
            == ReadDecision::Wait,
{
}

/// Once the lock is held, each event either moves the effect on or ends it
/// with one request to clear `processing`, whatever the effect's outcome.
/// That request comes from no other stage; after it the session finishes
/// whatever the store answers, and a finished session asks for nothing more.
/// The lock is held only after a successful conditional write.
pub proof fn lemma_always_release(
    task: ImageTask,
    timeout: u64,
    interval: u64,
    stage: Stage,
    event: Event,
    next: Stage,
    action: Action,
)
    requires
        step_spec(task, timeout, interval, stage, event, next, action),
    ensures
        action is ClearProcessing <==> (in_effect(stage) && next is Releasing),
        in_effect(stage) ==> (in_effect(next) && effect_rank(next) < effect_rank(stage)) || (
        next is Releasing && action is ClearProcessing),
        stage is Releasing ==> next is Finished && action is Finish,
        stage is Finished ==> next == stage && action is Finish,
        acquiring(stage) ==> acquiring(next) || in_effect(next) || next is Finished,
        acquiring(stage) && in_effect(next) ==> stage is Writing && event is PutDone,
{
}

/// How many times the actions ask to clear `processing`.
pub open spec fn clear_count(actions: Seq<Action>) -> nat
    decreases actions.len(),
{
    if actions.len() == 0 {
        0
    } else {
        clear_count(actions.drop_last()) + if actions.last() is ClearProcessing {
            1nat
        } else {
            0nat
        }
    }
}

/// Whether the session held the lock at some stage.
pub open spec fn held_lock(stages: Seq<Stage>) -> bool
    decreases stages.len(),
{
    stages.len() > 0 && (held_lock(stages.drop_last()) || in_effect(stages.last()))
}

/// Whether `stages`, `events` and `actions` are a run of the session for
/// `task`: each stage and action follows from the one before on its event.
pub open spec fn is_run(
    task: ImageTask,
    timeout: u64,
    interval: u64,
    stages: Seq<Stage>,
    events: Seq<Event>,
    actions: Seq<Action>,
) -> bool {
    &&& stages.len() == events.len() + 1
    &&& actions.len() == events.len()
    &&& forall|k: int|
        0 <= k < events.len() ==> step_spec(
            task,
            timeout,
            interval,
            #[trigger] stages[k],
            events[k],
            stages[k + 1],
            actions[k],
        )
}

/// How many clears a run has asked for by the time it stands at `last`.
spec fn run_phase(last: Stage, count: nat, held: bool) -> bool {
    if acquiring(last) {
        count == 0 && !held
    } else if in_effect(last) {
        count == 0 && held
    } else if last is Releasing {
        count == 1 && held
    } else {
        count == if held {
            1nat
        } else {
            0nat
        }
    }
}

proof fn lemma_run_phase(
    task: ImageTask,
    timeout: u64,
    interval: u64,
    stages: Seq<Stage>,
    events: Seq<Event>,
    actions: Seq<Action>,
)
    requires
        is_run(task, timeout, interval, stages, events, actions),
        stages[0] == Stage::Polling,
    ensures
        run_phase(stages.last(), clear_count(actions), held_lock(stages)),
    decreases events.len(),
{
    let n = events.len() as int;
    if n == 0 {
        assert(held_lock(stages.drop_last()) == false);
    } else {
        let ps = stages.drop_last();
        let pe = events.drop_last();
        let pa = actions.drop_last();
        assert forall|k: int| 0 <= k < pe.len() implies step_spec(
            task,
            timeout,
            interval,
            #[trigger] ps[k],
            pe[k],
            ps[k + 1],
            pa[k],
        ) by {
            assert(step_spec(
                task,
                timeout,
                interval,
                stages[k],
                events[k],
                stages[k + 1],
                actions[k],
            ));
        }
        lemma_run_phase(task, timeout, interval, ps, pe, pa);
        assert(step_spec(
            task,
            timeout,
            interval,
            stages[n - 1],
            events[n - 1],
            stages[n],
            actions[n - 1],
        ));
        lemma_always_release(
            task,
            timeout,
            interval,
            stages[n - 1],
            events[n - 1],
            stages[n],
            actions[n - 1],
        );
        assert(ps.last() == stages[n - 1]);
        assert(actions.last() == actions[n - 1]);
    }
}

/// Over any run of a session from its first poll, `processing` is cleared
/// at most once: never where the lock was not acquired, and exactly once
/// where it was and the session has finished, whatever the effect did.
pub proof fn lemma_release_exactly_once(
    task: ImageTask,
    timeout: u64,
    interval: u64,
    stages: Seq<Stage>,
    events: Seq<Event>,
    actions: Seq<Action>,
)
    requires
        is_run(task, timeout, interval, stages, events, actions),
        stages[0] == Stage::Polling,
    ensures
        clear_count(actions) <= 1,
        clear_count(actions) == 1 ==> held_lock(stages),
        held_lock(stages) && stages.last() is Finished ==> clear_count(actions) == 1,
{
    lemma_run_phase(task, timeout, interval, stages, events, actions);
}

/// Deleting a destination object that is already absent succeeds just as
/// deleting a present one: the lock is released and the task executed.
pub proof fn lemma_delete_idempotent(
    task: ImageTask,
    timeout: u64,
    interval: u64,
    deleted: Event,
    next: Stage,
    action: Action,
    last: Stage,
    last_action: Action,
)
    requires
        deleted is OutputAbsent || deleted is OutputDeleted,
        step_spec(task, timeout, interval, Stage::Deleting, deleted, next, action),
        step_spec(task, timeout, interval, next, Event::Released, last, last_action),
    ensures
        next == Stage::Releasing(None),
        action is ClearProcessing,
        last == Stage::Finished(Ok(Completion::Executed)),
{
}

/// With no time budget, the first poll times out at once, before any read
/// or sleep, as soon as any time has elapsed.
pub proof fn lemma_zero_budget_times_out(
    task: ImageTask,
    interval: u64,
    elapsed: u64,
    next: Stage,
    action: Action,
)
    requires
        elapsed > 0,
        step_spec(task, 0, interval, Stage::Polling, Event::Clock(elapsed), next, action),
    ensures
        next == Stage::Finished(Err(TaskError::LockTimeout)),
        action is Finish,
{
}

/// Whether a batch succeeds: every task executed or was skipped as stale.
pub fn batch_succeeded(outcomes: &Vec<Result<Completion, TaskError>>) -> (r: bool)
    ensures
        r == forall|i: int| 0 <= i < outcomes@.len() ==> (#[trigger] outcomes@[i]) is Ok,
{
    let mut i: usize = 0;
    while i < outcomes.len()
        invariant
            i <= outcomes@.len(),
            forall|j: int| 0 <= j < i ==> (#[trigger] outcomes@[j]) is Ok,
        decreases outcomes@.len() - i,
    {
        if outcomes[i].is_err() {
            return false;
        }
        i = i + 1;
    }
    true
}

} // verus!
