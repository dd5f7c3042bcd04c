//! Decisions of the newsletter delivery worker.
//!
//! One task of the queue is handled by a small state machine: `start` gives
//! the first action, and `step` takes the machine's state together with the
//! outcome of the last action and gives the next state and action. The
//! caller performs the actions (database queries, sending e-mail) and feeds
//! their outcomes back, until the action is `Finish`.

use vstd::prelude::*;
use uuid::Uuid;
use crate::domain::{SubscriberEmail, email_is_valid};

verus! {

#[verifier::external_type_specification]
#[verifier::external_body]
pub struct ExUuid(Uuid);

/// How one execution of a task ended.
#[derive(PartialEq, Eq, Structural, Debug, Clone, Copy)]
pub enum ExecutionOutcome {
    TaskCompleted,
    EmptyQueue,
}

/// Which step of a task failed.
#[derive(PartialEq, Eq, Structural, Debug, Clone, Copy)]
pub enum WorkerError {
    /// The queue could not be read.
    DequeueFailed,
    /// The issue to deliver could not be loaded; the task stays queued.
    IssueUnavailable,
    /// The task could not be removed from the queue.
    DeletionFailed,
    /// An outcome arrived that does not answer the pending action.
    UnexpectedEvent,
}

/// A queued delivery: one issue to one subscriber address.
#[derive(Debug)]
pub struct Task {
    pub issue_id: Uuid,
    pub subscriber_email: String,
}

/// The content of a newsletter issue.
#[derive(Debug)]
pub struct NewsletterIssue {
    pub title: String,
    pub text_content: String,
    pub html_content: String,
}

/// What the caller has to do next.
#[derive(Debug)]
pub enum Action {
    /// Take a task off the queue (inside a transaction).
    Dequeue,
    /// Load the issue with this id.
    FetchIssue { issue_id: Uuid },
    /// Send the issue to the recipient.
    SendEmail {
        recipient: SubscriberEmail,
        title: String,
        html_content: String,
        text_content: String,
    },
    /// Remove the task from the queue and commit.
    DeleteTask { issue_id: Uuid, subscriber_email: String },
    /// The execution is over, with this result.
    Finish(Result<ExecutionOutcome, WorkerError>),
}

/// The outcome of the last action.
#[derive(Debug)]
pub enum Event {
    /// The queue was read: a task, or none.
    Dequeued(Option<Task>),
    /// The issue was loaded.
    IssueFetched(NewsletterIssue),
    /// The e-mail went out.
    EmailSent,
    /// The task was removed and the transaction committed.
    TaskDeleted,
    /// The pending action failed.
    Failed,
}

/// Where the handling of a task stands.
#[derive(Debug)]
pub enum TaskState {
    Dequeuing,
    FetchingIssue { task: Task, recipient: SubscriberEmail },
    Delivering { task: Task },
    Deleting,
    Finished(Result<ExecutionOutcome, WorkerError>),
}

/// The state and action in which a task ends with `result`.
pub open spec fn finish(result: Result<ExecutionOutcome, WorkerError>) -> (TaskState, Action) {
    (TaskState::Finished(result), Action::Finish(result))
}

/// The deletion of `task` from the queue.
pub open spec fn deletion(task: Task) -> (TaskState, Action) {
    (
        TaskState::Deleting,
        Action::DeleteTask { issue_id: task.issue_id, subscriber_email: task.subscriber_email },
    )
}

/// The transition of the machine: from `state`, on the outcome `event` of
/// the pending action, to the next state and action.
pub open spec fn next(state: TaskState, event: Event) -> (TaskState, Action) {
    match state {
        TaskState::Dequeuing => match event {
            Event::Dequeued(None) => finish(Ok(ExecutionOutcome::EmptyQueue)),
            Event::Dequeued(Some(task)) => if email_is_valid(task.subscriber_email@) {
                (
                    TaskState::FetchingIssue {
                        task,
                        recipient: SubscriberEmail::with_address(task.subscriber_email),
                    },
                    Action::FetchIssue { issue_id: task.issue_id },
                )
            } else {
                deletion(task)
            },
            Event::Failed => finish(Err(WorkerError::DequeueFailed)),
            _ => finish(Err(WorkerError::UnexpectedEvent)),
        },
        TaskState::FetchingIssue { task, recipient } => match event {
            Event::IssueFetched(issue) => (
                TaskState::Delivering { task },
                Action::SendEmail {
                    recipient,
                    title: issue.title,
                    html_content: issue.html_content,
                    text_content: issue.text_content,
                },
            ),
            Event::Failed => finish(Err(WorkerError::IssueUnavailable)),
            _ => finish(Err(WorkerError::UnexpectedEvent)),
        },
        TaskState::Delivering { task } => match event {
            Event::EmailSent => deletion(task),
            Event::Failed => deletion(task),
            _ => finish(Err(WorkerError::UnexpectedEvent)),
        },
        TaskState::Deleting => match event {
            Event::TaskDeleted => finish(Ok(ExecutionOutcome::TaskCompleted)),
            Event::Failed => finish(Err(WorkerError::DeletionFailed)),
            _ => finish(Err(WorkerError::UnexpectedEvent)),
        },
        TaskState::Finished(result) => finish(result),
    }
}

/// The first state and action of a task: read the queue.
pub fn start() -> (r: (TaskState, Action))
    ensures
        r == (TaskState::Dequeuing, Action::Dequeue),
{
    (TaskState::Dequeuing, Action::Dequeue)
}

/// One transition of the machine (see `next`). A task whose address is not
/// valid is deleted without an e-mail; a failed delivery is skipped and the
/// task deleted all the same; a failure to read the queue, to load the issue
/// or to delete the task ends the execution with an error.
pub fn step(state: TaskState, event: Event) -> (r: (TaskState, Action))
    ensures
        r == next(state, event),
{
    match state {
        TaskState::Dequeuing => match event {
            Event::Dequeued(None) => finish_with(Ok(ExecutionOutcome::EmptyQueue)),
            Event::Dequeued(Some(task)) => {
                match SubscriberEmail::parse(task.subscriber_email.clone()) {
                    Ok(recipient) => {
                        let issue_id = task.issue_id;
                        (TaskState::FetchingIssue { task, recipient }, Action::FetchIssue { issue_id })
                    },
                    Err(_) => delete(task),
                }
            },
            Event::Failed => finish_with(Err(WorkerError::DequeueFailed)),
            _ => finish_with(Err(WorkerError::UnexpectedEvent)),
        },
        TaskState::FetchingIssue { task, recipient } => match event {
            Event::IssueFetched(issue) => (
                TaskState::Delivering { task },
                Action::SendEmail {
                    recipient,
                    title: issue.title,
                    html_content: issue.html_content,
                    text_content: issue.text_content,
                },
            ),
            Event::Failed => finish_with(Err(WorkerError::IssueUnavailable)),
            _ => finish_with(Err(WorkerError::UnexpectedEvent)),
        },
        TaskState::Delivering { task } => match event {
            Event::EmailSent => delete(task),
            Event::Failed => delete(task),
            _ => finish_with(Err(WorkerError::UnexpectedEvent)),
        },
        TaskState::Deleting => match event {
            Event::TaskDeleted => finish_with(Ok(ExecutionOutcome::TaskCompleted)),
            Event::Failed => finish_with(Err(WorkerError::DeletionFailed)),
            _ => finish_with(Err(WorkerError::UnexpectedEvent)),
        },
        TaskState::Finished(result) => finish_with(result),
    }
}

fn finish_with(result: Result<ExecutionOutcome, WorkerError>) -> (r: (TaskState, Action))
    ensures
        r == finish(result),
{
    (TaskState::Finished(result), Action::Finish(result))
}

fn delete(task: Task) -> (r: (TaskState, Action))
    ensures
        r == deletion(task),
{
    (
        TaskState::Deleting,
        Action::DeleteTask { issue_id: task.issue_id, subscriber_email: task.subscriber_email },
    )
}

/// How long the worker waits before its next execution, in seconds: ten
/// after finding the queue empty, one after a failure, none after a
/// completed task, whatever the error.
pub fn idle_seconds<E>(result: &Result<ExecutionOutcome, E>) -> (r: u64)
    ensures
        r == match result {
            Ok(ExecutionOutcome::EmptyQueue) => 10u64,
            Err(_) => 1u64,
            Ok(ExecutionOutcome::TaskCompleted) => 0u64,
        },
{
    match result {
        Ok(ExecutionOutcome::EmptyQueue) => 10,
        Err(_) => 1,
        Ok(ExecutionOutcome::TaskCompleted) => 0,
    }
}

/// The state and the actions after feeding `events` to the machine from its
/// start; the first action is that of `start`.
pub open spec fn run(events: Seq<Event>) -> (TaskState, Seq<Action>)
    decreases events.len(),
{
    if events.len() == 0 {
        (TaskState::Dequeuing, seq![Action::Dequeue])
    } else {
        let prev = run(events.drop_last());
        let n = next(prev.0, events.last());
        (n.0, prev.1.push(n.1))
    }
}

/// The number of `SendEmail` actions in `acts`.
pub open spec fn count_sends(acts: Seq<Action>) -> nat
    decreases acts.len(),
{
    if acts.len() == 0 {
        0
    } else {
        count_sends(acts.drop_last()) + if acts.last() is SendEmail {
            1nat
        } else {
            0nat
        }
    }
}

/// The number of `DeleteTask` actions in `acts`.
pub open spec fn count_deletes(acts: Seq<Action>) -> nat
    decreases acts.len(),
{
    if acts.len() == 0 {
        0
    } else {
        count_deletes(acts.drop_last()) + if acts.last() is DeleteTask {
            1nat
        } else {
            0nat
        }
    }
}

/// The number of `FetchIssue` actions in `acts`.
pub open spec fn count_fetches(acts: Seq<Action>) -> nat
    decreases acts.len(),
{
    if acts.len() == 0 {
        0
    } else {
        count_fetches(acts.drop_last()) + if acts.last() is FetchIssue {
            1nat
        } else {
            0nat
        }
    }
}

/// The task that the first event took off the queue, if any.
pub open spec fn dequeued(events: Seq<Event>) -> Option<Task> {
    if events.len() > 0 && events[0] is Dequeued {
        events[0]->Dequeued_0
    } else {
        None
    }
}

/// The action that deletes `task`.
pub open spec fn delete_action(task: Task) -> Action {
    Action::DeleteTask { issue_id: task.issue_id, subscriber_email: task.subscriber_email }
}

/// How many transitions at most separate `state` from the end.
pub open spec fn rank(state: TaskState) -> nat {
    match state {
        TaskState::Dequeuing => 4,
        TaskState::FetchingIssue { .. } => 3,
        TaskState::Delivering { .. } => 2,
        TaskState::Deleting => 1,
        TaskState::Finished(_) => 0,
    }
}

/// Each e-mail in `acts` goes to the address of the dequeued task, which is
/// valid, and is the third action, carrying the issue that the second event
/// delivered.
pub open spec fn sends_ok(events: Seq<Event>, acts: Seq<Action>) -> bool {
    forall|i: int|
        0 <= i < acts.len() && (#[trigger] acts[i]) is SendEmail ==> {
            &&& dequeued(events) is Some
            &&& acts[i]->SendEmail_recipient == SubscriberEmail::with_address(
                dequeued(events)->0.subscriber_email,
            )
            &&& email_is_valid(dequeued(events)->0.subscriber_email@)
            &&& i == 2
            &&& events[1] is IssueFetched
            &&& acts[i]->SendEmail_title == events[1]->IssueFetched_0.title
            &&& acts[i]->SendEmail_html_content == events[1]->IssueFetched_0.html_content
            &&& acts[i]->SendEmail_text_content == events[1]->IssueFetched_0.text_content
        }
}

/// What holds of every run of the machine.
pub open spec fn run_inv(events: Seq<Event>, state: TaskState, acts: Seq<Action>) -> bool {
    &&& acts.len() == events.len() + 1
    &&& acts[0] == Action::Dequeue
    &&& sends_ok(events, acts)
    &&& (rank(state) + events.len() <= 4 || state is Finished)
    &&& count_sends(acts) <= 1
    &&& count_deletes(acts) <= 1
    &&& count_fetches(acts) <= 1
    &&& (dequeued(events) matches Some(t) && !email_is_valid(t.subscriber_email@) ==> count_sends(
        acts,
    ) == 0 && count_fetches(acts) == 0)
    &&& match state {
        TaskState::Dequeuing => {
            &&& events.len() == 0
            &&& count_sends(acts) == 0
            &&& count_deletes(acts) == 0
            &&& count_fetches(acts) == 0
        },
        TaskState::FetchingIssue { task, recipient } => {
            &&& events.len() == 1
            &&& dequeued(events) == Some(task)
            &&& email_is_valid(task.subscriber_email@)
            &&& recipient == SubscriberEmail::with_address(task.subscriber_email)
            &&& count_sends(acts) == 0
            &&& count_deletes(acts) == 0
            &&& count_fetches(acts) == 1
        },
        TaskState::Delivering { task } => {
            &&& dequeued(events) == Some(task)
            &&& email_is_valid(task.subscriber_email@)
            &&& count_sends(acts) == 1
            &&& count_deletes(acts) == 0
        },
        TaskState::Deleting => {
            &&& dequeued(events) is Some
            &&& acts.last() == delete_action(dequeued(events)->0)
            &&& count_deletes(acts) == 1
            &&& count_sends(acts) == if email_is_valid(dequeued(events)->0.subscriber_email@) {
                1nat
            } else {
                0nat
            }
        },
        TaskState::Finished(result) => {
            &&& events.len() > 0
            &&& (result == Ok::<ExecutionOutcome, WorkerError>(ExecutionOutcome::TaskCompleted) ==> {
                &&& dequeued(events) is Some
                &&& acts.contains(delete_action(dequeued(events)->0))
                &&& count_deletes(acts) == 1
                &&& count_sends(acts) == if email_is_valid(
                    dequeued(events)->0.subscriber_email@,
                ) {
                    1nat
                } else {
                    0nat
                }
            })
            &&& (result == Ok::<ExecutionOutcome, WorkerError>(ExecutionOutcome::EmptyQueue) ==> {
                &&& events[0] == Event::Dequeued(None)
                &&& count_sends(acts) == 0
                &&& count_deletes(acts) == 0
                &&& count_fetches(acts) == 0
            })
            &&& (result == Err::<ExecutionOutcome, WorkerError>(WorkerError::IssueUnavailable)
                ==> count_deletes(acts) == 0 && count_fetches(acts) == 1 && count_sends(acts) == 0)
            &&& (result == Err::<ExecutionOutcome, WorkerError>(WorkerError::DequeueFailed)
                ==> count_deletes(acts) == 0 && count_fetches(acts) == 0)
        },
    }
}

proof fn lemma_counts_push(acts: Seq<Action>, a: Action)
    ensures
        count_sends(acts.push(a)) == count_sends(acts) + if a is SendEmail {
            1nat
        } else {
            0nat
        },
        count_deletes(acts.push(a)) == count_deletes(acts) + if a is DeleteTask {
            1nat
        } else {
            0nat
        },
        count_fetches(acts.push(a)) == count_fetches(acts) + if a is FetchIssue {
            1nat
        } else {
            0nat
        },
{
    assert(acts.push(a).drop_last() =~= acts);
}

proof fn lemma_step_inv(pre: Seq<Event>, state: TaskState, prev_acts: Seq<Action>, e: Event)
    requires
        run_inv(pre, state, prev_acts),
    ensures
        run_inv(pre.push(e), next(state, e).0, prev_acts.push(next(state, e).1)),
{
    let events = pre.push(e);
    let n = next(state, e);
    let acts = prev_acts.push(n.1);
    lemma_counts_push(prev_acts, n.1);
    if pre.len() > 0 {
        assert(events[0] == pre[0]);
        assert(dequeued(events) == dequeued(pre));
    } else {
        assert(events[0] == e);
    }
    assert(acts[0] == prev_acts[0]);
    assert(acts.last() == n.1);
    assert(acts.len() == events.len() + 1);
    assert(sends_ok(events, acts)) by {
        assert forall|i: int|
            0 <= i < acts.len() && (#[trigger] acts[i]) is SendEmail implies {
            &&& dequeued(events) is Some
            &&& acts[i]->SendEmail_recipient == SubscriberEmail::with_address(
                dequeued(events)->0.subscriber_email,
            )
            &&& email_is_valid(dequeued(events)->0.subscriber_email@)
            &&& i == 2
            &&& events[1] is IssueFetched
            &&& acts[i]->SendEmail_title == events[1]->IssueFetched_0.title
            &&& acts[i]->SendEmail_html_content == events[1]->IssueFetched_0.html_content
            &&& acts[i]->SendEmail_text_content == events[1]->IssueFetched_0.text_content
        } by {
            if i < prev_acts.len() {
                assert(acts[i] == prev_acts[i]);
                assert(events[1] == pre[1]);
            } else {
                assert(events[1] == e);
            }
        }
    }
    match state {
        TaskState::Finished(r) => {
            if r == Ok::<ExecutionOutcome, WorkerError>(ExecutionOutcome::TaskCompleted) {
                let d = delete_action(dequeued(events)->0);
                let k = choose|k: int| 0 <= k < prev_acts.len() && prev_acts[k] == d;
                assert(acts[k] == d);
                assert(acts.contains(d));
            }
        },
        TaskState::Deleting => {
            assert(acts[prev_acts.len() - 1] == prev_acts.last());
        },
        TaskState::Dequeuing => {
            assert(events[0] == e);
            match e {
                Event::Dequeued(Some(task)) => {
                    assert(dequeued(events) == Some(task));
                },
                _ => {},
            }
        },
        _ => {},
    }
}

proof fn lemma_run_inv(events: Seq<Event>)
    ensures
        run_inv(events, run(events).0, run(events).1),
    decreases events.len(),
{
    if events.len() == 0 {
        lemma_counts_push(Seq::<Action>::empty(), Action::Dequeue);
        assert(Seq::<Action>::empty().push(Action::Dequeue) =~= seq![Action::Dequeue]);
        assert(count_sends(Seq::<Action>::empty()) == 0);
        assert(count_deletes(Seq::<Action>::empty()) == 0);
        assert(count_fetches(Seq::<Action>::empty()) == 0);
        assert(sends_ok(events, seq![Action::Dequeue]));
    } else {
        let pre = events.drop_last();
        lemma_run_inv(pre);
        lemma_step_inv(pre, run(pre).0, run(pre).1, events.last());
        assert(pre.push(events.last()) =~= events);
    }
}

/// An e-mail goes out only to the address of the task that was taken off
/// the queue, only when that address is valid, and with the content of the
/// issue that was loaded for it.
pub proof fn lemma_email_only_to_valid_subscriber(events: Seq<Event>, i: int)
    requires
        0 <= i < run(events).1.len(),
        run(events).1[i] is SendEmail,
    ensures
        dequeued(events) is Some,
        run(events).1[i]->SendEmail_recipient == SubscriberEmail::with_address(
            dequeued(events)->0.subscriber_email,
        ),
        email_is_valid(dequeued(events)->0.subscriber_email@),
        events.len() >= 2 && events[1] is IssueFetched,
        run(events).1[i]->SendEmail_title == events[1]->IssueFetched_0.title,
        run(events).1[i]->SendEmail_html_content == events[1]->IssueFetched_0.html_content,
        run(events).1[i]->SendEmail_text_content == events[1]->IssueFetched_0.text_content,
{
    lemma_run_inv(events);
}

/// One execution sends at most one e-mail, loads at most one issue and
/// deletes at most one task.
pub proof fn lemma_at_most_once(events: Seq<Event>)
    ensures
        count_sends(run(events).1) <= 1,
        count_fetches(run(events).1) <= 1,
        count_deletes(run(events).1) <= 1,
{
    lemma_run_inv(events);
}

/// An execution reports a completed task only after deleting the task it
/// took off the queue, once, and after sending it the issue exactly when its
/// address is valid.
pub proof fn lemma_completed_task_was_deleted(events: Seq<Event>)
    requires
        run(events).0 == TaskState::Finished(Ok(ExecutionOutcome::TaskCompleted)),
    ensures
        dequeued(events) is Some,
        run(events).1.contains(delete_action(dequeued(events)->0)),
        count_deletes(run(events).1) == 1,
        count_sends(run(events).1) == if email_is_valid(dequeued(events)->0.subscriber_email@) {
            1nat
        } else {
            0nat
        },
{
    lemma_run_inv(events);
}

/// When the issue of a task cannot be loaded, the task is not deleted: it
/// stays in the queue for a later execution.
pub proof fn lemma_unavailable_issue_keeps_task(events: Seq<Event>)
    requires
        run(events).0 == TaskState::Finished(Err(WorkerError::IssueUnavailable)),
    ensures
        count_deletes(run(events).1) == 0,
        count_sends(run(events).1) == 0,
{
    lemma_run_inv(events);
}

/// A task whose address is not valid gets neither an issue load nor an e-mail.
pub proof fn lemma_invalid_address_skipped(events: Seq<Event>, task: Task)
    requires
        dequeued(events) == Some(task),
        !email_is_valid(task.subscriber_email@),
    ensures
        count_sends(run(events).1) == 0,
        count_fetches(run(events).1) == 0,
{
    lemma_run_inv(events);
}

/// Once finished, the machine stays finished with the same result.
pub proof fn lemma_finished_is_final(result: Result<ExecutionOutcome, WorkerError>, event: Event)
    ensures
        next(TaskState::Finished(result), event) == finish(result),
{
}

/// Whatever the outcomes, an execution is finished after four of them.
pub proof fn lemma_every_run_finishes(events: Seq<Event>)
    requires
        events.len() >= 4,
    ensures
        run(events).0 is Finished,
{
    lemma_run_inv(events);
}

/// An empty queue ends the execution with `EmptyQueue` and nothing else done.
pub proof fn lemma_empty_queue_does_nothing(events: Seq<Event>)
    requires
        events.len() > 0,
        events[0] == Event::Dequeued(None),
    ensures
        run(events).0 == TaskState::Finished(Ok(ExecutionOutcome::EmptyQueue)),
        count_sends(run(events).1) == 0,
        count_fetches(run(events).1) == 0,
        count_deletes(run(events).1) == 0,
    decreases events.len(),
{
    lemma_run_inv(events);
    if events.len() > 1 {
        let pre = events.drop_last();
        assert(pre[0] == events[0]);
        lemma_empty_queue_does_nothing(pre);
        assert(run(events).0 == next(run(pre).0, events.last()).0);
    } else {
        assert(events.drop_last().len() == 0);
        assert(run(events.drop_last()).0 == TaskState::Dequeuing);
        assert(events.last() == events[0]);
        assert(run(events).0 == next(TaskState::Dequeuing, events[0]).0);
    }
    lemma_run_inv(events);
}

} // verus!
