//! The delivery worker: the steps that take one task from the queue, send its
//! email and remove it, and how long the worker rests between two tasks.

use crate::database::{DeliveryTask, IssueRecord};
use crate::domain::email::email_is_valid;
use crate::domain::Email;
use crate::email_client::{
    delivery_result, outbound_email, reply_result, EmailClient, OutboundEmail, ProviderReply,
    SendEmailError,
};
use vstd::prelude::*;

verus! {

/// Seconds that the worker rests after it found the queue empty.
pub const IDLE_BACKOFF: u64 = 10;

/// Seconds that the worker rests after a failure.
pub const ERROR_BACKOFF: u64 = 1;

/// How one pass over the queue ended.
#[derive(Debug, Clone, Copy, PartialEq, Eq, Structural)]
pub enum ExecutionOutcome {
    /// A task was taken and dealt with.
    TaskCompleted,
    /// There was no task to take.
    EmptyQueue,
}

/// What becomes of a task whose email the provider did not accept.
#[derive(Debug, Clone, Copy, PartialEq, Eq, Structural)]
pub enum FailurePolicy {
    /// The task is removed: every task is tried at most once, and an email
    /// that failed is lost.
    Drop,
    /// The task stays in the queue and is tried again in a later pass.
    Retry,
}

/// Why a task was dealt with without an email being delivered.
#[derive(Debug)]
pub enum Skipped {
    /// The stored address is no email address; the provider was not called.
    InvalidEmail,
    /// The provider did not accept the email.
    NotDelivered(SendEmailError),
}

/// How a pass fails.
#[derive(Debug)]
pub enum WorkerError {
    /// Storage failed; the text says at which step. Nothing was committed.
    Storage(String),
    /// The provider did not accept the email, and the task was kept.
    NotDelivered(SendEmailError),
}

/// How a pass that took a task ended.
#[derive(Debug)]
pub struct Completed {
    pub outcome: ExecutionOutcome,
    /// Set where a task was removed though no email was delivered.
    pub skipped: Option<Skipped>,
}

/// Where one pass of the worker stands.
#[derive(Debug)]
pub enum WorkerState {
    /// Nothing has happened yet.
    Idle,
    /// A transaction is open and a task is being taken under a lock that
    /// skips the tasks that others hold.
    Dequeuing,
    /// The issue of the task is being fetched.
    FetchingIssue(DeliveryTask, Email),
    /// The email is being sent.
    Sending(DeliveryTask),
    /// The task is being removed and the transaction committed.
    Deleting(Option<Skipped>),
    /// The transaction is being committed with the task left in the queue.
    Releasing(Option<SendEmailError>),
    /// The pass is over.
    Finished,
}

/// What the outside reports back after an action.
#[derive(Debug)]
pub enum WorkerEvent {
    /// The pass begins.
    Start,
    /// The task that was taken, or none.
    Task(Option<DeliveryTask>),
    /// The issue that was fetched.
    Issue(IssueRecord),
    /// What the provider replied.
    Reply(ProviderReply),
    /// The action succeeded, and has nothing to report.
    Done,
    /// The action failed.
    Failed,
}

/// What the outside is asked to do next.
pub enum WorkerAction {
    /// Open a transaction and take one task from the queue, locked, skipping
    /// locked ones.
    Dequeue,
    /// Fetch the issue with this identifier.
    FetchIssue { newsletter_issue_id: u128 },
    /// Post this request to the provider, once.
    Send(OutboundEmail),
    /// Remove the given task from the queue and commit the transaction.
    DeleteTask(DeliveryTask),
    /// Commit the transaction and so release the lock; the queue stays as it
    /// is.
    Release,
    /// End the pass with this result; what is still open is rolled back.
    Finish(Result<Completed, WorkerError>),
}

/// The step ended the pass with a storage error of this message.
pub open spec fn worker_failed(post: WorkerState, action: WorkerAction, message: Seq<char>) -> bool {
    &&& post is Finished
    &&& action matches WorkerAction::Finish(Err(WorkerError::Storage(m)))
    &&& m@ == message
}

/// The step deals with an email that was not delivered, as the policy says:
/// the task is removed, or the lock is released.
pub open spec fn worker_gives_up(
    task: DeliveryTask,
    policy: FailurePolicy,
    post: WorkerState,
    action: WorkerAction,
) -> bool {
    match policy {
        FailurePolicy::Drop => {
            &&& post matches WorkerState::Deleting(Some(Skipped::NotDelivered(_)))
            &&& action matches WorkerAction::DeleteTask(t)
            &&& t@ == task@
        },
        FailurePolicy::Retry => {
            &&& post matches WorkerState::Releasing(Some(_))
            &&& action is Release
        },
    }
}

/// What one step of a pass does: from the state `pre` and the event `event`
/// to the state `post` and the action `action`.
pub open spec fn worker_step_spec(
    pre: WorkerState,
    event: WorkerEvent,
    client: crate::email_client::EmailClientView,
    policy: FailurePolicy,
    post: WorkerState,
    action: WorkerAction,
) -> bool {
    match pre {
        WorkerState::Idle => match event {
            WorkerEvent::Start => post is Dequeuing && action is Dequeue,
            _ => worker_failed(post, action, "Unexpected event"@),
        },
        WorkerState::Dequeuing => match event {
            WorkerEvent::Task(None) => post matches WorkerState::Releasing(None) && action
                is Release,
            WorkerEvent::Task(Some(task)) => if email_is_valid(task.subscriber_email@) {
                &&& post matches WorkerState::FetchingIssue(t, email)
                &&& t@ == task@
                &&& email@ == task.subscriber_email@
                &&& action matches WorkerAction::FetchIssue { newsletter_issue_id }
                &&& newsletter_issue_id == task.newsletter_issue_id
            } else {
                &&& post matches WorkerState::Deleting(Some(Skipped::InvalidEmail))
                &&& action matches WorkerAction::DeleteTask(t)
                &&& t@ == task@
            },
            _ => worker_failed(post, action, "Failed to dequeue a task"@),
        },
        WorkerState::FetchingIssue(task, email) => match event {
            WorkerEvent::Issue(issue) => match outbound_email(
                client,
                email@,
                issue.title@,
                issue.html_content@,
                issue.text_content@,
            ) {
                Ok(mail) => {
                    &&& post matches WorkerState::Sending(t)
                    &&& t@ == task@
                    &&& action matches WorkerAction::Send(m)
                    &&& m@ == mail
                },
                Err(_) => worker_gives_up(task, policy, post, action),
            },
            _ => worker_failed(post, action, "Failed to fetch the issue"@),
        },
        WorkerState::Sending(task) => match event {
            WorkerEvent::Reply(reply) => if reply_result(reply) is Ok {
                &&& post matches WorkerState::Deleting(None)
                &&& action matches WorkerAction::DeleteTask(t)
                &&& t@ == task@
            } else {
                worker_gives_up(task, policy, post, action)
            },
            // anything but a reply counts as no reply
            _ => worker_gives_up(task, policy, post, action),
        },
        WorkerState::Deleting(skipped) => match event {
            WorkerEvent::Done => {
                &&& post is Finished
                &&& action matches WorkerAction::Finish(Ok(completed))
                &&& completed.outcome == ExecutionOutcome::TaskCompleted
                &&& completed.skipped == skipped
            },
            _ => worker_failed(post, action, "Failed to delete the task"@),
        },
        WorkerState::Releasing(kept) => match event {
            WorkerEvent::Done => {
                &&& post is Finished
                &&& match kept {
                    None => {
                        &&& action matches WorkerAction::Finish(Ok(completed))
                        &&& completed.outcome == ExecutionOutcome::EmptyQueue
                        &&& completed.skipped is None
                    },
                    Some(e) => action == WorkerAction::Finish(Err(WorkerError::NotDelivered(e))),
                }
            },
            _ => worker_failed(post, action, "Failed to release the task"@),
        },
        WorkerState::Finished => worker_failed(post, action, "Unexpected event"@),
    }
}

/// Ends the pass with a storage error of the given message.
fn fail(message: &str) -> (r: (WorkerState, WorkerAction))
    ensures
        worker_failed(r.0, r.1, message@),
{
    (WorkerState::Finished, WorkerAction::Finish(Err(WorkerError::Storage(message.to_owned()))))
}

/// Deals with an email that was not delivered, as the policy says.
fn give_up(task: DeliveryTask, error: SendEmailError, policy: FailurePolicy) -> (r: (
    WorkerState,
    WorkerAction,
))
    ensures
        worker_gives_up(task, policy, r.0, r.1),
{
    match policy {
        FailurePolicy::Drop => (
            WorkerState::Deleting(Some(Skipped::NotDelivered(error))),
            WorkerAction::DeleteTask(task),
        ),
        FailurePolicy::Retry => (WorkerState::Releasing(Some(error)), WorkerAction::Release),
    }
}

/// One step of a pass of the worker. The caller starts in `Idle` with the
/// event `Start`, does what each action asks, reports its outcome as the next
/// event, and stops at `Finish`.
///
/// A task is taken under a lock. Where there is none, the transaction is
/// committed and the pass ends with `EmptyQueue`. A task whose address is no
/// email address is removed without a call to the provider. Otherwise the
/// issue is fetched and the email is posted once. Where the provider accepts
/// it, the task is removed. Where it does not, the policy decides: the task
/// is removed all the same, or it is left in the queue and the pass ends with
/// an error. Where storage fails, the pass ends with an error and nothing is
/// committed, so that the task is seen again.
pub fn try_execute_task(
    state: WorkerState,
    event: WorkerEvent,
    email_client: &EmailClient,
    policy: FailurePolicy,
) -> (r: (WorkerState, WorkerAction))
    ensures
        worker_step_spec(state, event, email_client@, policy, r.0, r.1),
{
    match state {
        WorkerState::Idle => match event {
            WorkerEvent::Start => (WorkerState::Dequeuing, WorkerAction::Dequeue),
            _ => fail("Unexpected event"),
        },
        WorkerState::Dequeuing => match event {
            WorkerEvent::Task(None) => (WorkerState::Releasing(None), WorkerAction::Release),
            WorkerEvent::Task(Some(task)) => match Email::parse(task.subscriber_email.as_str()) {
                Ok(email) => {
                    let newsletter_issue_id = task.newsletter_issue_id;
                    (
                        WorkerState::FetchingIssue(task, email),
                        WorkerAction::FetchIssue { newsletter_issue_id },
                    )
                },
                Err(_) => (
                    WorkerState::Deleting(Some(Skipped::InvalidEmail)),
                    WorkerAction::DeleteTask(task),
                ),
            },
            _ => fail("Failed to dequeue a task"),
        },
        WorkerState::FetchingIssue(task, email) => match event {
            WorkerEvent::Issue(issue) => match email_client.send_email(
                &email,
                issue.title.as_str(),
                issue.html_content.as_str(),
                issue.text_content.as_str(),
            ) {
                Ok(mail) => (WorkerState::Sending(task), WorkerAction::Send(mail)),
                Err(e) => give_up(task, e, policy),
            },
            _ => fail("Failed to fetch the issue"),
        },
        WorkerState::Sending(task) => {
            let reply = match event {
                WorkerEvent::Reply(reply) => reply,
                _ => ProviderReply::NoReply,
            };
            match delivery_result(reply) {
                Ok(_) => (WorkerState::Deleting(None), WorkerAction::DeleteTask(task)),
                Err(e) => give_up(task, e, policy),
            }
        },
        WorkerState::Deleting(skipped) => match event {
            WorkerEvent::Done => (
                WorkerState::Finished,
                WorkerAction::Finish(
                    Ok(Completed { outcome: ExecutionOutcome::TaskCompleted, skipped }),
                ),
            ),
            _ => fail("Failed to delete the task"),
        },
        WorkerState::Releasing(kept) => match event {
            WorkerEvent::Done => match kept {
                None => (
                    WorkerState::Finished,
                    WorkerAction::Finish(
                        Ok(Completed { outcome: ExecutionOutcome::EmptyQueue, skipped: None }),
                    ),
                ),
                Some(e) => (
                    WorkerState::Finished,
                    WorkerAction::Finish(Err(WorkerError::NotDelivered(e))),
                ),
            },
            _ => fail("Failed to release the task"),
        },
        WorkerState::Finished => fail("Unexpected event"),
    }
}

/// Seconds that the worker rests after a pass: none after a task, so that the
/// queue is drained at once; `IDLE_BACKOFF` after an empty queue;
/// `ERROR_BACKOFF` after a failure.
pub open spec fn pause_spec(result: Result<Completed, WorkerError>) -> u64 {
    match result {
        Ok(completed) => match completed.outcome {
            ExecutionOutcome::TaskCompleted => 0,
            ExecutionOutcome::EmptyQueue => IDLE_BACKOFF,
        },
        Err(_) => ERROR_BACKOFF,
    }
}

/// Seconds that the worker rests after a pass that ended with `result`.
pub fn pause_after(result: &Result<Completed, WorkerError>) -> (seconds: u64)
    ensures
        seconds == pause_spec(*result),
{
    match result {
        Ok(completed) => match completed.outcome {
            ExecutionOutcome::TaskCompleted => 0,
            ExecutionOutcome::EmptyQueue => IDLE_BACKOFF,
        },
        Err(_) => ERROR_BACKOFF,
    }
}

/// A task is removed only after the provider replied to its email, or
/// without an email where its address is no email address or the provider's
/// URL gives nowhere to post to; and where the policy is `Retry`, only after
/// the provider accepted the email or for an address that is no email
/// address.
pub proof fn law_task_is_removed_after_its_email(
    pre: WorkerState,
    event: WorkerEvent,
    client: crate::email_client::EmailClientView,
    policy: FailurePolicy,
    post: WorkerState,
    action: WorkerAction,
)
    requires
        worker_step_spec(pre, event, client, policy, post, action),
        action is DeleteTask,
    ensures
        pre is Sending || pre is Dequeuing || pre is FetchingIssue,
        pre is Dequeuing ==> (event matches WorkerEvent::Task(Some(task)) && !email_is_valid(
            task.subscriber_email@,
        )),
        policy == FailurePolicy::Retry && pre is Sending ==> (event matches WorkerEvent::Reply(
            reply,
        ) && reply_result(reply) is Ok),
        policy == FailurePolicy::Retry ==> !(pre is FetchingIssue),
{
}

/// The most steps that a pass in the state `state` still takes.
pub open spec fn worker_steps_left(state: WorkerState) -> nat {
    match state {
        WorkerState::Idle => 6,
        WorkerState::Dequeuing => 5,
        WorkerState::FetchingIssue(_, _) => 4,
        WorkerState::Sending(_) => 3,
        WorkerState::Deleting(_) => 1,
        WorkerState::Releasing(_) => 1,
        WorkerState::Finished => 0,
    }
}

/// Every pass ends: each step either ends the pass or leaves fewer steps to
/// take, whatever the outside reports. A pass takes at most six steps.
pub proof fn law_pass_ends(
    pre: WorkerState,
    event: WorkerEvent,
    client: crate::email_client::EmailClientView,
    policy: FailurePolicy,
    post: WorkerState,
    action: WorkerAction,
)
    requires
        worker_step_spec(pre, event, client, policy, post, action),
    ensures
        action is Finish <==> post is Finished,
        !(action is Finish) ==> worker_steps_left(post) < worker_steps_left(pre),
{
}

} // verus!
