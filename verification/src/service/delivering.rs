//! The delivery worker, on the store in memory: what a pass does, that it
//! keeps the store sound, and what follows of it.

use crate::database::{DeliveryRow, IssueRow};
use crate::domain::email::email_is_valid;
use crate::email_client::{outbound_email, reply_result, EmailClientView, ProviderReply};
use crate::issue_delivery_worker::{
    try_execute_task, Completed, ExecutionOutcome, FailurePolicy, Skipped, WorkerAction,
    WorkerError, WorkerEvent, WorkerState,
};
use crate::service::{nothing_undone, publications_wf, store_wf, Delivery, DeliveryView, Service, ServiceView};
use crate::store::{has_issue, without_task, StoreView};
use vstd::pervasive::unreached;
use vstd::prelude::*;

verus! {

broadcast use crate::service::lemma_service_view;

/// The issue of `s` with the identifier `id`.
pub open spec fn issue_by_id(s: Seq<IssueRow>, id: u128) -> IssueRow {
    s[choose|i: int| 0 <= i < s.len() && (#[trigger] s[i]).newsletter_issue_id == id]
}

/// In a sound store, an issue that is there is the issue with its identifier.
pub proof fn lemma_issue_by_id(s: StoreView, issue: IssueRow)
    requires
        publications_wf(s),
        s.newsletter_issues.contains(issue),
    ensures
        issue_by_id(s.newsletter_issues, issue.newsletter_issue_id) == issue,
{
    let k = choose|k: int| 0 <= k < s.newsletter_issues.len() && s.newsletter_issues[k] == issue;
    let i = choose|i: int|
        0 <= i < s.newsletter_issues.len() && (#[trigger] s.newsletter_issues[i]).newsletter_issue_id
            == issue.newsletter_issue_id;
    assert(s.newsletter_issues[k].newsletter_issue_id == issue.newsletter_issue_id);
    if i < k {
        assert(s.newsletter_issues[i].newsletter_issue_id
            != s.newsletter_issues[k].newsletter_issue_id);
    } else if k < i {
        assert(s.newsletter_issues[k].newsletter_issue_id
            != s.newsletter_issues[i].newsletter_issue_id);
    }
}

/// What is left of a queue without one of its tasks: tasks of the queue, one
/// fewer where no task was there twice, and no task twice where none was.
pub proof fn lemma_without_task(q: Seq<DeliveryRow>, gone: DeliveryRow)
    ensures
        forall|i: int|
            0 <= i < without_task(q, gone).len() ==> q.contains(
                #[trigger] without_task(q, gone)[i],
            ) && without_task(q, gone)[i] != gone,
        without_task(q, gone).len() <= q.len(),
        !q.contains(gone) ==> without_task(q, gone) == q,
        q.no_duplicates() ==> without_task(q, gone).no_duplicates(),
        q.no_duplicates() && q.contains(gone) ==> without_task(q, gone).len() + 1 == q.len(),
    decreases q.len(),
{
    if q.len() > 0 {
        let rest = q.drop_last();
        lemma_without_task(rest, gone);
        let w = without_task(rest, gone);
        assert forall|i: int| 0 <= i < without_task(q, gone).len() implies q.contains(
            #[trigger] without_task(q, gone)[i],
        ) && without_task(q, gone)[i] != gone by {
            if i < w.len() {
                let k = choose|k: int| 0 <= k < rest.len() && rest[k] == w[i];
                assert(q[k] == w[i]);
            } else {
                assert(q[q.len() - 1] == q.last());
            }
        }
        if !q.contains(gone) {
            assert(!rest.contains(gone)) by {
                if rest.contains(gone) {
                    let k = choose|k: int| 0 <= k < rest.len() && rest[k] == gone;
                    assert(q[k] == gone);
                }
            }
            assert(q[q.len() - 1] == q.last());
            assert(without_task(q, gone) =~= q);
        }
        if q.no_duplicates() {
            assert(rest.no_duplicates());
            if q.last() != gone {
                assert forall|i: int, j: int|
                    0 <= i < without_task(q, gone).len() && 0 <= j < without_task(q, gone).len()
                        && i != j implies without_task(q, gone)[i] != without_task(q, gone)[j] by {
                    if i < w.len() && j < w.len() {
                    } else if i < w.len() {
                        let k = choose|k: int| 0 <= k < rest.len() && rest[k] == w[i];
                        assert(q[k] != q[q.len() - 1]);
                    } else {
                        let k = choose|k: int| 0 <= k < rest.len() && rest[k] == w[j];
                        assert(q[k] != q[q.len() - 1]);
                    }
                }
                if q.contains(gone) {
                    let k = choose|k: int| 0 <= k < q.len() && q[k] == gone;
                    assert(rest[k] == gone);
                }
            } else {
                assert(!rest.contains(gone)) by {
                    if rest.contains(gone) {
                        let k = choose|k: int| 0 <= k < rest.len() && rest[k] == gone;
                        assert(q[k] == q[q.len() - 1]);
                    }
                }
            }
        }
    }
}

/// The email of the task `task` with the issue `issue`, as it is handed to
/// the provider.
pub open spec fn issue_delivery(task: DeliveryRow, issue: IssueRow) -> DeliveryView {
    DeliveryView { to: task.subscriber_email, subject: issue.title, text_body: issue.text_content }
}

/// The store of `pre` with the task `task` removed from the queue.
pub open spec fn task_removed(pre: ServiceView, task: DeliveryRow) -> StoreView {
    StoreView {
        issue_delivery_queue: without_task(pre.store.issue_delivery_queue, task),
        ..pre.store
    }
}

/// The pass gave up on the task `task`, whose email was not delivered: by the
/// policy `Drop` the task is removed and the pass counts as completed; by the
/// policy `Retry` the task stays and the pass fails.
pub open spec fn gave_up(
    pre: ServiceView,
    task: DeliveryRow,
    post: ServiceView,
    result: Result<Completed, WorkerError>,
) -> bool {
    match pre.policy {
        FailurePolicy::Drop => {
            &&& post.store == task_removed(pre, task)
            &&& result matches Ok(completed)
            &&& completed.outcome == ExecutionOutcome::TaskCompleted
            &&& completed.skipped matches Some(Skipped::NotDelivered(_))
        },
        FailurePolicy::Retry => {
            &&& post.store == pre.store
            &&& result matches Err(WorkerError::NotDelivered(_))
        },
    }
}

/// What a pass of the worker that took the task `task` does to the service,
/// when the provider answers a request with `reply`.
///
/// A task whose address is no email address is removed, and the provider is
/// not called. Otherwise the email of the issue is handed to the provider,
/// once; where the provider accepts it, the task is removed; where it does
/// not, or where the provider's URL gives nowhere to post to, the policy
/// decides.
pub open spec fn task_handled(
    pre: ServiceView,
    task: DeliveryRow,
    reply: ProviderReply,
    post: ServiceView,
    result: Result<Completed, WorkerError>,
) -> bool {
    let issue = issue_by_id(pre.store.newsletter_issues, task.newsletter_issue_id);
    if !email_is_valid(task.subscriber_email) {
        &&& post.outbox == pre.outbox
        &&& post.store == task_removed(pre, task)
        &&& result matches Ok(completed)
        &&& completed.outcome == ExecutionOutcome::TaskCompleted
        &&& completed.skipped matches Some(Skipped::InvalidEmail)
    } else if outbound_email(
        pre.email_client,
        task.subscriber_email,
        issue.title,
        issue.html_content,
        issue.text_content,
    ) is Err {
        post.outbox == pre.outbox && gave_up(pre, task, post, result)
    } else {
        &&& post.outbox == pre.outbox.push(issue_delivery(task, issue))
        &&& if reply_result(reply) is Ok {
            &&& post.store == task_removed(pre, task)
            &&& result matches Ok(completed)
            &&& completed.outcome == ExecutionOutcome::TaskCompleted
            &&& completed.skipped is None
        } else {
            gave_up(pre, task, post, result)
        }
    }
}

/// What one pass of the worker does to the service, when the provider
/// answers a request with `reply`: nothing where the queue is empty;
/// otherwise it takes some task of the queue, no matter which, and handles
/// it.
pub open spec fn delivered(
    pre: ServiceView,
    reply: ProviderReply,
    post: ServiceView,
    result: Result<Completed, WorkerError>,
) -> bool {
    &&& post.base_url == pre.base_url
    &&& post.email_client == pre.email_client
    &&& post.policy == pre.policy
    &&& if pre.store.issue_delivery_queue.len() == 0 {
        &&& post == pre
        &&& result matches Ok(completed)
        &&& completed.outcome == ExecutionOutcome::EmptyQueue
        &&& completed.skipped is None
    } else {
        exists|task: DeliveryRow| #[trigger]
            pre.store.issue_delivery_queue.contains(task) && task_handled(
                pre,
                task,
                reply,
                post,
                result,
            )
    }
}

/// In a sound store no task is queued twice.
pub proof fn lemma_queue_no_duplicates(s: StoreView)
    requires
        publications_wf(s),
    ensures
        s.issue_delivery_queue.no_duplicates(),
{
    let q = s.issue_delivery_queue;
    assert forall|i: int, j: int| 0 <= i < q.len() && 0 <= j < q.len() && i != j implies q[i]
        != q[j] by {
        if i < j {
            assert(q[i] != q[j]);
        } else {
            assert(q[j] != q[i]);
        }
    }
}

/// Removing a task from the queue leaves a sound store sound.
pub proof fn lemma_task_removed_keeps_wf(pre: StoreView, task: DeliveryRow)
    requires
        store_wf(pre),
    ensures
        store_wf(StoreView {
            issue_delivery_queue: without_task(pre.issue_delivery_queue, task),
            ..pre
        }),
{
    let q = pre.issue_delivery_queue;
    let w = without_task(q, task);
    lemma_without_task(q, task);
    lemma_queue_no_duplicates(pre);
    assert forall|i: int| 0 <= i < w.len() implies has_issue(
        pre.newsletter_issues,
        (#[trigger] w[i]).newsletter_issue_id,
    ) by {
        let k = choose|k: int| 0 <= k < q.len() && q[k] == w[i];
        assert(has_issue(pre.newsletter_issues, q[k].newsletter_issue_id));
    }
}

/// A pass of the worker leaves a sound store sound.
pub proof fn law_delivering_keeps_the_store_sound(
    pre: ServiceView,
    reply: ProviderReply,
    post: ServiceView,
    result: Result<Completed, WorkerError>,
)
    requires
        store_wf(pre.store),
        delivered(pre, reply, post, result),
    ensures
        store_wf(post.store),
{
    if post.store != pre.store {
        let task = choose|task: DeliveryRow| #[trigger]
            pre.store.issue_delivery_queue.contains(task) && task_handled(
                pre,
                task,
                reply,
                post,
                result,
            );
        lemma_task_removed_keeps_wf(pre.store, task);
    }
}

/// The number of tasks of `q` whose address is an email address.
pub open spec fn deliverable(q: Seq<DeliveryRow>) -> nat
    decreases q.len(),
{
    if q.len() == 0 {
        0
    } else if email_is_valid(q.last().subscriber_email) {
        deliverable(q.drop_last()) + 1
    } else {
        deliverable(q.drop_last())
    }
}

/// Removing a task from a queue that holds it once takes one from the number
/// of deliverable tasks where its address is an email address, and nothing
/// otherwise.
pub proof fn lemma_deliverable_without(q: Seq<DeliveryRow>, gone: DeliveryRow)
    requires
        q.no_duplicates(),
        q.contains(gone),
    ensures
        deliverable(q) == deliverable(without_task(q, gone)) + if email_is_valid(
            gone.subscriber_email,
        ) {
            1nat
        } else {
            0nat
        },
    decreases q.len(),
{
    let rest = q.drop_last();
    assert(q[q.len() - 1] == q.last());
    assert(rest.no_duplicates());
    if q.last() == gone {
        assert(!rest.contains(gone)) by {
            if rest.contains(gone) {
                let k = choose|k: int| 0 <= k < rest.len() && rest[k] == gone;
                assert(q[k] == q[q.len() - 1]);
            }
        }
        lemma_without_task(rest, gone);
    } else {
        let k = choose|k: int| 0 <= k < q.len() && q[k] == gone;
        assert(rest[k] == gone);
        lemma_deliverable_without(rest, gone);
        assert(without_task(q, gone).drop_last() =~= without_task(rest, gone));
    }
}

/// The provider accepts every email: it answers with success, and its URL
/// gives somewhere to post to.
pub open spec fn provider_accepts(client: EmailClientView, reply: ProviderReply) -> bool {
    reply_result(reply) is Ok && crate::domain::url::url_joined(client.base_url, "email"@) is Ok
}

/// What running the worker until it stops does to the service, when the
/// provider answers every request with `reply`. Nothing but the queue and
/// the emails handed over changes; the queue does not grow; no email that
/// was handed over is taken back, and at most one email is handed over for
/// each task that was in the queue. Where the provider accepts every email,
/// the queue ends empty after as many passes as there were tasks, and the
/// provider was handed exactly one email for each task whose address is an
/// email address.
pub open spec fn drained(pre: ServiceView, reply: ProviderReply, post: ServiceView, passes: nat) -> bool {
    &&& post.base_url == pre.base_url
    &&& post.email_client == pre.email_client
    &&& post.policy == pre.policy
    &&& post.store.subscriptions == pre.store.subscriptions
    &&& post.store.subscription_tokens == pre.store.subscription_tokens
    &&& post.store.newsletter_issues == pre.store.newsletter_issues
    &&& post.store.idempotency == pre.store.idempotency
    &&& post.store.issue_delivery_queue.len() <= pre.store.issue_delivery_queue.len()
    &&& pre.outbox.len() <= post.outbox.len()
    &&& post.outbox.len() <= pre.outbox.len() + pre.store.issue_delivery_queue.len()
    &&& passes <= pre.store.issue_delivery_queue.len()
    &&& provider_accepts(pre.email_client, reply) ==> {
        &&& post.store.issue_delivery_queue.len() == 0
        &&& post.outbox.len() == pre.outbox.len() + deliverable(pre.store.issue_delivery_queue)
        &&& passes == pre.store.issue_delivery_queue.len()
    }
}

/// Every task of `q` has an address that is an email address.
pub open spec fn all_deliverable(q: Seq<DeliveryRow>) -> bool {
    forall|i: int| 0 <= i < q.len() ==> email_is_valid((#[trigger] q[i]).subscriber_email)
}

/// Where every task has an email address, every task is deliverable.
pub proof fn lemma_all_deliverable(q: Seq<DeliveryRow>)
    requires
        all_deliverable(q),
    ensures
        deliverable(q) == q.len(),
    decreases q.len(),
{
    if q.len() > 0 {
        assert(q[q.len() - 1] == q.last());
        assert forall|i: int| 0 <= i < q.drop_last().len() implies email_is_valid(
            (#[trigger] q.drop_last()[i]).subscriber_email,
        ) by {
            assert(q.drop_last()[i] == q[i]);
        }
        lemma_all_deliverable(q.drop_last());
    }
}

impl Service {
    /// One pass of the worker, the provider answering a request with
    /// `reply`: runs the steps of `try_execute_task` on the store in memory.
    pub fn deliver(&mut self, reply: ProviderReply) -> (r: Result<Completed, WorkerError>)
        ensures
            delivered(old(self)@, reply, final(self)@, r),
    {
        proof {
            use_type_invariant(&*self);
        }
        let ghost pre = self@;
        let (state, action) = try_execute_task(
            WorkerState::Idle,
            WorkerEvent::Start,
            &self.email_client,
            self.policy,
        );
        let taken = self.store.dequeue_task();
        let ghost task = if taken is Some {
            taken->0@
        } else {
            arbitrary()
        };
        let (state, action) = try_execute_task(
            state,
            WorkerEvent::Task(taken),
            &self.email_client,
            self.policy,
        );
        let r = match action {
            WorkerAction::Release => self.finish(state, WorkerEvent::Done),
            WorkerAction::DeleteTask(t) => self.remove(state, t),
            WorkerAction::FetchIssue { newsletter_issue_id } => {
                let found = self.store.get_issue(newsletter_issue_id);
                let event = match found {
                    Some(issue) => {
                        proof {
                            lemma_issue_by_id(pre.store, issue@);
                        }
                        WorkerEvent::Issue(issue)
                    },
                    None => WorkerEvent::Failed,
                };
                let (state, action) = try_execute_task(
                    state,
                    event,
                    &self.email_client,
                    self.policy,
                );
                match action {
                    WorkerAction::Send(mail) => {
                        let delivery = Delivery {
                            to: mail.body.to,
                            subject: mail.body.subject,
                            text_body: mail.body.text_body,
                        };
                        self.hand_over(delivery);
                        let (state, action) = try_execute_task(
                            state,
                            WorkerEvent::Reply(reply),
                            &self.email_client,
                            self.policy,
                        );
                        match action {
                            WorkerAction::DeleteTask(t) => self.remove(state, t),
                            WorkerAction::Release => self.finish(state, WorkerEvent::Done),
                            _ => unreached(),
                        }
                    },
                    WorkerAction::DeleteTask(t) => self.remove(state, t),
                    WorkerAction::Release => self.finish(state, WorkerEvent::Done),
                    _ => unreached(),
                }
            },
            _ => unreached(),
        };
        proof {
            if pre.store.issue_delivery_queue.len() > 0 {
                assert(pre.store.issue_delivery_queue.contains(task));
                assert(task_handled(pre, task, reply, self@, r));
            }
        }
        r
    }

    /// Removes the task from the queue and ends the pass.
    fn remove(&mut self, state: WorkerState, task: crate::database::DeliveryTask) -> (r: Result<
        Completed,
        WorkerError,
    >)
        requires
            state is Deleting,
        ensures
            final(self)@ == (ServiceView { store: task_removed(old(self)@, task@), ..old(self)@ }),
            r matches Ok(completed) && completed.outcome == ExecutionOutcome::TaskCompleted
                && completed.skipped == state->Deleting_0,
    {
        proof {
            use_type_invariant(&*self);
            lemma_task_removed_keeps_wf(self.store@, task@);
        }
        let mut store = self.take_store();
        store.delete_task(task.newsletter_issue_id, task.subscriber_email.as_str());
        self.put_store(store);
        self.finish(state, WorkerEvent::Done)
    }

    /// Ends the pass with the event `event`.
    fn finish(&self, state: WorkerState, event: WorkerEvent) -> (r: Result<Completed, WorkerError>)
        requires
            state is Deleting || state is Releasing,
            event is Done,
        ensures
            state matches WorkerState::Deleting(skipped) ==> r matches Ok(completed)
                && completed.outcome == ExecutionOutcome::TaskCompleted && completed.skipped
                == skipped,
            state matches WorkerState::Releasing(None) ==> r matches Ok(completed)
                && completed.outcome == ExecutionOutcome::EmptyQueue && completed.skipped is None,
            state matches WorkerState::Releasing(Some(e)) ==> r matches Err(
                WorkerError::NotDelivered(_),
            ),
    {
        let (_, action) = try_execute_task(state, event, &self.email_client, self.policy);
        match action {
            WorkerAction::Finish(r) => r,
            _ => unreached(),
        }
    }

    /// Runs passes of the worker, the provider answering every request with
    /// `reply`, until a pass finds the queue empty or fails. Returns the
    /// number of passes that dealt with a task.
    ///
    /// Where the provider accepts every email and its URL gives somewhere to
    /// post to, the queue ends empty, and the provider was handed one email
    /// for each task whose address is an email address: as many as there
    /// were tasks, where every address is one.
    pub fn run_worker_until_stopped(&mut self, reply: ProviderReply) -> (passes: usize)
        ensures
            drained(old(self)@, reply, final(self)@, passes as nat),
    {
        let ghost start = self@;
        let mut passes: usize = 0;
        assert(self.store.issue_delivery_queue.len() == start.store.issue_delivery_queue.len());
        loop
            invariant_except_break
                self@.outbox.len() + self@.store.issue_delivery_queue.len() <= start.outbox.len()
                    + start.store.issue_delivery_queue.len(),
            invariant
                self@.base_url == start.base_url,
                self@.email_client == start.email_client,
                self@.policy == start.policy,
                self@.store.subscriptions == start.store.subscriptions,
                self@.store.subscription_tokens == start.store.subscription_tokens,
                self@.store.newsletter_issues == start.store.newsletter_issues,
                self@.store.idempotency == start.store.idempotency,
                start.outbox.len() <= self@.outbox.len(),
                start.store.issue_delivery_queue.len() <= usize::MAX,
                passes + self@.store.issue_delivery_queue.len()
                    <= start.store.issue_delivery_queue.len(),
                self.store.issue_delivery_queue.len() == self@.store.issue_delivery_queue.len(),
                provider_accepts(start.email_client, reply) ==> self@.outbox.len() + deliverable(
                    self@.store.issue_delivery_queue,
                ) == start.outbox.len() + deliverable(start.store.issue_delivery_queue) && passes
                    + self@.store.issue_delivery_queue.len()
                    == start.store.issue_delivery_queue.len(),
            ensures
                drained(start, reply, self@, passes as nat),
            decreases self@.store.issue_delivery_queue.len(),
        {
            let ghost pre = self@;
            proof {
                use_type_invariant(&*self);
            }
            let result = self.deliver(reply);
            proof {
                if pre.store.issue_delivery_queue.len() > 0 {
                    let q = pre.store.issue_delivery_queue;
                    let task = choose|task: DeliveryRow| #[trigger]
                        q.contains(task) && task_handled(pre, task, reply, self@, result);
                    lemma_queue_no_duplicates(pre.store);
                    lemma_without_task(q, task);
                    lemma_deliverable_without(q, task);
                }
            }
            match result {
                Ok(completed) => match completed.outcome {
                    ExecutionOutcome::EmptyQueue => {
                        break ;
                    },
                    ExecutionOutcome::TaskCompleted => {
                        passes = passes + 1;
                    },
                },
                Err(_) => {
                    break ;
                },
            }
        }
        passes
    }
}

/// A pass that takes a task whose address is no email address removes the
/// task and does not call the provider.
pub proof fn law_poisoned_task_is_dropped(
    pre: ServiceView,
    task: DeliveryRow,
    reply: ProviderReply,
    post: ServiceView,
    result: Result<Completed, WorkerError>,
)
    requires
        store_wf(pre.store),
        pre.store.issue_delivery_queue.contains(task),
        task_handled(pre, task, reply, post, result),
        !email_is_valid(task.subscriber_email),
    ensures
        !post.store.issue_delivery_queue.contains(task),
        post.store.issue_delivery_queue.len() + 1 == pre.store.issue_delivery_queue.len(),
        post.outbox == pre.outbox,
        result is Ok,
{
    let q = pre.store.issue_delivery_queue;
    lemma_queue_no_duplicates(pre.store);
    lemma_without_task(q, task);
    if post.store.issue_delivery_queue.contains(task) {
        let k = choose|k: int|
            0 <= k < post.store.issue_delivery_queue.len() && post.store.issue_delivery_queue[k]
                == task;
        assert(without_task(q, task)[k] != task);
    }
}

/// Given a queue of tasks whose addresses are all email addresses and a
/// provider that accepts every email, the worker empties the queue and hands
/// the provider exactly as many emails as there were tasks.
pub proof fn law_worker_empties_the_queue(
    pre: ServiceView,
    reply: ProviderReply,
    post: ServiceView,
    passes: nat,
)
    requires
        drained(pre, reply, post, passes),
        provider_accepts(pre.email_client, reply),
        all_deliverable(pre.store.issue_delivery_queue),
    ensures
        post.store.issue_delivery_queue.len() == 0,
        post.outbox.len() == pre.outbox.len() + pre.store.issue_delivery_queue.len(),
{
    lemma_all_deliverable(pre.store.issue_delivery_queue);
}

/// A pass of the worker undoes nothing that is settled: it touches the queue
/// alone.
pub proof fn law_delivering_undoes_nothing(
    pre: ServiceView,
    reply: ProviderReply,
    post: ServiceView,
    result: Result<Completed, WorkerError>,
)
    requires
        delivered(pre, reply, post, result),
    ensures
        nothing_undone(pre.store, post.store),
        post.store.subscriptions == pre.store.subscriptions,
        post.store.newsletter_issues == pre.store.newsletter_issues,
        post.store.idempotency == pre.store.idempotency,
{
}

} // verus!
