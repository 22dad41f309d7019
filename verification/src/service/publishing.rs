//! Publishing an issue, on the store in memory: what it does, that it keeps
//! the store sound, and what follows of it.

use crate::database::{IssueRow, SubscriberRow};
use crate::email_client::ProviderReply;
use crate::service::delivering::drained;
use crate::domain::subscription::status_text;
use crate::domain::SubscriptionStatus;
use crate::idempotency::key::key_is_valid;
use crate::idempotency::persistence::{columns_of_response, saved_response, IdempotencyRow};
use crate::routes::admin::newsletters::{
    login_reply, malformed_reply, publish_newsletter_with_idempotent_handling, publish_response,
    published_reply, NewsletterFormData, PublishAction, PublishEvent, PublishReply, PublishState,
};
use crate::service::{nothing_undone, publications_wf, store_wf, Service, ServiceView};
use crate::store::{has_issue, has_key, rows, tasks_for, StoreView};
use crate::utils::InternalServerError;
use vstd::pervasive::unreached;
use vstd::prelude::*;

verus! {

broadcast use crate::service::lemma_service_view;

/// The row of the user `user_id` under the key `key` among the rows `s`.
pub open spec fn row_of_key(s: Seq<IdempotencyRow>, user_id: u128, key: Seq<char>) -> IdempotencyRow {
    s[choose|i: int|
        0 <= i < s.len() && (#[trigger] s[i]).user_id == user_id && s[i].idempotency_key == key]
}

/// In a sound store, a kept row that is there is the row of its user and
/// key, and holds no half answer.
pub proof fn lemma_row_of_key(s: StoreView, row: IdempotencyRow)
    requires
        publications_wf(s),
        s.idempotency.contains(row),
    ensures
        row_of_key(s.idempotency, row.user_id, row.idempotency_key) == row,
        has_key(s.idempotency, row.user_id, row.idempotency_key),
        !row.torn,
{
    let k = choose|k: int| 0 <= k < s.idempotency.len() && s.idempotency[k] == row;
    assert(s.idempotency[k].user_id == row.user_id && s.idempotency[k].idempotency_key
        == row.idempotency_key);
    let i = choose|i: int|
        0 <= i < s.idempotency.len() && (#[trigger] s.idempotency[i]).user_id == row.user_id
            && s.idempotency[i].idempotency_key == row.idempotency_key;
    if i < k {
        assert(!(s.idempotency[i].user_id == s.idempotency[k].user_id
            && s.idempotency[i].idempotency_key == s.idempotency[k].idempotency_key));
    } else if k < i {
        assert(!(s.idempotency[k].user_id == s.idempotency[i].user_id
            && s.idempotency[k].idempotency_key == s.idempotency[i].idempotency_key));
    }
}

/// The number of subscribers of `s` whose stored status is `confirmed`.
pub open spec fn confirmed_count(s: Seq<SubscriberRow>) -> nat
    decreases s.len(),
{
    if s.len() == 0 {
        0
    } else if s.last().status == status_text(SubscriptionStatus::Confirmed) {
        confirmed_count(s.drop_last()) + 1
    } else {
        confirmed_count(s.drop_last())
    }
}

/// The tasks queued for an issue: one for each confirmed subscriber, each of
/// that issue and for the address of a confirmed subscriber; and no task
/// twice where no two subscribers share an address.
pub proof fn lemma_tasks_for(s: Seq<SubscriberRow>, id: u128)
    ensures
        tasks_for(s, id, status_text(SubscriptionStatus::Confirmed)).len() == confirmed_count(s),
        forall|i: int|
            0 <= i < tasks_for(s, id, status_text(SubscriptionStatus::Confirmed)).len() ==> {
                let task = #[trigger] tasks_for(
                    s,
                    id,
                    status_text(SubscriptionStatus::Confirmed),
                )[i];
                &&& task.newsletter_issue_id == id
                &&& exists|k: int|
                    0 <= k < s.len() && (#[trigger] s[k]).email == task.subscriber_email && s[k].status
                        == status_text(SubscriptionStatus::Confirmed)
            },
        (forall|i: int, j: int|
            #![trigger s[i], s[j]]
            0 <= i < j < s.len() ==> s[i].email != s[j].email) ==> tasks_for(
            s,
            id,
            status_text(SubscriptionStatus::Confirmed),
        ).no_duplicates(),
    decreases s.len(),
{
    let status = status_text(SubscriptionStatus::Confirmed);
    if s.len() > 0 {
        let rest = s.drop_last();
        lemma_tasks_for(rest, id);
        let t = tasks_for(s, id, status);
        let tr = tasks_for(rest, id, status);
        assert forall|i: int| 0 <= i < t.len() implies {
            let task = #[trigger] t[i];
            &&& task.newsletter_issue_id == id
            &&& exists|k: int|
                0 <= k < s.len() && (#[trigger] s[k]).email == task.subscriber_email && s[k].status
                    == status
        } by {
            if i < tr.len() {
                let k = choose|k: int|
                    0 <= k < rest.len() && (#[trigger] rest[k]).email == tr[i].subscriber_email
                        && rest[k].status == status;
                assert(s[k].email == t[i].subscriber_email && s[k].status == status);
            } else {
                assert(s[s.len() - 1].email == t[i].subscriber_email);
            }
        }
        if forall|i: int, j: int|
            #![trigger s[i], s[j]]
            0 <= i < j < s.len() ==> s[i].email != s[j].email {
            assert forall|i: int, j: int|
                #![trigger rest[i], rest[j]]
                0 <= i < j < rest.len() implies rest[i].email != rest[j].email by {
                assert(s[i].email != s[j].email);
            }
            assert forall|i: int, j: int| 0 <= i < t.len() && 0 <= j < t.len() && i != j implies t[i]
                != t[j] by {
                if i < tr.len() && j < tr.len() {
                } else if i < tr.len() {
                    let k = choose|k: int|
                        0 <= k < rest.len() && (#[trigger] rest[k]).email
                            == tr[i].subscriber_email && rest[k].status == status;
                    assert(s[k].email != s[s.len() - 1].email);
                } else {
                    let k = choose|k: int|
                        0 <= k < rest.len() && (#[trigger] rest[k]).email
                            == tr[j].subscriber_email && rest[k].status == status;
                    assert(s[k].email != s[s.len() - 1].email);
                }
            }
        }
    }
}

/// The store of `pre` after the issue `issue` was published by `user_id`
/// under `key`: the issue is added, one task is queued for each confirmed
/// subscriber, and the response is kept under the key.
pub open spec fn issue_published(
    pre: StoreView,
    user_id: u128,
    key: Seq<char>,
    issue: IssueRow,
) -> StoreView {
    StoreView {
        newsletter_issues: pre.newsletter_issues.push(issue),
        issue_delivery_queue: pre.issue_delivery_queue + tasks_for(
            pre.subscriptions,
            issue.newsletter_issue_id,
            status_text(SubscriptionStatus::Confirmed),
        ),
        idempotency: pre.idempotency.push(
            IdempotencyRow {
                user_id,
                idempotency_key: key,
                response: Some(columns_of_response(publish_response())),
                torn: false,
            },
        ),
        ..pre
    }
}

/// What a request to publish does to the service. The form has the title
/// `title`, the bodies `text_content` and `html_content`, and the key `key`;
/// `user_id` is the user that the session names, if any.
///
/// No email is handed to the provider. A request without a user, one with a
/// refused key, and one whose key the user has used before change nothing;
/// the last is answered with what is kept under the key. Under a new key,
/// either nothing is written and the request fails (the fresh identifier of
/// the issue was taken), or the issue, its tasks and the kept response are
/// written together.
pub open spec fn published(
    pre: ServiceView,
    user_id: Option<u128>,
    title: Seq<char>,
    text_content: Seq<char>,
    html_content: Seq<char>,
    key: Seq<char>,
    post: ServiceView,
    result: Result<PublishReply, InternalServerError>,
) -> bool {
    &&& post.outbox == pre.outbox
    &&& post.base_url == pre.base_url
    &&& post.email_client == pre.email_client
    &&& post.policy == pre.policy
    &&& match user_id {
        None => post == pre && (result matches Ok(reply) && reply@ == login_reply()),
        Some(user) => if !key_is_valid(key) {
            post == pre && (result matches Ok(reply) && reply@ == malformed_reply(key))
        } else if has_key(pre.store.idempotency, user, key) {
            &&& post == pre
            &&& match saved_response(Some(row_of_key(pre.store.idempotency, user, key))) {
                Ok(Some(response)) => result matches Ok(reply) && reply@ == published_reply(
                    response,
                ),
                _ => result is Err,
            }
        } else {
            ||| post == pre && result is Err
            ||| {
                let issue = post.store.newsletter_issues.last();
                &&& post.store == issue_published(pre.store, user, key, issue)
                &&& issue.title == title
                &&& issue.text_content == text_content
                &&& issue.html_content == html_content
                &&& !has_issue(pre.store.newsletter_issues, issue.newsletter_issue_id)
                &&& result matches Ok(reply)
                &&& reply@ == published_reply(publish_response())
            }
        },
    }
}

/// Publishing an issue under an identifier that no issue has, for a user
/// and a key that has no row, leaves a sound store sound.
pub proof fn lemma_issue_published_keeps_wf(
    pre: StoreView,
    user: u128,
    key: Seq<char>,
    issue: IssueRow,
)
    requires
        store_wf(pre),
        !has_issue(pre.newsletter_issues, issue.newsletter_issue_id),
        !has_key(pre.idempotency, user, key),
    ensures
        store_wf(issue_published(pre, user, key, issue)),
{
    let post = issue_published(pre, user, key, issue);
    let id = issue.newsletter_issue_id;
    let n = pre.newsletter_issues.len() as int;
    let old_q = pre.issue_delivery_queue;
    let new_q = tasks_for(pre.subscriptions, id, status_text(SubscriptionStatus::Confirmed));
    let q = post.issue_delivery_queue;
    lemma_tasks_for(pre.subscriptions, id);
    assert forall|i: int, j: int|
        #![trigger post.newsletter_issues[i], post.newsletter_issues[j]]
        0 <= i < j < post.newsletter_issues.len() implies post.newsletter_issues[i].newsletter_issue_id
        != post.newsletter_issues[j].newsletter_issue_id by {
        assert(post.newsletter_issues[i] == pre.newsletter_issues[i]);
        if j < n {
            assert(post.newsletter_issues[j] == pre.newsletter_issues[j]);
        }
    }
    assert forall|i: int| 0 <= i < q.len() implies has_issue(
        post.newsletter_issues,
        (#[trigger] q[i]).newsletter_issue_id,
    ) by {
        if i < old_q.len() {
            assert(q[i] == old_q[i]);
            let k = choose|k: int|
                0 <= k < n && (#[trigger] pre.newsletter_issues[k]).newsletter_issue_id
                    == old_q[i].newsletter_issue_id;
            assert(post.newsletter_issues[k].newsletter_issue_id == q[i].newsletter_issue_id);
        } else {
            assert(q[i] == new_q[i - old_q.len()]);
            assert(post.newsletter_issues[n].newsletter_issue_id == id);
        }
    }
    assert forall|i: int, j: int|
        #![trigger q[i], q[j]]
        0 <= i < j < q.len() implies q[i] != q[j] by {
        if j < old_q.len() {
            assert(q[i] == old_q[i] && q[j] == old_q[j]);
        } else if i < old_q.len() {
            assert(q[i] == old_q[i]);
            assert(q[j] == new_q[j - old_q.len()]);
            assert(has_issue(pre.newsletter_issues, old_q[i].newsletter_issue_id));
        } else {
            assert(q[i] == new_q[i - old_q.len()]);
            assert(q[j] == new_q[j - old_q.len()]);
        }
    }
    let m = pre.idempotency.len() as int;
    assert forall|i: int, j: int|
        #![trigger post.idempotency[i], post.idempotency[j]]
        0 <= i < j < post.idempotency.len() implies !(post.idempotency[i].user_id
        == post.idempotency[j].user_id && post.idempotency[i].idempotency_key
        == post.idempotency[j].idempotency_key) by {
        assert(post.idempotency[i] == pre.idempotency[i]);
        if j < m {
            assert(post.idempotency[j] == pre.idempotency[j]);
        }
    }
    assert forall|i: int| 0 <= i < post.idempotency.len() implies !(
    #[trigger] post.idempotency[i]).torn by {
        if i < m {
            assert(post.idempotency[i] == pre.idempotency[i]);
        }
    }
}

/// Publishing leaves a sound store sound.
pub proof fn law_publishing_keeps_the_store_sound(
    pre: ServiceView,
    user_id: Option<u128>,
    title: Seq<char>,
    text_content: Seq<char>,
    html_content: Seq<char>,
    key: Seq<char>,
    post: ServiceView,
    result: Result<PublishReply, InternalServerError>,
)
    requires
        store_wf(pre.store),
        published(pre, user_id, title, text_content, html_content, key, post, result),
    ensures
        store_wf(post.store),
{
    if post.store != pre.store {
        lemma_issue_published_keeps_wf(
            pre.store,
            user_id->0,
            key,
            post.store.newsletter_issues.last(),
        );
    }
}

impl Service {
    /// Publishes with `form` as the user that the session names, if any: runs
    /// the steps of `publish_newsletter_with_idempotent_handling` on the
    /// store in memory, from the form to the answer.
    pub fn publish(&mut self, user_id: Option<u128>, form: NewsletterFormData) -> (r: Result<
        PublishReply,
        InternalServerError,
    >)
        ensures
            published(
                old(self)@,
                user_id,
                form.title@,
                form.text_content@,
                form.html_content@,
                form.idempotency_key@,
                final(self)@,
                r,
            ),
    {
        proof {
            use_type_invariant(&*self);
        }
        let ghost pre = self@;
        let ghost title = form.title@;
        let ghost text_content = form.text_content@;
        let ghost html_content = form.html_content@;
        let ghost key = form.idempotency_key@;
        let (state, action) = publish_newsletter_with_idempotent_handling(
            PublishState::Received,
            PublishEvent::Request { user_id, form },
        );
        let (user, idempotency_key) = match action {
            PublishAction::Finish(r) => {
                return r;
            },
            PublishAction::Reserve { user_id, idempotency_key } => (user_id, idempotency_key),
            _ => {
                return unreached();
            },
        };
        let mut tx = self.store.snapshot();
        let inserted = tx.reserve_key(user, idempotency_key.as_str());
        let (state, action) = publish_newsletter_with_idempotent_handling(
            state,
            PublishEvent::Reserved(inserted),
        );
        match action {
            PublishAction::FetchSaved { user_id, idempotency_key } => {
                let found = self.store.find_key(user_id, idempotency_key.as_str());
                proof {
                    if found is Some {
                        lemma_row_of_key(pre.store, found->0@);
                    }
                }
                let (_, action) = publish_newsletter_with_idempotent_handling(
                    state,
                    PublishEvent::Saved(found),
                );
                match action {
                    PublishAction::Finish(r) => r,
                    _ => unreached(),
                }
            },
            PublishAction::InsertIssue(issue) => {
                let ghost new_issue = issue@;
                let inserted = tx.insert_newsletter_issue(issue);
                let event = if inserted {
                    PublishEvent::Done
                } else {
                    PublishEvent::Failed
                };
                let (state, action) = publish_newsletter_with_idempotent_handling(state, event);
                let (newsletter_issue_id, status) = match action {
                    PublishAction::Finish(r) => {
                        return r;
                    },
                    PublishAction::Enqueue { newsletter_issue_id, status } => (
                        newsletter_issue_id,
                        status,
                    ),
                    _ => {
                        return unreached();
                    },
                };
                tx.enqueue_delivery_tasks(newsletter_issue_id, status.as_str());
                let (state, action) = publish_newsletter_with_idempotent_handling(
                    state,
                    PublishEvent::Done,
                );
                let record = match action {
                    PublishAction::SaveResponse(record) => record,
                    _ => {
                        return unreached();
                    },
                };
                let ghost reserved = tx@.idempotency;
                tx.save_answer(&record);
                proof {
                    let kept = pre.store.idempotency.push(record@);
                    assert(tx@.idempotency =~= kept) by {
                        assert forall|i: int| 0 <= i < kept.len() implies tx@.idempotency[i]
                            == kept[i] by {
                            if i < pre.store.idempotency.len() {
                                assert(reserved[i] == pre.store.idempotency[i]);
                            }
                        }
                    }
                }
                proof {
                    assert(tx@.newsletter_issues.last() == new_issue);
                    assert(tx@ == issue_published(pre.store, user, key, new_issue));
                    lemma_issue_published_keeps_wf(pre.store, user, key, new_issue);
                }
                self.store = tx;
                let (_, action) = publish_newsletter_with_idempotent_handling(
                    state,
                    PublishEvent::Done,
                );
                let r = match action {
                    PublishAction::Finish(r) => r,
                    _ => unreached(),
                };
                r
            },
            _ => unreached(),
        }
    }
}

/// Publishing under a new key writes exactly one issue, exactly one task for
/// each subscriber who is confirmed at that moment, and keeps the response
/// under the key. Submitting the same key again, whatever else the form
/// says, writes no issue and no task, and is answered with the same
/// response: same status, same headers, same body.
pub proof fn law_publishing_twice_publishes_once(
    before: ServiceView,
    user: u128,
    title: Seq<char>,
    text_content: Seq<char>,
    html_content: Seq<char>,
    second_title: Seq<char>,
    second_text_content: Seq<char>,
    second_html_content: Seq<char>,
    key: Seq<char>,
    between: ServiceView,
    after: ServiceView,
    first_result: Result<PublishReply, InternalServerError>,
    second_result: Result<PublishReply, InternalServerError>,
)
    requires
        store_wf(before.store),
        key_is_valid(key),
        !has_key(before.store.idempotency, user, key),
        published(
            before,
            Some(user),
            title,
            text_content,
            html_content,
            key,
            between,
            first_result,
        ),
        first_result is Ok,
        published(
            between,
            Some(user),
            second_title,
            second_text_content,
            second_html_content,
            key,
            after,
            second_result,
        ),
    ensures
        between.store.newsletter_issues.len() == before.store.newsletter_issues.len() + 1,
        between.store.issue_delivery_queue.len() == before.store.issue_delivery_queue.len()
            + confirmed_count(before.store.subscriptions),
        has_key(between.store.idempotency, user, key),
        after == between,
        second_result is Ok,
        second_result->Ok_0@ == first_result->Ok_0@,
{
    law_publishing_keeps_the_store_sound(
        before,
        Some(user),
        title,
        text_content,
        html_content,
        key,
        between,
        first_result,
    );
    let issue = between.store.newsletter_issues.last();
    lemma_tasks_for(before.store.subscriptions, issue.newsletter_issue_id);
    let kept = IdempotencyRow {
        user_id: user,
        idempotency_key: key,
        response: Some(columns_of_response(publish_response())),
        torn: false,
    };
    let m = before.store.idempotency.len() as int;
    assert(between.store.idempotency[m] == kept);
    assert(between.store.idempotency.contains(kept));
    lemma_row_of_key(between.store, kept);
    crate::idempotency::persistence::law_saved_answer_is_read_back(
        user,
        key,
        publish_response(),
    );
}

/// A request to publish that comes without a logged-in user is sent to
/// `/login`, and writes nothing: no issue, no task, no kept response.
pub proof fn law_anonymous_publish_changes_nothing(
    pre: ServiceView,
    title: Seq<char>,
    text_content: Seq<char>,
    html_content: Seq<char>,
    key: Seq<char>,
    post: ServiceView,
    result: Result<PublishReply, InternalServerError>,
)
    requires
        published(pre, None, title, text_content, html_content, key, post, result),
    ensures
        post == pre,
        result matches Ok(reply) && reply@.response == crate::http::redirect_view("/login"@)
            && reply@.flash is None,
{
}

/// Publishing hands no email to the provider, whoever asks and however often:
/// the emails go out only as the worker takes the tasks from the queue, one
/// email for each task.
pub proof fn law_publishing_sends_nothing(
    pre: ServiceView,
    user_id: Option<u128>,
    title: Seq<char>,
    text_content: Seq<char>,
    html_content: Seq<char>,
    key: Seq<char>,
    post: ServiceView,
    result: Result<PublishReply, InternalServerError>,
)
    requires
        published(pre, user_id, title, text_content, html_content, key, post, result),
    ensures
        post.outbox == pre.outbox,
{
}

/// Publishing undoes nothing that is settled: an issue never changes once
/// it is stored, and an answer never changes once it is kept.
pub proof fn law_publishing_undoes_nothing(
    pre: ServiceView,
    user_id: Option<u128>,
    title: Seq<char>,
    text_content: Seq<char>,
    html_content: Seq<char>,
    key: Seq<char>,
    post: ServiceView,
    result: Result<PublishReply, InternalServerError>,
)
    requires
        published(pre, user_id, title, text_content, html_content, key, post, result),
    ensures
        nothing_undone(pre.store, post.store),
        post.store.subscriptions == pre.store.subscriptions,
        post.store.subscription_tokens == pre.store.subscription_tokens,
{
}

/// Keys are scoped by user: a key that one user has used is new to every
/// other user, whose request under it is not answered from what is kept for
/// the first, but publishes, or fails.
pub proof fn law_keys_are_scoped_by_user(
    before: ServiceView,
    first_user: u128,
    second_user: u128,
    title: Seq<char>,
    text_content: Seq<char>,
    html_content: Seq<char>,
    key: Seq<char>,
    between: ServiceView,
    after: ServiceView,
    first_result: Result<PublishReply, InternalServerError>,
    second_result: Result<PublishReply, InternalServerError>,
)
    requires
        store_wf(before.store),
        key_is_valid(key),
        first_user != second_user,
        !has_key(before.store.idempotency, second_user, key),
        published(
            before,
            Some(first_user),
            title,
            text_content,
            html_content,
            key,
            between,
            first_result,
        ),
        published(
            between,
            Some(second_user),
            title,
            text_content,
            html_content,
            key,
            after,
            second_result,
        ),
    ensures
        !has_key(between.store.idempotency, second_user, key),
        second_result is Ok ==> after.store.newsletter_issues.len()
            == between.store.newsletter_issues.len() + 1 && has_key(
            after.store.idempotency,
            second_user,
            key,
        ),
{
    if has_key(between.store.idempotency, second_user, key) {
        let i = choose|i: int|
            0 <= i < between.store.idempotency.len() && (
            #[trigger] between.store.idempotency[i]).user_id == second_user
                && between.store.idempotency[i].idempotency_key == key;
        if i < before.store.idempotency.len() {
            assert(before.store.idempotency[i].user_id == second_user);
        }
    }
    if second_result is Ok {
        let m = between.store.idempotency.len() as int;
        assert(after.store.idempotency[m].user_id == second_user);
    }
}

/// Two submissions under one key, the first of which succeeds, queue the
/// issue once: whatever the worker then does, and whatever the provider
/// replies, the provider is handed at most one email for each task that was
/// queued before and for each subscriber who was confirmed when the first
/// submission was committed.
pub proof fn law_two_submissions_deliver_once(
    before: ServiceView,
    user: u128,
    title: Seq<char>,
    text_content: Seq<char>,
    html_content: Seq<char>,
    second_title: Seq<char>,
    second_text_content: Seq<char>,
    second_html_content: Seq<char>,
    key: Seq<char>,
    between: ServiceView,
    after: ServiceView,
    first_result: Result<PublishReply, InternalServerError>,
    second_result: Result<PublishReply, InternalServerError>,
    reply: ProviderReply,
    end: ServiceView,
    passes: nat,
)
    requires
        store_wf(before.store),
        key_is_valid(key),
        !has_key(before.store.idempotency, user, key),
        published(
            before,
            Some(user),
            title,
            text_content,
            html_content,
            key,
            between,
            first_result,
        ),
        first_result is Ok,
        published(
            between,
            Some(user),
            second_title,
            second_text_content,
            second_html_content,
            key,
            after,
            second_result,
        ),
        drained(after, reply, end, passes),
    ensures
        second_result is Ok,
        second_result->Ok_0@.response == first_result->Ok_0@.response,
        end.outbox.len() <= before.outbox.len() + before.store.issue_delivery_queue.len()
            + confirmed_count(before.store.subscriptions),
{
    law_publishing_twice_publishes_once(
        before,
        user,
        title,
        text_content,
        html_content,
        second_title,
        second_text_content,
        second_html_content,
        key,
        between,
        after,
        first_result,
        second_result,
    );
}

/// Every task that publishing queues is a task of the new issue for the
/// address of a subscriber who is confirmed at that moment, and the tasks
/// that were queued before stay where they were.
pub proof fn law_tasks_are_for_confirmed_subscribers(
    pre: ServiceView,
    user_id: Option<u128>,
    title: Seq<char>,
    text_content: Seq<char>,
    html_content: Seq<char>,
    key: Seq<char>,
    post: ServiceView,
    result: Result<PublishReply, InternalServerError>,
    i: int,
)
    requires
        published(pre, user_id, title, text_content, html_content, key, post, result),
        0 <= i < post.store.issue_delivery_queue.len(),
    ensures
        i < pre.store.issue_delivery_queue.len() ==> post.store.issue_delivery_queue[i]
            == pre.store.issue_delivery_queue[i],
        i >= pre.store.issue_delivery_queue.len() ==> {
            let task = post.store.issue_delivery_queue[i];
            &&& task.newsletter_issue_id
                == post.store.newsletter_issues.last().newsletter_issue_id
            &&& exists|k: int|
                0 <= k < pre.store.subscriptions.len() && (
                #[trigger] pre.store.subscriptions[k]).email == task.subscriber_email
                    && pre.store.subscriptions[k].status == status_text(
                    SubscriptionStatus::Confirmed,
                )
        },
{
    if post.store != pre.store {
        let id = post.store.newsletter_issues.last().newsletter_issue_id;
        lemma_tasks_for(pre.store.subscriptions, id);
        let new_q = tasks_for(
            pre.store.subscriptions,
            id,
            status_text(SubscriptionStatus::Confirmed),
        );
        if i >= pre.store.issue_delivery_queue.len() {
            assert(post.store.issue_delivery_queue[i] == new_q[i
                - pre.store.issue_delivery_queue.len()]);
        }
    }
}

} // verus!
