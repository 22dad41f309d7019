//! A store in memory: the five tables as vectors, and on them the statements
//! that the service issues. It stands for the relational store wherever the
//! service is run without one, and it is what the laws of the service are
//! stated on. Where a statement may pick any of several rows, so may the
//! store: its contracts promise a row that fits, not a particular one.

use crate::database::{
    DeliveryRow, DeliveryTask, IssueRecord, IssueRow, SubscriberRecord, SubscriberRow,
    TokenRecord, TokenRow,
};
use crate::idempotency::persistence::{IdempotencyRecord, IdempotencyRow};
use crate::text::same_text;
use vstd::prelude::*;

verus! {

/// The rows `v` as mathematics.
pub open spec fn rows<T: View>(v: Seq<T>) -> Seq<T::V> {
    Seq::new(v.len(), |i: int| v[i]@)
}

/// The rows after one more was added.
pub proof fn lemma_rows_push<T: View>(v: Seq<T>, x: T)
    ensures
        rows(v.push(x)) == rows(v).push(x@),
{
    assert(rows(v.push(x)) =~= rows(v).push(x@));
}

/// The tables.
#[derive(Debug)]
pub struct Store {
    pub subscriptions: Vec<SubscriberRecord>,
    pub subscription_tokens: Vec<TokenRecord>,
    pub newsletter_issues: Vec<IssueRecord>,
    pub issue_delivery_queue: Vec<DeliveryTask>,
    pub idempotency: Vec<IdempotencyRecord>,
}

/// A `Store` as mathematics.
pub struct StoreView {
    pub subscriptions: Seq<SubscriberRow>,
    pub subscription_tokens: Seq<TokenRow>,
    pub newsletter_issues: Seq<IssueRow>,
    pub issue_delivery_queue: Seq<DeliveryRow>,
    pub idempotency: Seq<IdempotencyRow>,
}

impl View for Store {
    type V = StoreView;

    open spec fn view(&self) -> StoreView {
        StoreView {
            subscriptions: rows(self.subscriptions@),
            subscription_tokens: rows(self.subscription_tokens@),
            newsletter_issues: rows(self.newsletter_issues@),
            issue_delivery_queue: rows(self.issue_delivery_queue@),
            idempotency: rows(self.idempotency@),
        }
    }
}

/// Some subscriber has the address `email`.
pub open spec fn has_email(s: Seq<SubscriberRow>, email: Seq<char>) -> bool {
    exists|i: int| 0 <= i < s.len() && (#[trigger] s[i]).email == email
}

/// Some subscriber has the identifier `id`.
pub open spec fn has_subscriber(s: Seq<SubscriberRow>, id: u128) -> bool {
    exists|i: int| 0 <= i < s.len() && (#[trigger] s[i]).id == id
}

/// Some token row holds the token `token`.
pub open spec fn has_token(t: Seq<TokenRow>, token: Seq<char>) -> bool {
    exists|i: int| 0 <= i < t.len() && (#[trigger] t[i]).subscription_token == token
}

/// Some token row belongs to the subscriber `id`.
pub open spec fn has_token_of(t: Seq<TokenRow>, id: u128) -> bool {
    exists|i: int| 0 <= i < t.len() && (#[trigger] t[i]).subscriber_id == id
}

/// The subscribers after the status of `id` was set to `status`.
pub open spec fn with_status(s: Seq<SubscriberRow>, id: u128, status: Seq<char>) -> Seq<
    SubscriberRow,
> {
    Seq::new(
        s.len(),
        |i: int|
            if s[i].id == id {
                SubscriberRow { status, ..s[i] }
            } else {
                s[i]
            },
    )
}

impl Store {
    /// A store with no rows.
    pub fn new() -> (r: Store)
        ensures
            r@.subscriptions.len() == 0,
            r@.subscription_tokens.len() == 0,
            r@.newsletter_issues.len() == 0,
            r@.issue_delivery_queue.len() == 0,
            r@.idempotency.len() == 0,
    {
        Store {
            subscriptions: Vec::new(),
            subscription_tokens: Vec::new(),
            newsletter_issues: Vec::new(),
            issue_delivery_queue: Vec::new(),
            idempotency: Vec::new(),
        }
    }

    /// A subscriber with the address `email`, where there is one.
    pub fn get_existing_subscriber(&self, email: &str) -> (r: Option<SubscriberRecord>)
        ensures
            r matches Some(row) ==> row.email@ == email@ && self@.subscriptions.contains(row@),
            r is None ==> !has_email(self@.subscriptions, email@),
    {
        let mut i: usize = 0;
        while i < self.subscriptions.len()
            invariant
                i <= self.subscriptions.len(),
                forall|j: int| 0 <= j < i ==> (#[trigger] self@.subscriptions[j]).email != email@,
            decreases self.subscriptions.len() - i,
        {
            if same_text(self.subscriptions[i].email.as_str(), email) {
                let row = self.subscriptions[i].clone();
                assert(self@.subscriptions[i as int] == row@);
                return Some(row);
            }
            i += 1;
        }
        None
    }

    /// Inserts a subscriber. Refused, with the store unchanged, where the
    /// identifier or the address is taken.
    pub fn insert_subscriber(&mut self, row: SubscriberRecord) -> (inserted: bool)
        ensures
            inserted <==> !has_subscriber(old(self)@.subscriptions, row.id) && !has_email(
                old(self)@.subscriptions,
                row.email@,
            ),
            inserted ==> final(self)@ == (StoreView {
                subscriptions: old(self)@.subscriptions.push(row@),
                ..old(self)@
            }),
            !inserted ==> final(self)@ == old(self)@,
    {
        let mut i: usize = 0;
        while i < self.subscriptions.len()
            invariant
                i <= self.subscriptions.len(),
                forall|j: int|
                    0 <= j < i ==> (#[trigger] self@.subscriptions[j]).id != row.id
                        && self@.subscriptions[j].email != row.email@,
            decreases self.subscriptions.len() - i,
        {
            if self.subscriptions[i].id == row.id || same_text(
                self.subscriptions[i].email.as_str(),
                row.email.as_str(),
            ) {
                assert(self@.subscriptions[i as int] == self.subscriptions@[i as int]@);
                return false;
            }
            i += 1;
        }
        proof {
            lemma_rows_push(self.subscriptions@, row);
        }
        self.subscriptions.push(row);
        true
    }

    /// A token of the subscriber `subscriber_id`, where there is one.
    pub fn get_existing_subscription_token(&self, subscriber_id: u128) -> (r: Option<String>)
        ensures
            r matches Some(token) ==> self@.subscription_tokens.contains(
                TokenRow { subscription_token: token@, subscriber_id },
            ),
            r is None ==> !has_token_of(self@.subscription_tokens, subscriber_id),
    {
        let mut i: usize = 0;
        while i < self.subscription_tokens.len()
            invariant
                i <= self.subscription_tokens.len(),
                forall|j: int|
                    0 <= j < i ==> (#[trigger] self@.subscription_tokens[j]).subscriber_id
                        != subscriber_id,
            decreases self.subscription_tokens.len() - i,
        {
            if self.subscription_tokens[i].subscriber_id == subscriber_id {
                let token = self.subscription_tokens[i].subscription_token.clone();
                assert(self@.subscription_tokens[i as int] == (TokenRow {
                    subscription_token: token@,
                    subscriber_id,
                }));
                return Some(token);
            }
            i += 1;
        }
        None
    }

    /// Inserts a token for a subscriber. Refused, with the store unchanged,
    /// where the token is taken.
    pub fn store_token(&mut self, subscriber_id: u128, subscription_token: String) -> (inserted:
        bool)
        ensures
            inserted <==> !has_token(old(self)@.subscription_tokens, subscription_token@),
            inserted ==> final(self)@ == (StoreView {
                subscription_tokens: old(self)@.subscription_tokens.push(
                    TokenRow { subscription_token: subscription_token@, subscriber_id },
                ),
                ..old(self)@
            }),
            !inserted ==> final(self)@ == old(self)@,
    {
        let mut i: usize = 0;
        while i < self.subscription_tokens.len()
            invariant
                i <= self.subscription_tokens.len(),
                forall|j: int|
                    0 <= j < i ==> (#[trigger] self@.subscription_tokens[j]).subscription_token
                        != subscription_token@,
            decreases self.subscription_tokens.len() - i,
        {
            if same_text(
                self.subscription_tokens[i].subscription_token.as_str(),
                subscription_token.as_str(),
            ) {
                assert(self@.subscription_tokens[i as int]
                    == self.subscription_tokens@[i as int]@);
                return false;
            }
            i += 1;
        }
        let row = TokenRecord { subscription_token, subscriber_id };
        proof {
            lemma_rows_push(self.subscription_tokens@, row);
        }
        self.subscription_tokens.push(row);
        true
    }

    /// The subscriber of the token `token`, where a row holds it.
    pub fn get_subscriber_id_from_token(&self, token: &str) -> (r: Option<u128>)
        ensures
            r matches Some(id) ==> self@.subscription_tokens.contains(
                TokenRow { subscription_token: token@, subscriber_id: id },
            ),
            r is None ==> !has_token(self@.subscription_tokens, token@),
    {
        let mut i: usize = 0;
        while i < self.subscription_tokens.len()
            invariant
                i <= self.subscription_tokens.len(),
                forall|j: int|
                    0 <= j < i ==> (#[trigger] self@.subscription_tokens[j]).subscription_token
                        != token@,
            decreases self.subscription_tokens.len() - i,
        {
            if same_text(self.subscription_tokens[i].subscription_token.as_str(), token) {
                let id = self.subscription_tokens[i].subscriber_id;
                assert(self@.subscription_tokens[i as int] == (TokenRow {
                    subscription_token: token@,
                    subscriber_id: id,
                }));
                return Some(id);
            }
            i += 1;
        }
        None
    }

    /// The stored status of the subscriber `id`, where there is such a
    /// subscriber.
    pub fn get_subscriber_status(&self, id: u128) -> (r: Option<String>)
        ensures
            r matches Some(status) ==> exists|i: int|
                0 <= i < self@.subscriptions.len() && (#[trigger] self@.subscriptions[i]).id == id
                    && self@.subscriptions[i].status == status@,
            r is None ==> !has_subscriber(self@.subscriptions, id),
    {
        let mut i: usize = 0;
        while i < self.subscriptions.len()
            invariant
                i <= self.subscriptions.len(),
                forall|j: int| 0 <= j < i ==> (#[trigger] self@.subscriptions[j]).id != id,
            decreases self.subscriptions.len() - i,
        {
            if self.subscriptions[i].id == id {
                let status = self.subscriptions[i].status.clone();
                assert(self@.subscriptions[i as int].status == status@);
                return Some(status);
            }
            i += 1;
        }
        None
    }

    /// Sets the status of every subscriber with the identifier `id`.
    pub fn confirm_subscriber(&mut self, id: u128, status: &str)
        ensures
            final(self)@ == (StoreView {
                subscriptions: with_status(old(self)@.subscriptions, id, status@),
                ..old(self)@
            }),
    {
        let mut i: usize = 0;
        let ghost before = self@;
        while i < self.subscriptions.len()
            invariant
                i <= self.subscriptions.len(),
                self.subscriptions.len() == before.subscriptions.len(),
                self@.subscription_tokens == before.subscription_tokens,
                self@.newsletter_issues == before.newsletter_issues,
                self@.issue_delivery_queue == before.issue_delivery_queue,
                self@.idempotency == before.idempotency,
                forall|j: int|
                    0 <= j < i ==> (#[trigger] self@.subscriptions[j]) == with_status(
                        before.subscriptions,
                        id,
                        status@,
                    )[j],
                forall|j: int|
                    i <= j < self.subscriptions.len() ==> (#[trigger] self@.subscriptions[j])
                        == before.subscriptions[j],
            decreases self.subscriptions.len() - i,
        {
            if self.subscriptions[i].id == id {
                let row = SubscriberRecord {
                    id,
                    name: self.subscriptions[i].name.clone(),
                    email: self.subscriptions[i].email.clone(),
                    status: status.to_owned(),
                };
                let ghost prior = self@.subscriptions;
                assert(prior[i as int] == before.subscriptions[i as int]);
                self.subscriptions.set(i, row);
                assert forall|j: int| 0 <= j < self.subscriptions.len() && j != i implies (
                #[trigger] self@.subscriptions[j]) == prior[j] by {}
            }
            i += 1;
        }
        assert(self@.subscriptions =~= with_status(before.subscriptions, id, status@));
    }

    /// Inserts an issue. Refused, with the store unchanged, where the
    /// identifier is taken.
    pub fn insert_newsletter_issue(&mut self, issue: IssueRecord) -> (inserted: bool)
        ensures
            inserted <==> !has_issue(old(self)@.newsletter_issues, issue.newsletter_issue_id),
            inserted ==> final(self)@ == (StoreView {
                newsletter_issues: old(self)@.newsletter_issues.push(issue@),
                ..old(self)@
            }),
            !inserted ==> final(self)@ == old(self)@,
    {
        let mut i: usize = 0;
        while i < self.newsletter_issues.len()
            invariant
                i <= self.newsletter_issues.len(),
                forall|j: int|
                    0 <= j < i ==> (#[trigger] self@.newsletter_issues[j]).newsletter_issue_id
                        != issue.newsletter_issue_id,
            decreases self.newsletter_issues.len() - i,
        {
            if self.newsletter_issues[i].newsletter_issue_id == issue.newsletter_issue_id {
                assert(self@.newsletter_issues[i as int] == self.newsletter_issues@[i as int]@);
                return false;
            }
            i += 1;
        }
        proof {
            lemma_rows_push(self.newsletter_issues@, issue);
        }
        self.newsletter_issues.push(issue);
        true
    }

    /// The issue with the identifier `id`, where there is one.
    pub fn get_issue(&self, id: u128) -> (r: Option<IssueRecord>)
        ensures
            r matches Some(issue) ==> issue.newsletter_issue_id == id
                && self@.newsletter_issues.contains(issue@),
            r is None ==> !has_issue(self@.newsletter_issues, id),
    {
        let mut i: usize = 0;
        while i < self.newsletter_issues.len()
            invariant
                i <= self.newsletter_issues.len(),
                forall|j: int|
                    0 <= j < i ==> (#[trigger] self@.newsletter_issues[j]).newsletter_issue_id
                        != id,
            decreases self.newsletter_issues.len() - i,
        {
            if self.newsletter_issues[i].newsletter_issue_id == id {
                let issue = self.newsletter_issues[i].clone();
                assert(self@.newsletter_issues[i as int] == issue@);
                return Some(issue);
            }
            i += 1;
        }
        None
    }

    /// Adds to the queue one task of the issue `newsletter_issue_id` for each
    /// subscriber whose stored status is `status`, in the order of the
    /// subscribers.
    pub fn enqueue_delivery_tasks(&mut self, newsletter_issue_id: u128, status: &str)
        ensures
            final(self)@ == (StoreView {
                issue_delivery_queue: old(self)@.issue_delivery_queue + tasks_for(
                    old(self)@.subscriptions,
                    newsletter_issue_id,
                    status@,
                ),
                ..old(self)@
            }),
    {
        let ghost before = self@;
        let mut i: usize = 0;
        assert(before.subscriptions.take(0) =~= Seq::empty());
        assert(before.issue_delivery_queue + Seq::<DeliveryRow>::empty()
            =~= before.issue_delivery_queue);
        while i < self.subscriptions.len()
            invariant
                i <= self.subscriptions.len(),
                self@.subscriptions == before.subscriptions,
                self@.subscription_tokens == before.subscription_tokens,
                self@.newsletter_issues == before.newsletter_issues,
                self@.idempotency == before.idempotency,
                self@.issue_delivery_queue == before.issue_delivery_queue + tasks_for(
                    before.subscriptions.take(i as int),
                    newsletter_issue_id,
                    status@,
                ),
            decreases self.subscriptions.len() - i,
        {
            proof {
                let next = before.subscriptions.take(i + 1);
                assert(next.drop_last() =~= before.subscriptions.take(i as int));
                assert(next.last() == before.subscriptions[i as int]);
            }
            if same_text(self.subscriptions[i].status.as_str(), status) {
                let task = DeliveryTask {
                    newsletter_issue_id,
                    subscriber_email: self.subscriptions[i].email.clone(),
                };
                proof {
                    lemma_rows_push(self.issue_delivery_queue@, task);
                    assert(task@ == (DeliveryRow {
                        newsletter_issue_id,
                        subscriber_email: before.subscriptions[i as int].email,
                    }));
                    assert((before.issue_delivery_queue + tasks_for(
                        before.subscriptions.take(i as int),
                        newsletter_issue_id,
                        status@,
                    )).push(task@) =~= before.issue_delivery_queue + tasks_for(
                        before.subscriptions.take(i as int),
                        newsletter_issue_id,
                        status@,
                    ).push(task@));
                }
                self.issue_delivery_queue.push(task);
            }
            i += 1;
        }
        assert(before.subscriptions.take(i as int) =~= before.subscriptions);
    }

    /// Some task of the queue, where it is not empty.
    pub fn dequeue_task(&self) -> (r: Option<DeliveryTask>)
        ensures
            r matches Some(task) ==> self@.issue_delivery_queue.contains(task@),
            r is None ==> self@.issue_delivery_queue.len() == 0,
    {
        if self.issue_delivery_queue.len() == 0 {
            None
        } else {
            let task = self.issue_delivery_queue[0].clone();
            assert(self@.issue_delivery_queue[0] == task@);
            Some(task)
        }
    }

    /// Removes from the queue every task of the issue `newsletter_issue_id`
    /// for the address `subscriber_email`.
    pub fn delete_task(&mut self, newsletter_issue_id: u128, subscriber_email: &str)
        ensures
            final(self)@ == (StoreView {
                issue_delivery_queue: without_task(
                    old(self)@.issue_delivery_queue,
                    DeliveryRow { newsletter_issue_id, subscriber_email: subscriber_email@ },
                ),
                ..old(self)@
            }),
    {
        let ghost before = self@;
        let ghost gone = DeliveryRow { newsletter_issue_id, subscriber_email: subscriber_email@ };
        let mut kept: Vec<DeliveryTask> = Vec::new();
        let mut i: usize = 0;
        assert(before.issue_delivery_queue.take(0) =~= Seq::empty());
        assert(rows(kept@) =~= Seq::<DeliveryRow>::empty());
        while i < self.issue_delivery_queue.len()
            invariant
                i <= self.issue_delivery_queue.len(),
                self@ == before,
                gone == (DeliveryRow { newsletter_issue_id, subscriber_email: subscriber_email@ }),
                rows(kept@) == without_task(before.issue_delivery_queue.take(i as int), gone),
            decreases self.issue_delivery_queue.len() - i,
        {
            proof {
                let next = before.issue_delivery_queue.take(i + 1);
                assert(next.drop_last() =~= before.issue_delivery_queue.take(i as int));
                assert(next.last() == before.issue_delivery_queue[i as int]);
                assert(before.issue_delivery_queue[i as int] == self.issue_delivery_queue@[i as int]@);
            }
            let same = self.issue_delivery_queue[i].newsletter_issue_id == newsletter_issue_id
                && same_text(
                self.issue_delivery_queue[i].subscriber_email.as_str(),
                subscriber_email,
            );
            if !same {
                let task = self.issue_delivery_queue[i].clone();
                proof {
                    lemma_rows_push(kept@, task);
                }
                kept.push(task);
            }
            i += 1;
        }
        assert(before.issue_delivery_queue.take(i as int) =~= before.issue_delivery_queue);
        self.issue_delivery_queue = kept;
    }

    /// Reserves the key `idempotency_key` for the user `user_id` by inserting
    /// a row without an answer; does nothing where the user has a row under
    /// the key. Returns the number of rows inserted: 1 or 0.
    pub fn reserve_key(&mut self, user_id: u128, idempotency_key: &str) -> (inserted: u64)
        ensures
            inserted == if has_key(old(self)@.idempotency, user_id, idempotency_key@) {
                0u64
            } else {
                1u64
            },
            inserted == 1 ==> final(self)@ == (StoreView {
                idempotency: old(self)@.idempotency.push(
                    IdempotencyRow {
                        user_id,
                        idempotency_key: idempotency_key@,
                        response: None,
                        torn: false,
                    },
                ),
                ..old(self)@
            }),
            inserted == 0 ==> final(self)@ == old(self)@,
    {
        let mut i: usize = 0;
        while i < self.idempotency.len()
            invariant
                i <= self.idempotency.len(),
                forall|j: int|
                    0 <= j < i ==> !((#[trigger] self@.idempotency[j]).user_id == user_id
                        && self@.idempotency[j].idempotency_key == idempotency_key@),
            decreases self.idempotency.len() - i,
        {
            if self.idempotency[i].user_id == user_id && same_text(
                self.idempotency[i].idempotency_key.as_str(),
                idempotency_key,
            ) {
                assert(self@.idempotency[i as int] == self.idempotency@[i as int]@);
                return 0;
            }
            i += 1;
        }
        let row = IdempotencyRecord {
            user_id,
            idempotency_key: idempotency_key.to_owned(),
            response_status_code: None,
            response_headers: None,
            response_body: None,
        };
        proof {
            lemma_rows_push(self.idempotency@, row);
        }
        self.idempotency.push(row);
        1
    }

    /// A row of the user `user_id` under the key `idempotency_key`, where
    /// there is one.
    pub fn find_key(&self, user_id: u128, idempotency_key: &str) -> (r: Option<IdempotencyRecord>)
        ensures
            r matches Some(row) ==> row.user_id == user_id && row.idempotency_key@
                == idempotency_key@ && self@.idempotency.contains(row@),
            r is None ==> !has_key(self@.idempotency, user_id, idempotency_key@),
    {
        let mut i: usize = 0;
        while i < self.idempotency.len()
            invariant
                i <= self.idempotency.len(),
                forall|j: int|
                    0 <= j < i ==> !((#[trigger] self@.idempotency[j]).user_id == user_id
                        && self@.idempotency[j].idempotency_key == idempotency_key@),
            decreases self.idempotency.len() - i,
        {
            if self.idempotency[i].user_id == user_id && same_text(
                self.idempotency[i].idempotency_key.as_str(),
                idempotency_key,
            ) {
                let row = self.idempotency[i].clone();
                assert(self@.idempotency[i as int] == row@);
                return Some(row);
            }
            i += 1;
        }
        None
    }

    /// Writes the answer of `record` into every row of its user and key.
    pub fn save_answer(&mut self, record: &IdempotencyRecord)
        ensures
            final(self)@ == (StoreView {
                idempotency: with_answer(old(self)@.idempotency, record@),
                ..old(self)@
            }),
    {
        let mut i: usize = 0;
        let ghost before = self@;
        while i < self.idempotency.len()
            invariant
                i <= self.idempotency.len(),
                self.idempotency.len() == before.idempotency.len(),
                self@.subscriptions == before.subscriptions,
                self@.subscription_tokens == before.subscription_tokens,
                self@.newsletter_issues == before.newsletter_issues,
                self@.issue_delivery_queue == before.issue_delivery_queue,
                forall|j: int|
                    0 <= j < i ==> (#[trigger] self@.idempotency[j]) == with_answer(
                        before.idempotency,
                        record@,
                    )[j],
                forall|j: int|
                    i <= j < self.idempotency.len() ==> (#[trigger] self@.idempotency[j])
                        == before.idempotency[j],
            decreases self.idempotency.len() - i,
        {
            if self.idempotency[i].user_id == record.user_id && same_text(
                self.idempotency[i].idempotency_key.as_str(),
                record.idempotency_key.as_str(),
            ) {
                let row = record.clone();
                let ghost prior = self@.idempotency;
                assert(prior[i as int] == before.idempotency[i as int]);
                self.idempotency.set(i, row);
                assert forall|j: int| 0 <= j < self.idempotency.len() && j != i implies (
                #[trigger] self@.idempotency[j]) == prior[j] by {}
            }
            i += 1;
        }
        assert(self@.idempotency =~= with_answer(before.idempotency, record@));
    }

    /// A copy of the store, row for row.
    pub fn snapshot(&self) -> (r: Store)
        ensures
            r@ == self@,
    {
        let mut subscriptions: Vec<SubscriberRecord> = Vec::new();
        let mut i: usize = 0;
        while i < self.subscriptions.len()
            invariant
                i <= self.subscriptions.len(),
                subscriptions.len() == i,
                forall|j: int|
                    0 <= j < i ==> (#[trigger] subscriptions@[j])@ == self.subscriptions@[j]@,
            decreases self.subscriptions.len() - i,
        {
            subscriptions.push(self.subscriptions[i].clone());
            i += 1;
        }
        let mut subscription_tokens: Vec<TokenRecord> = Vec::new();
        let mut i: usize = 0;
        while i < self.subscription_tokens.len()
            invariant
                i <= self.subscription_tokens.len(),
                subscription_tokens.len() == i,
                forall|j: int|
                    0 <= j < i ==> (#[trigger] subscription_tokens@[j])@
                        == self.subscription_tokens@[j]@,
            decreases self.subscription_tokens.len() - i,
        {
            subscription_tokens.push(self.subscription_tokens[i].clone());
            i += 1;
        }
        let mut newsletter_issues: Vec<IssueRecord> = Vec::new();
        let mut i: usize = 0;
        while i < self.newsletter_issues.len()
            invariant
                i <= self.newsletter_issues.len(),
                newsletter_issues.len() == i,
                forall|j: int|
                    0 <= j < i ==> (#[trigger] newsletter_issues@[j])@
                        == self.newsletter_issues@[j]@,
            decreases self.newsletter_issues.len() - i,
        {
            newsletter_issues.push(self.newsletter_issues[i].clone());
            i += 1;
        }
        let mut issue_delivery_queue: Vec<DeliveryTask> = Vec::new();
        let mut i: usize = 0;
        while i < self.issue_delivery_queue.len()
            invariant
                i <= self.issue_delivery_queue.len(),
                issue_delivery_queue.len() == i,
                forall|j: int|
                    0 <= j < i ==> (#[trigger] issue_delivery_queue@[j])@
                        == self.issue_delivery_queue@[j]@,
            decreases self.issue_delivery_queue.len() - i,
        {
            issue_delivery_queue.push(self.issue_delivery_queue[i].clone());
            i += 1;
        }
        let mut idempotency: Vec<IdempotencyRecord> = Vec::new();
        let mut i: usize = 0;
        while i < self.idempotency.len()
            invariant
                i <= self.idempotency.len(),
                idempotency.len() == i,
                forall|j: int|
                    0 <= j < i ==> (#[trigger] idempotency@[j])@ == self.idempotency@[j]@,
            decreases self.idempotency.len() - i,
        {
            idempotency.push(self.idempotency[i].clone());
            i += 1;
        }
        let r = Store {
            subscriptions,
            subscription_tokens,
            newsletter_issues,
            issue_delivery_queue,
            idempotency,
        };
        assert(r@.subscriptions =~= self@.subscriptions);
        assert(r@.subscription_tokens =~= self@.subscription_tokens);
        assert(r@.newsletter_issues =~= self@.newsletter_issues);
        assert(r@.issue_delivery_queue =~= self@.issue_delivery_queue);
        assert(r@.idempotency =~= self@.idempotency);
        r
    }
}

/// Some issue has the identifier `id`.
pub open spec fn has_issue(s: Seq<IssueRow>, id: u128) -> bool {
    exists|i: int| 0 <= i < s.len() && (#[trigger] s[i]).newsletter_issue_id == id
}

/// The user `user_id` has a row under the key `key`.
pub open spec fn has_key(s: Seq<IdempotencyRow>, user_id: u128, key: Seq<char>) -> bool {
    exists|i: int|
        0 <= i < s.len() && (#[trigger] s[i]).user_id == user_id && s[i].idempotency_key == key
}

/// One task of the issue `newsletter_issue_id` for each subscriber of `s`
/// whose stored status is `status`, in the order of `s`.
pub open spec fn tasks_for(s: Seq<SubscriberRow>, newsletter_issue_id: u128, status: Seq<char>) -> Seq<
    DeliveryRow,
>
    decreases s.len(),
{
    if s.len() == 0 {
        Seq::empty()
    } else if s.last().status == status {
        tasks_for(s.drop_last(), newsletter_issue_id, status).push(
            DeliveryRow { newsletter_issue_id, subscriber_email: s.last().email },
        )
    } else {
        tasks_for(s.drop_last(), newsletter_issue_id, status)
    }
}

/// The queue `q` without the tasks equal to `gone`.
pub open spec fn without_task(q: Seq<DeliveryRow>, gone: DeliveryRow) -> Seq<DeliveryRow>
    decreases q.len(),
{
    if q.len() == 0 {
        Seq::empty()
    } else if q.last() == gone {
        without_task(q.drop_last(), gone)
    } else {
        without_task(q.drop_last(), gone).push(q.last())
    }
}

/// The rows `s` after the answer of `record` was written into every row of
/// its user and key.
pub open spec fn with_answer(s: Seq<IdempotencyRow>, record: IdempotencyRow) -> Seq<
    IdempotencyRow,
> {
    Seq::new(
        s.len(),
        |i: int|
            if s[i].user_id == record.user_id && s[i].idempotency_key == record.idempotency_key {
                record
            } else {
                s[i]
            },
    )
}

} // verus!
