//! The service as a whole, run on the store in memory: each request from its
//! first step to its answer, with the provider standing in as a reply that
//! the caller chooses. What a request does to the store and to the emails
//! sent is stated here once, as a relation between the service before and
//! after; the laws of the service are proved from these relations.

pub mod confirming;
pub mod delivering;
pub mod publishing;
pub mod soundness;
pub mod subscribing;

use crate::database::{SubscriberRow, TokenRow};
use crate::domain::email::email_is_valid;
use crate::domain::name::name_is_valid;
use crate::domain::subscription::{status_text, token_is_valid};
use crate::domain::{SubscriptionStatus, Url};
use crate::email_client::{EmailClient, EmailClientView};
use crate::issue_delivery_worker::FailurePolicy;
use crate::store::{has_email, has_issue, has_subscriber, has_token_of, rows, Store, StoreView};
use crate::text::trimmed;
use vstd::prelude::*;

verus! {

/// One email handed to the provider.
#[derive(Debug)]
pub struct Delivery {
    pub to: String,
    pub subject: String,
    pub text_body: String,
}

/// A `Delivery` as mathematics.
pub struct DeliveryView {
    pub to: Seq<char>,
    pub subject: Seq<char>,
    pub text_body: Seq<char>,
}

impl View for Delivery {
    type V = DeliveryView;

    open spec fn view(&self) -> DeliveryView {
        DeliveryView { to: self.to@, subject: self.subject@, text_body: self.text_body@ }
    }
}

/// The service: its store, every email that it handed to the provider, in
/// order, and its settings.
pub struct Service {
    pub(crate) store: Store,
    pub(crate) outbox: Vec<Delivery>,
    pub(crate) base_url: Url,
    pub(crate) email_client: EmailClient,
    pub(crate) policy: FailurePolicy,
}

/// A `Service` as mathematics.
pub struct ServiceView {
    pub store: StoreView,
    pub outbox: Seq<DeliveryView>,
    pub base_url: Seq<char>,
    pub email_client: EmailClientView,
    pub policy: FailurePolicy,
}

impl View for Service {
    type V = ServiceView;

    closed spec fn view(&self) -> ServiceView {
        ServiceView {
            store: self.store@,
            outbox: crate::store::rows(self.outbox@),
            base_url: self.base_url@,
            email_client: self.email_client@,
            policy: self.policy,
        }
    }
}

/// A stored subscriber is sound: the name is a trimmed valid name, the
/// address is valid, and the status is one of the two stored texts.
pub open spec fn subscriber_ok(r: SubscriberRow) -> bool {
    &&& name_is_valid(r.name)
    &&& trimmed(r.name) == r.name
    &&& email_is_valid(r.email)
    &&& (r.status == status_text(SubscriptionStatus::PendingConfirmation) || r.status
        == status_text(SubscriptionStatus::Confirmed))
}

/// The subscribers and their tokens are sound: no two subscribers share an
/// identifier or an address; every subscriber is sound and has a token; no
/// two token rows share a token or a subscriber; every token is valid and
/// belongs to a subscriber.
pub open spec fn subscriptions_wf(s: StoreView) -> bool {
    &&& forall|i: int, j: int|
        #![trigger s.subscriptions[i], s.subscriptions[j]]
        0 <= i < j < s.subscriptions.len() ==> s.subscriptions[i].id != s.subscriptions[j].id
            && s.subscriptions[i].email != s.subscriptions[j].email
    &&& forall|i: int|
        0 <= i < s.subscriptions.len() ==> subscriber_ok(#[trigger] s.subscriptions[i])
            && has_token_of(s.subscription_tokens, s.subscriptions[i].id)
    &&& forall|i: int, j: int|
        #![trigger s.subscription_tokens[i], s.subscription_tokens[j]]
        0 <= i < j < s.subscription_tokens.len() ==> s.subscription_tokens[i].subscriber_id
            != s.subscription_tokens[j].subscriber_id
            && s.subscription_tokens[i].subscription_token
            != s.subscription_tokens[j].subscription_token
    &&& forall|i: int|
        0 <= i < s.subscription_tokens.len() ==> token_is_valid(
            (#[trigger] s.subscription_tokens[i]).subscription_token,
        ) && has_subscriber(s.subscriptions, s.subscription_tokens[i].subscriber_id)
}

/// The issues, the queue and the kept answers are sound: no two issues share
/// an identifier; no two tasks are the same, and every task is of a stored
/// issue; no user has two rows under one key, and no row holds half an
/// answer.
pub open spec fn publications_wf(s: StoreView) -> bool {
    &&& forall|i: int, j: int|
        #![trigger s.newsletter_issues[i], s.newsletter_issues[j]]
        0 <= i < j < s.newsletter_issues.len() ==> s.newsletter_issues[i].newsletter_issue_id
            != s.newsletter_issues[j].newsletter_issue_id
    &&& forall|i: int, j: int|
        #![trigger s.issue_delivery_queue[i], s.issue_delivery_queue[j]]
        0 <= i < j < s.issue_delivery_queue.len() ==> s.issue_delivery_queue[i]
            != s.issue_delivery_queue[j]
    &&& forall|i: int|
        0 <= i < s.issue_delivery_queue.len() ==> has_issue(
            s.newsletter_issues,
            (#[trigger] s.issue_delivery_queue[i]).newsletter_issue_id,
        )
    &&& forall|i: int, j: int|
        #![trigger s.idempotency[i], s.idempotency[j]]
        0 <= i < j < s.idempotency.len() ==> !(s.idempotency[i].user_id
            == s.idempotency[j].user_id && s.idempotency[i].idempotency_key
            == s.idempotency[j].idempotency_key)
    &&& forall|i: int| 0 <= i < s.idempotency.len() ==> !(#[trigger] s.idempotency[i]).torn
}

/// The store is sound.
pub open spec fn store_wf(s: StoreView) -> bool {
    subscriptions_wf(s) && publications_wf(s)
}

/// The subscriber of `s` with the address `email`.
pub open spec fn subscriber_with(s: Seq<SubscriberRow>, email: Seq<char>) -> SubscriberRow {
    s[choose|i: int| 0 <= i < s.len() && (#[trigger] s[i]).email == email]
}

/// The token of the subscriber `id` among the rows `t`.
pub open spec fn token_of(t: Seq<TokenRow>, id: u128) -> Seq<char> {
    t[choose|i: int| 0 <= i < t.len() && (#[trigger] t[i]).subscriber_id == id].subscription_token
}

/// In a sound store, a subscriber that is there is the subscriber with its
/// address.
pub proof fn lemma_subscriber_with(s: StoreView, row: SubscriberRow)
    requires
        subscriptions_wf(s),
        s.subscriptions.contains(row),
    ensures
        subscriber_with(s.subscriptions, row.email) == row,
        has_email(s.subscriptions, row.email),
{
    let k = choose|k: int| 0 <= k < s.subscriptions.len() && s.subscriptions[k] == row;
    assert(s.subscriptions[k].email == row.email);
    let i = choose|i: int|
        0 <= i < s.subscriptions.len() && (#[trigger] s.subscriptions[i]).email == row.email;
    if i < k {
        assert(s.subscriptions[i].email != s.subscriptions[k].email);
    } else if k < i {
        assert(s.subscriptions[k].email != s.subscriptions[i].email);
    }
}

/// In a sound store, a token row that is there holds the token of its
/// subscriber.
pub proof fn lemma_token_of(s: StoreView, row: TokenRow)
    requires
        subscriptions_wf(s),
        s.subscription_tokens.contains(row),
    ensures
        token_of(s.subscription_tokens, row.subscriber_id) == row.subscription_token,
        token_is_valid(row.subscription_token),
{
    let k = choose|k: int| 0 <= k < s.subscription_tokens.len() && s.subscription_tokens[k] == row;
    assert(s.subscription_tokens[k].subscriber_id == row.subscriber_id);
    let i = choose|i: int|
        0 <= i < s.subscription_tokens.len() && (#[trigger] s.subscription_tokens[i]).subscriber_id
            == row.subscriber_id;
    if i < k {
        assert(s.subscription_tokens[i].subscriber_id != s.subscription_tokens[k].subscriber_id);
    } else if k < i {
        assert(s.subscription_tokens[k].subscriber_id != s.subscription_tokens[i].subscriber_id);
    }
}

/// Nothing that is settled in the store `pre` is undone in the store `post`:
/// every subscriber is still there under the same identifier, name and
/// address, and the status has changed at most from pending to confirmed;
/// every token row, every issue and every kept answer is still there as it
/// was.
pub open spec fn nothing_undone(pre: StoreView, post: StoreView) -> bool {
    &&& pre.subscriptions.len() <= post.subscriptions.len()
    &&& forall|i: int|
        0 <= i < pre.subscriptions.len() ==> {
            let before = #[trigger] pre.subscriptions[i];
            let after = post.subscriptions[i];
            &&& after.id == before.id
            &&& after.name == before.name
            &&& after.email == before.email
            &&& (after.status == before.status || after.status == status_text(
                SubscriptionStatus::Confirmed,
            ))
        }
    &&& pre.subscription_tokens.len() <= post.subscription_tokens.len()
    &&& forall|i: int|
        0 <= i < pre.subscription_tokens.len() ==> post.subscription_tokens[i]
            == #[trigger] pre.subscription_tokens[i]
    &&& pre.newsletter_issues.len() <= post.newsletter_issues.len()
    &&& forall|i: int|
        0 <= i < pre.newsletter_issues.len() ==> post.newsletter_issues[i]
            == #[trigger] pre.newsletter_issues[i]
    &&& pre.idempotency.len() <= post.idempotency.len()
    &&& forall|i: int|
        0 <= i < pre.idempotency.len() && (#[trigger] pre.idempotency[i]).response is Some
            ==> post.idempotency[i] == pre.idempotency[i]
}

/// What the view of a service is made of.
pub(crate) broadcast proof fn lemma_service_view(s: Service)
    ensures
        #[trigger] s@ == (ServiceView {
            store: s.store@,
            outbox: rows(s.outbox@),
            base_url: s.base_url@,
            email_client: s.email_client@,
            policy: s.policy,
        }),
{
}

impl Service {
    /// The store is sound. Holds of every `Service` that a program can hold.
    #[verifier::type_invariant]
    pub(crate) open spec fn wf(&self) -> bool {
        store_wf(self.store@)
    }

    /// The store.
    pub fn store(&self) -> (r: &Store)
        ensures
            r@ == self@.store,
            store_wf(r@),
    {
        proof {
            use_type_invariant(self);
        }
        &self.store
    }

    /// Every email that was handed to the provider, in order.
    pub fn outbox(&self) -> (r: &Vec<Delivery>)
        ensures
            rows(r@) == self@.outbox,
    {
        &self.outbox
    }

    /// Takes the store out of the service and leaves an empty one.
    pub(crate) fn take_store(&mut self) -> (store: Store)
        ensures
            store@ == old(self)@.store,
            final(self)@.outbox == old(self)@.outbox,
            final(self)@.base_url == old(self)@.base_url,
            final(self)@.email_client == old(self)@.email_client,
            final(self)@.policy == old(self)@.policy,
    {
        let mut store = Store::new();
        std::mem::swap(&mut self.store, &mut store);
        store
    }

    /// Puts a sound store into the service.
    pub(crate) fn put_store(&mut self, store: Store)
        requires
            store_wf(store@),
        ensures
            final(self)@ == (ServiceView { store: store@, ..old(self)@ }),
    {
        self.store = store;
    }

    /// Adds an email to those that were handed to the provider.
    pub(crate) fn hand_over(&mut self, delivery: Delivery)
        ensures
            final(self)@ == (ServiceView {
                outbox: old(self)@.outbox.push(delivery@),
                ..old(self)@
            }),
    {
        proof {
            use_type_invariant(&*self);
        }
        let mut outbox: Vec<Delivery> = Vec::new();
        std::mem::swap(&mut self.outbox, &mut outbox);
        proof {
            crate::store::lemma_rows_push(outbox@, delivery);
        }
        outbox.push(delivery);
        self.outbox = outbox;
    }

    /// A service with an empty store that has sent nothing.
    pub fn new(base_url: Url, email_client: EmailClient, policy: FailurePolicy) -> (r: Service)
        ensures
            r@.outbox.len() == 0,
            r@.store.subscriptions.len() == 0,
            r@.store.subscription_tokens.len() == 0,
            r@.store.newsletter_issues.len() == 0,
            r@.store.issue_delivery_queue.len() == 0,
            r@.store.idempotency.len() == 0,
            r@.base_url == base_url@,
            r@.email_client == email_client@,
            r@.policy == policy,
    {
        Service { store: Store::new(), outbox: Vec::new(), base_url, email_client, policy }
    }

}

/// In a sound store every confirmed subscriber has a token row: the token is
/// kept when the subscriber is confirmed.
pub proof fn law_confirmed_subscriber_has_a_token(s: StoreView, i: int)
    requires
        store_wf(s),
        0 <= i < s.subscriptions.len(),
        s.subscriptions[i].status == status_text(SubscriptionStatus::Confirmed),
    ensures
        has_token_of(s.subscription_tokens, s.subscriptions[i].id),
{
    assert(subscriber_ok(s.subscriptions[i]));
}

/// In a sound store no user has two rows under one key.
pub proof fn law_one_row_for_each_user_and_key(s: StoreView, i: int, j: int)
    requires
        store_wf(s),
        0 <= i < s.idempotency.len(),
        0 <= j < s.idempotency.len(),
        s.idempotency[i].user_id == s.idempotency[j].user_id,
        s.idempotency[i].idempotency_key == s.idempotency[j].idempotency_key,
    ensures
        i == j,
{
    if i < j {
        assert(!(s.idempotency[i].user_id == s.idempotency[j].user_id
            && s.idempotency[i].idempotency_key == s.idempotency[j].idempotency_key));
    } else if j < i {
        assert(!(s.idempotency[j].user_id == s.idempotency[i].user_id
            && s.idempotency[j].idempotency_key == s.idempotency[i].idempotency_key));
    }
}

} // verus!
