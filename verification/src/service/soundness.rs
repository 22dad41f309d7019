//! Telling whether a store is sound, so that a service can be started on a
//! store that comes from elsewhere.

use crate::database::{DeliveryTask, IssueRecord, SubscriberRecord, TokenRecord};
use crate::domain::{Email, Name, SubscriptionToken, Url};
use crate::email_client::EmailClient;
use crate::idempotency::persistence::IdempotencyRecord;
use crate::issue_delivery_worker::FailurePolicy;
use crate::service::{publications_wf, store_wf, subscriber_ok, subscriptions_wf, Service};
use crate::store::{has_issue, has_subscriber, has_token_of, rows, Store};
use crate::text::same_text;
use vstd::prelude::*;

verus! {

broadcast use crate::service::lemma_service_view;

/// Whether a stored subscriber is sound.
fn subscriber_is_ok(row: &SubscriberRecord) -> (b: bool)
    ensures
        b == subscriber_ok(row@),
{
    let name_ok = match Name::parse(row.name.as_str()) {
        Ok(name) => same_text(name.as_str(), row.name.as_str()),
        Err(_) => false,
    };
    let email_ok = Email::parse(row.email.as_str()).is_ok();
    let status_ok = same_text(row.status.as_str(), "pending_confirmation") || same_text(
        row.status.as_str(),
        "confirmed",
    );
    name_ok && email_ok && status_ok
}

/// Whether no two subscribers share an identifier or an address.
fn subscribers_are_distinct(v: &Vec<SubscriberRecord>) -> (b: bool)
    ensures
        b == forall|i: int, j: int|
            #![trigger rows(v@)[i], rows(v@)[j]]
            0 <= i < j < v@.len() ==> rows(v@)[i].id != rows(v@)[j].id && rows(v@)[i].email
                != rows(v@)[j].email,
{
    let mut j: usize = 0;
    while j < v.len()
        invariant
            j <= v.len(),
            forall|a: int, b: int|
                #![trigger rows(v@)[a], rows(v@)[b]]
                0 <= a < b < j ==> rows(v@)[a].id != rows(v@)[b].id && rows(v@)[a].email
                    != rows(v@)[b].email,
        decreases v.len() - j,
    {
        let mut i: usize = 0;
        while i < j
            invariant
                i <= j < v.len(),
                forall|a: int|
                    0 <= a < i ==> (#[trigger] rows(v@)[a]).id != rows(v@)[j as int].id && rows(
                        v@,
                    )[a].email != rows(v@)[j as int].email,
            decreases j - i,
        {
            if v[i].id == v[j].id || same_text(v[i].email.as_str(), v[j].email.as_str()) {
                assert(rows(v@)[i as int] == v@[i as int]@ && rows(v@)[j as int] == v@[j as int]@);
                return false;
            }
            assert(rows(v@)[i as int] == v@[i as int]@ && rows(v@)[j as int] == v@[j as int]@);
            i += 1;
        }
        j += 1;
    }
    true
}

/// Whether no two token rows share a subscriber or a token.
fn tokens_are_distinct(v: &Vec<TokenRecord>) -> (b: bool)
    ensures
        b == forall|i: int, j: int|
            #![trigger rows(v@)[i], rows(v@)[j]]
            0 <= i < j < v@.len() ==> rows(v@)[i].subscriber_id != rows(v@)[j].subscriber_id
                && rows(v@)[i].subscription_token != rows(v@)[j].subscription_token,
{
    let mut j: usize = 0;
    while j < v.len()
        invariant
            j <= v.len(),
            forall|a: int, b: int|
                #![trigger rows(v@)[a], rows(v@)[b]]
                0 <= a < b < j ==> rows(v@)[a].subscriber_id != rows(v@)[b].subscriber_id
                    && rows(v@)[a].subscription_token != rows(v@)[b].subscription_token,
        decreases v.len() - j,
    {
        let mut i: usize = 0;
        while i < j
            invariant
                i <= j < v.len(),
                forall|a: int|
                    0 <= a < i ==> (#[trigger] rows(v@)[a]).subscriber_id != rows(
                        v@,
                    )[j as int].subscriber_id && rows(v@)[a].subscription_token != rows(
                        v@,
                    )[j as int].subscription_token,
            decreases j - i,
        {
            if v[i].subscriber_id == v[j].subscriber_id || same_text(
                v[i].subscription_token.as_str(),
                v[j].subscription_token.as_str(),
            ) {
                assert(rows(v@)[i as int] == v@[i as int]@ && rows(v@)[j as int] == v@[j as int]@);
                return false;
            }
            assert(rows(v@)[i as int] == v@[i as int]@ && rows(v@)[j as int] == v@[j as int]@);
            i += 1;
        }
        j += 1;
    }
    true
}

/// Whether the subscribers and their tokens are sound.
fn subscriptions_are_sound(store: &Store) -> (b: bool)
    ensures
        b == subscriptions_wf(store@),
{
    assert(store@.subscriptions == rows(store.subscriptions@));
    assert(store@.subscription_tokens == rows(store.subscription_tokens@));
    if !subscribers_are_distinct(&store.subscriptions) {
        return false;
    }
    if !tokens_are_distinct(&store.subscription_tokens) {
        return false;
    }
    let mut i: usize = 0;
    while i < store.subscriptions.len()
        invariant
            i <= store.subscriptions.len(),
            forall|a: int|
                0 <= a < i ==> subscriber_ok(#[trigger] store@.subscriptions[a]) && has_token_of(
                    store@.subscription_tokens,
                    store@.subscriptions[a].id,
                ),
        decreases store.subscriptions.len() - i,
    {
        assert(store@.subscriptions[i as int] == store.subscriptions@[i as int]@);
        if !subscriber_is_ok(&store.subscriptions[i]) {
            return false;
        }
        match store.get_existing_subscription_token(store.subscriptions[i].id) {
            Some(token) => {
                let ghost row = crate::database::TokenRow {
                    subscription_token: token@,
                    subscriber_id: store.subscriptions[i as int].id,
                };
                let ghost k = choose|k: int|
                    0 <= k < store@.subscription_tokens.len() && store@.subscription_tokens[k]
                        == row;
                assert(store@.subscription_tokens[k].subscriber_id
                    == store@.subscriptions[i as int].id);
            },
            None => {
                return false;
            },
        }
        i += 1;
    }
    let mut i: usize = 0;
    while i < store.subscription_tokens.len()
        invariant
            i <= store.subscription_tokens.len(),
            forall|a: int|
                0 <= a < i ==> crate::domain::subscription::token_is_valid(
                    (#[trigger] store@.subscription_tokens[a]).subscription_token,
                ) && has_subscriber(
                    store@.subscriptions,
                    store@.subscription_tokens[a].subscriber_id,
                ),
        decreases store.subscription_tokens.len() - i,
    {
        assert(store@.subscription_tokens[i as int] == store.subscription_tokens@[i as int]@);
        if SubscriptionToken::parse(store.subscription_tokens[i].subscription_token.as_str()).is_err() {
            return false;
        }
        match store.get_subscriber_status(store.subscription_tokens[i].subscriber_id) {
            Some(_) => {},
            None => {
                return false;
            },
        }
        i += 1;
    }
    true
}

/// Whether no two issues share an identifier.
fn issues_are_distinct(v: &Vec<IssueRecord>) -> (b: bool)
    ensures
        b == forall|i: int, j: int|
            #![trigger rows(v@)[i], rows(v@)[j]]
            0 <= i < j < v@.len() ==> rows(v@)[i].newsletter_issue_id != rows(
                v@,
            )[j].newsletter_issue_id,
{
    let mut j: usize = 0;
    while j < v.len()
        invariant
            j <= v.len(),
            forall|a: int, b: int|
                #![trigger rows(v@)[a], rows(v@)[b]]
                0 <= a < b < j ==> rows(v@)[a].newsletter_issue_id != rows(
                    v@,
                )[b].newsletter_issue_id,
        decreases v.len() - j,
    {
        let mut i: usize = 0;
        while i < j
            invariant
                i <= j < v.len(),
                forall|a: int|
                    0 <= a < i ==> (#[trigger] rows(v@)[a]).newsletter_issue_id != rows(
                        v@,
                    )[j as int].newsletter_issue_id,
            decreases j - i,
        {
            if v[i].newsletter_issue_id == v[j].newsletter_issue_id {
                assert(rows(v@)[i as int] == v@[i as int]@ && rows(v@)[j as int] == v@[j as int]@);
                return false;
            }
            assert(rows(v@)[i as int] == v@[i as int]@ && rows(v@)[j as int] == v@[j as int]@);
            i += 1;
        }
        j += 1;
    }
    true
}

/// Whether no task is queued twice.
fn tasks_are_distinct(v: &Vec<DeliveryTask>) -> (b: bool)
    ensures
        b == forall|i: int, j: int|
            #![trigger rows(v@)[i], rows(v@)[j]]
            0 <= i < j < v@.len() ==> rows(v@)[i] != rows(v@)[j],
{
    let mut j: usize = 0;
    while j < v.len()
        invariant
            j <= v.len(),
            forall|a: int, b: int|
                #![trigger rows(v@)[a], rows(v@)[b]]
                0 <= a < b < j ==> rows(v@)[a] != rows(v@)[b],
        decreases v.len() - j,
    {
        let mut i: usize = 0;
        while i < j
            invariant
                i <= j < v.len(),
                forall|a: int| 0 <= a < i ==> (#[trigger] rows(v@)[a]) != rows(v@)[j as int],
            decreases j - i,
        {
            if v[i].newsletter_issue_id == v[j].newsletter_issue_id && same_text(
                v[i].subscriber_email.as_str(),
                v[j].subscriber_email.as_str(),
            ) {
                assert(rows(v@)[i as int] == v@[i as int]@ && rows(v@)[j as int] == v@[j as int]@);
                return false;
            }
            assert(rows(v@)[i as int] == v@[i as int]@ && rows(v@)[j as int] == v@[j as int]@);
            i += 1;
        }
        j += 1;
    }
    true
}

/// Whether no user has two rows under one key.
fn keys_are_distinct(v: &Vec<IdempotencyRecord>) -> (b: bool)
    ensures
        b == forall|i: int, j: int|
            #![trigger rows(v@)[i], rows(v@)[j]]
            0 <= i < j < v@.len() ==> !(rows(v@)[i].user_id == rows(v@)[j].user_id && rows(
                v@,
            )[i].idempotency_key == rows(v@)[j].idempotency_key),
{
    let mut j: usize = 0;
    while j < v.len()
        invariant
            j <= v.len(),
            forall|a: int, b: int|
                #![trigger rows(v@)[a], rows(v@)[b]]
                0 <= a < b < j ==> !(rows(v@)[a].user_id == rows(v@)[b].user_id && rows(
                    v@,
                )[a].idempotency_key == rows(v@)[b].idempotency_key),
        decreases v.len() - j,
    {
        let mut i: usize = 0;
        while i < j
            invariant
                i <= j < v.len(),
                forall|a: int|
                    0 <= a < i ==> !((#[trigger] rows(v@)[a]).user_id == rows(
                        v@,
                    )[j as int].user_id && rows(v@)[a].idempotency_key == rows(
                        v@,
                    )[j as int].idempotency_key),
            decreases j - i,
        {
            if v[i].user_id == v[j].user_id && same_text(
                v[i].idempotency_key.as_str(),
                v[j].idempotency_key.as_str(),
            ) {
                assert(rows(v@)[i as int] == v@[i as int]@ && rows(v@)[j as int] == v@[j as int]@);
                return false;
            }
            assert(rows(v@)[i as int] == v@[i as int]@ && rows(v@)[j as int] == v@[j as int]@);
            i += 1;
        }
        j += 1;
    }
    true
}

/// Whether the issues, the queue and the kept answers are sound.
fn publications_are_sound(store: &Store) -> (b: bool)
    ensures
        b == publications_wf(store@),
{
    assert(store@.newsletter_issues == rows(store.newsletter_issues@));
    assert(store@.issue_delivery_queue == rows(store.issue_delivery_queue@));
    assert(store@.idempotency == rows(store.idempotency@));
    if !issues_are_distinct(&store.newsletter_issues) {
        return false;
    }
    if !tasks_are_distinct(&store.issue_delivery_queue) {
        return false;
    }
    if !keys_are_distinct(&store.idempotency) {
        return false;
    }
    let mut i: usize = 0;
    while i < store.issue_delivery_queue.len()
        invariant
            i <= store.issue_delivery_queue.len(),
            forall|a: int|
                0 <= a < i ==> has_issue(
                    store@.newsletter_issues,
                    (#[trigger] store@.issue_delivery_queue[a]).newsletter_issue_id,
                ),
        decreases store.issue_delivery_queue.len() - i,
    {
        assert(store@.issue_delivery_queue[i as int] == store.issue_delivery_queue@[i as int]@);
        match store.get_issue(store.issue_delivery_queue[i].newsletter_issue_id) {
            Some(issue) => {
                let ghost k = choose|k: int|
                    0 <= k < store@.newsletter_issues.len() && store@.newsletter_issues[k]
                        == issue@;
                assert(store@.newsletter_issues[k].newsletter_issue_id
                    == store@.issue_delivery_queue[i as int].newsletter_issue_id);
            },
            None => {
                return false;
            },
        }
        i += 1;
    }
    let mut i: usize = 0;
    while i < store.idempotency.len()
        invariant
            i <= store.idempotency.len(),
            forall|a: int| 0 <= a < i ==> !(#[trigger] store@.idempotency[a]).torn,
        decreases store.idempotency.len() - i,
    {
        assert(store@.idempotency[i as int] == store.idempotency@[i as int]@);
        let row = &store.idempotency[i];
        let full = row.response_status_code.is_some() && row.response_headers.is_some()
            && row.response_body.is_some();
        let empty = row.response_status_code.is_none() && row.response_headers.is_none()
            && row.response_body.is_none();
        if !full && !empty {
            return false;
        }
        i += 1;
    }
    true
}

impl Store {
    /// Whether the store is sound: see `store_wf`.
    pub fn is_sound(&self) -> (b: bool)
        ensures
            b == store_wf(self@),
    {
        subscriptions_are_sound(self) && publications_are_sound(self)
    }
}

impl Service {
    /// A service on the store `store` that has sent nothing, where the store
    /// is sound; the store back, where it is not.
    pub fn with_store(
        store: Store,
        base_url: Url,
        email_client: EmailClient,
        policy: FailurePolicy,
    ) -> (r: Result<Service, Store>)
        ensures
            r is Ok <==> store_wf(store@),
            r matches Ok(service) ==> service@ == (crate::service::ServiceView {
                store: store@,
                outbox: Seq::empty(),
                base_url: base_url@,
                email_client: email_client@,
                policy,
            }),
            r matches Err(back) ==> back == store,
    {
        if store.is_sound() {
            let service = Service { store, outbox: Vec::new(), base_url, email_client, policy };
            assert(service@.outbox =~= Seq::empty());
            Ok(service)
        } else {
            Err(store)
        }
    }

    /// The store of the service.
    pub fn into_store(self) -> (store: Store)
        ensures
            store@ == self@.store,
            store_wf(store@),
    {
        proof {
            use_type_invariant(&self);
        }
        self.store
    }
}

} // verus!
