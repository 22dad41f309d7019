//! Confirming a subscription, on the store in memory: what it does, that it
//! keeps the store sound, and what follows of it.

use crate::database::{SubscriberRow, TokenRow};
use crate::domain::subscription::{
    all_alphanumeric, lemma_status_text_is_read_back, status_text, token_is_valid,
};
use crate::domain::{ParseSubscriptionTokenError, SubscriptionStatus};
use crate::http::{CONFLICT, UNAUTHORIZED};
use crate::routes::subscriptions_confirm::{
    confirm, ConfirmAction, ConfirmEvent, ConfirmState, ConfirmSubscriptionError, Parameters,
};
use crate::service::{nothing_undone, store_wf, subscriber_ok, subscriptions_wf, Service, ServiceView};
use crate::store::{has_subscriber, has_token, has_token_of, rows, with_status, StoreView};
use vstd::pervasive::unreached;
use vstd::prelude::*;

verus! {

broadcast use crate::service::lemma_service_view;

/// The subscriber of the token `token` among the rows `t`.
pub open spec fn subscriber_of_token(t: Seq<TokenRow>, token: Seq<char>) -> u128 {
    t[choose|i: int| 0 <= i < t.len() && (#[trigger] t[i]).subscription_token == token].subscriber_id
}

/// The subscriber of `s` with the identifier `id`.
pub open spec fn subscriber_by_id(s: Seq<SubscriberRow>, id: u128) -> SubscriberRow {
    s[choose|i: int| 0 <= i < s.len() && (#[trigger] s[i]).id == id]
}

/// In a sound store, a token row that is there names the subscriber of its
/// token.
pub proof fn lemma_subscriber_of_token(s: StoreView, row: TokenRow)
    requires
        subscriptions_wf(s),
        s.subscription_tokens.contains(row),
    ensures
        subscriber_of_token(s.subscription_tokens, row.subscription_token) == row.subscriber_id,
        has_token(s.subscription_tokens, row.subscription_token),
        has_subscriber(s.subscriptions, row.subscriber_id),
{
    let k = choose|k: int| 0 <= k < s.subscription_tokens.len() && s.subscription_tokens[k] == row;
    assert(s.subscription_tokens[k].subscription_token == row.subscription_token);
    let i = choose|i: int|
        0 <= i < s.subscription_tokens.len() && (
        #[trigger] s.subscription_tokens[i]).subscription_token == row.subscription_token;
    if i < k {
        assert(s.subscription_tokens[i].subscription_token
            != s.subscription_tokens[k].subscription_token);
    } else if k < i {
        assert(s.subscription_tokens[k].subscription_token
            != s.subscription_tokens[i].subscription_token);
    }
}

/// In a sound store, the subscriber at `k` is the subscriber with its
/// identifier.
pub proof fn lemma_subscriber_by_id(s: StoreView, k: int)
    requires
        subscriptions_wf(s),
        0 <= k < s.subscriptions.len(),
    ensures
        subscriber_by_id(s.subscriptions, s.subscriptions[k].id) == s.subscriptions[k],
{
    let i = choose|i: int|
        0 <= i < s.subscriptions.len() && (#[trigger] s.subscriptions[i]).id
            == s.subscriptions[k].id;
    if i < k {
        assert(s.subscriptions[i].id != s.subscriptions[k].id);
    } else if k < i {
        assert(s.subscriptions[k].id != s.subscriptions[i].id);
    }
}

/// What following the confirmation link with the text `text` does to the
/// service.
///
/// A text that is no token, a token that no row holds, and the token of a
/// confirmed subscriber change nothing, and fail each in its own way.
/// Otherwise the status of the subscriber becomes `confirmed`, and nothing
/// else changes: the token stays.
pub open spec fn confirmed(
    pre: ServiceView,
    text: Seq<char>,
    post: ServiceView,
    result: Result<(), ConfirmSubscriptionError>,
) -> bool {
    if !token_is_valid(text) {
        &&& post == pre
        &&& result matches Err(ConfirmSubscriptionError::TokenValidationError(e))
        &&& (e == ParseSubscriptionTokenError::NotAlphanumeric <==> !all_alphanumeric(text))
    } else if !has_token(pre.store.subscription_tokens, text) {
        post == pre && result matches Err(ConfirmSubscriptionError::TokenNotFound)
    } else {
        let id = subscriber_of_token(pre.store.subscription_tokens, text);
        if subscriber_by_id(pre.store.subscriptions, id).status == status_text(
            SubscriptionStatus::Confirmed,
        ) {
            post == pre && result matches Err(ConfirmSubscriptionError::AlreadyConfirmed)
        } else {
            &&& result is Ok
            &&& post == (ServiceView { store: subscriber_confirmed(pre.store, id), ..pre })
        }
    }
}

/// The store `pre` after the subscriber `id` was confirmed.
pub open spec fn subscriber_confirmed(pre: StoreView, id: u128) -> StoreView {
    StoreView {
        subscriptions: with_status(
            pre.subscriptions,
            id,
            status_text(SubscriptionStatus::Confirmed),
        ),
        ..pre
    }
}

/// Confirming a subscriber leaves a sound store sound.
pub proof fn lemma_subscriber_confirmed_keeps_wf(pre: StoreView, id: u128)
    requires
        store_wf(pre),
    ensures
        store_wf(subscriber_confirmed(pre, id)),
{
    let post = subscriber_confirmed(pre, id);
    assert forall|i: int| 0 <= i < post.subscriptions.len() implies subscriber_ok(
        #[trigger] post.subscriptions[i],
    ) && has_token_of(post.subscription_tokens, post.subscriptions[i].id) by {
        assert(subscriber_ok(pre.subscriptions[i]));
    }
    assert forall|i: int, j: int|
        #![trigger post.subscriptions[i], post.subscriptions[j]]
        0 <= i < j < post.subscriptions.len() implies post.subscriptions[i].id
        != post.subscriptions[j].id && post.subscriptions[i].email
        != post.subscriptions[j].email by {
        assert(pre.subscriptions[i].id != pre.subscriptions[j].id);
    }
    assert forall|i: int| 0 <= i < post.subscription_tokens.len() implies token_is_valid(
        (#[trigger] post.subscription_tokens[i]).subscription_token,
    ) && has_subscriber(post.subscriptions, post.subscription_tokens[i].subscriber_id) by {
        let k = choose|k: int|
            0 <= k < pre.subscriptions.len() && (#[trigger] pre.subscriptions[k]).id
                == pre.subscription_tokens[i].subscriber_id;
        assert(post.subscriptions[k].id == post.subscription_tokens[i].subscriber_id);
    }
}

/// Confirming leaves a sound store sound.
pub proof fn law_confirming_keeps_the_store_sound(
    pre: ServiceView,
    text: Seq<char>,
    post: ServiceView,
    result: Result<(), ConfirmSubscriptionError>,
)
    requires
        store_wf(pre.store),
        confirmed(pre, text, post, result),
    ensures
        store_wf(post.store),
{
    if post.store != pre.store {
        lemma_subscriber_confirmed_keeps_wf(
            pre.store,
            subscriber_of_token(pre.store.subscription_tokens, text),
        );
    }
}

impl Service {
    /// Follows the confirmation link with the query `params`: runs the steps
    /// of `confirm` on the store in memory, from the query to the answer.
    pub fn confirm(&mut self, params: Parameters) -> (r: Result<(), ConfirmSubscriptionError>)
        ensures
            confirmed(old(self)@, params.subscription_token@, final(self)@, r),
    {
        proof {
            use_type_invariant(&*self);
        }
        let ghost pre = self@;
        let ghost text = params.subscription_token@;
        let (state, action) = confirm(ConfirmState::Received, ConfirmEvent::Query(params));
        let token = match action {
            ConfirmAction::Finish(r) => {
                return r;
            },
            ConfirmAction::FindSubscriberId { subscription_token } => subscription_token,
            _ => {
                return unreached();
            },
        };
        let found = self.store.get_subscriber_id_from_token(token.as_str());
        proof {
            if let Some(id) = found {
                lemma_subscriber_of_token(
                    pre.store,
                    TokenRow { subscription_token: text, subscriber_id: id },
                );
            }
        }
        let (state, action) = confirm(state, ConfirmEvent::SubscriberId(found));
        let id = match action {
            ConfirmAction::Finish(r) => {
                return r;
            },
            ConfirmAction::FindStatus { subscriber_id } => subscriber_id,
            _ => {
                return unreached();
            },
        };
        let status = self.store.get_subscriber_status(id);
        let event = match status {
            Some(status) => {
                proof {
                    let k = choose|k: int|
                        0 <= k < pre.store.subscriptions.len() && (
                        #[trigger] pre.store.subscriptions[k]).id == id
                            && pre.store.subscriptions[k].status == status@;
                    lemma_subscriber_by_id(pre.store, k);
                    assert(subscriber_ok(pre.store.subscriptions[k]));
                    lemma_status_text_is_read_back(SubscriptionStatus::Confirmed);
                    lemma_status_text_is_read_back(SubscriptionStatus::PendingConfirmation);
                }
                ConfirmEvent::Status(status)
            },
            None => ConfirmEvent::Failed,
        };
        let (state, action) = confirm(state, event);
        let new_status = match action {
            ConfirmAction::Finish(r) => {
                return r;
            },
            ConfirmAction::ConfirmSubscriber { subscriber_id, status } => status,
            _ => {
                return unreached();
            },
        };
        proof {
            lemma_subscriber_confirmed_keeps_wf(pre.store, id);
        }
        let mut store = self.take_store();
        store.confirm_subscriber(id, new_status.as_str());
        self.put_store(store);
        let (_, action) = confirm(state, ConfirmEvent::Done);
        let r = match action {
            ConfirmAction::Finish(r) => r,
            _ => unreached(),
        };
        r
    }
}

/// After a confirmation that succeeded, the subscriber of the token is
/// confirmed; following the link a second time changes nothing and is
/// answered with `AlreadyConfirmed`, that is with 409.
pub proof fn law_confirm_works_once(
    before: ServiceView,
    text: Seq<char>,
    between: ServiceView,
    after: ServiceView,
    first_result: Result<(), ConfirmSubscriptionError>,
    second_result: Result<(), ConfirmSubscriptionError>,
)
    requires
        store_wf(before.store),
        confirmed(before, text, between, first_result),
        first_result is Ok,
        confirmed(between, text, after, second_result),
    ensures
        subscriber_by_id(
            between.store.subscriptions,
            subscriber_of_token(between.store.subscription_tokens, text),
        ).status == status_text(SubscriptionStatus::Confirmed),
        second_result matches Err(ConfirmSubscriptionError::AlreadyConfirmed),
        second_result->Err_0.status_code() == CONFLICT,
        after == between,
{
    law_confirming_keeps_the_store_sound(before, text, between, first_result);
    let id = subscriber_of_token(before.store.subscription_tokens, text);
    let t = choose|t: int|
        0 <= t < before.store.subscription_tokens.len() && (
        #[trigger] before.store.subscription_tokens[t]).subscription_token == text;
    assert(has_subscriber(before.store.subscriptions, id));
    let k = choose|k: int|
        0 <= k < before.store.subscriptions.len() && (#[trigger] before.store.subscriptions[k]).id
            == id;
    assert(between.store.subscriptions[k].id == id);
    assert(between.store.subscriptions[k].status == status_text(SubscriptionStatus::Confirmed));
    lemma_subscriber_by_id(between.store, k);
}

/// A well-formed token that no row holds, and a text that is no token, are
/// both answered with 401 and change nothing, but as two different errors:
/// `TokenNotFound` for the first, `TokenValidationError` for the second.
pub proof fn law_unknown_and_malformed_tokens_differ(
    pre: ServiceView,
    text: Seq<char>,
    post: ServiceView,
    result: Result<(), ConfirmSubscriptionError>,
)
    requires
        confirmed(pre, text, post, result),
        !has_token(pre.store.subscription_tokens, text),
    ensures
        post == pre,
        result is Err,
        result->Err_0.status_code() == UNAUTHORIZED,
        token_is_valid(text) <==> result->Err_0 is TokenNotFound,
        !token_is_valid(text) <==> result->Err_0 is TokenValidationError,
{
}

/// Confirming undoes nothing that is settled: the one status that changes
/// goes from pending to confirmed, and the token stays.
pub proof fn law_confirming_undoes_nothing(
    pre: ServiceView,
    text: Seq<char>,
    post: ServiceView,
    result: Result<(), ConfirmSubscriptionError>,
)
    requires
        confirmed(pre, text, post, result),
    ensures
        nothing_undone(pre.store, post.store),
        post.outbox == pre.outbox,
{
}

} // verus!
