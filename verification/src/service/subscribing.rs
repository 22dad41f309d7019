//! Subscribing, on the store in memory: what it does, that it keeps the
//! store sound, and what follows of it.

use crate::database::TokenRow;
use crate::domain::email::email_is_valid;
use crate::domain::name::name_is_valid;
use crate::domain::subscription::{lemma_status_text_is_read_back, status_text, token_is_valid};
use crate::domain::SubscriptionStatus;
use crate::email_client::{delivery_result, reply_result, ProviderReply};
use crate::routes::subscriptions::{form_refused, 
    confirmation_link_text, confirmation_text, record_readable, subscribe, subscribe_sends,
    NewSubscriberView, SubscribeAction, SubscribeError, SubscribeEvent, SubscribeFormData,
    SubscribeState,
};
use crate::service::{nothing_undone, 
    lemma_subscriber_with, lemma_token_of, store_wf, subscriber_ok, subscriber_with,
    subscriptions_wf, token_of, Delivery, DeliveryView, Service, ServiceView,
};
use crate::store::{has_email, has_subscriber, has_token, has_token_of, StoreView};
use crate::text::trimmed;
use vstd::pervasive::unreached;
use vstd::prelude::*;

verus! {

broadcast use crate::service::lemma_service_view;

/// The confirmation email to `email` with the link `link`, as it is handed to
/// the provider.
pub open spec fn confirmation_delivery(email: Seq<char>, link: Seq<char>) -> DeliveryView {
    DeliveryView { to: email, subject: "Welcome!"@, text_body: confirmation_text(link) }
}

/// The confirmation email with the token `token` goes out from `pre` to
/// `email`: it is handed to the provider where the base URL gives a link, and
/// the request succeeds exactly where the provider accepts it.
pub open spec fn confirmation_sent(
    pre: ServiceView,
    email: Seq<char>,
    token: Seq<char>,
    reply: ProviderReply,
    post: ServiceView,
    result: Result<(), SubscribeError>,
) -> bool {
    match confirmation_link_text(pre.base_url, token) {
        None => post.outbox == pre.outbox && result matches Err(SubscribeError::UnexpectedError(_)),
        Some(link) => {
            &&& post.outbox == pre.outbox.push(confirmation_delivery(email, link))
            &&& (result is Ok <==> reply_result(reply) is Ok)
            &&& (result matches Err(e) ==> e is UnexpectedError)
        },
    }
}

/// The store `post` is the store `pre` with one subscriber and one token
/// added: the subscriber has the name of the form, trimmed, and its address,
/// is pending, and has an identifier that no subscriber had; the token is
/// theirs, is valid, and is one that no row held.
pub open spec fn subscriber_added(
    pre: StoreView,
    name: Seq<char>,
    email: Seq<char>,
    post: StoreView,
) -> bool {
    let row = post.subscriptions.last();
    let token = post.subscription_tokens.last();
    &&& post == (StoreView {
        subscriptions: pre.subscriptions.push(row),
        subscription_tokens: pre.subscription_tokens.push(token),
        ..pre
    })
    &&& row.name == trimmed(name)
    &&& row.email == email
    &&& row.status == status_text(SubscriptionStatus::PendingConfirmation)
    &&& !has_subscriber(pre.subscriptions, row.id)
    &&& token.subscriber_id == row.id
    &&& token_is_valid(token.subscription_token)
    &&& !has_token(pre.subscription_tokens, token.subscription_token)
}

/// What subscribing with the form (`name`, `email`) does to the service,
/// when the provider answers a request with `reply`.
///
/// A refused form, and an address whose subscriber is confirmed, change
/// nothing. For an address whose subscriber is pending, the store stays as it
/// is and the confirmation email goes out again with the stored token. For a
/// new address, either nothing is written and the request fails (the fresh
/// identifier or token was taken), or one pending subscriber and one token
/// are added and the confirmation email goes out with that token; they stay
/// even where the provider then refuses the email.
pub open spec fn subscribed(
    pre: ServiceView,
    name: Seq<char>,
    email: Seq<char>,
    reply: ProviderReply,
    post: ServiceView,
    result: Result<(), SubscribeError>,
) -> bool {
    &&& post.base_url == pre.base_url
    &&& post.email_client == pre.email_client
    &&& post.policy == pre.policy
    &&& if !(name_is_valid(trimmed(name)) && email_is_valid(email)) {
        post == pre && (result matches Err(SubscribeError::FormValidationError(e))
            && form_refused(name, email, e))
    } else if has_email(pre.store.subscriptions, email) {
        let row = subscriber_with(pre.store.subscriptions, email);
        if row.status == status_text(SubscriptionStatus::Confirmed) {
            post == pre && result matches Err(SubscribeError::AlreadyConfirmed)
        } else {
            &&& post.store == pre.store
            &&& confirmation_sent(
                pre,
                email,
                token_of(pre.store.subscription_tokens, row.id),
                reply,
                post,
                result,
            )
        }
    } else {
        ||| post == pre && result matches Err(SubscribeError::UnexpectedError(_))
        ||| {
            &&& subscriber_added(pre.store, name, email, post.store)
            &&& confirmation_sent(
                pre,
                email,
                post.store.subscription_tokens.last().subscription_token,
                reply,
                post,
                result,
            )
        }
    }
}

/// Adding a subscriber with a valid name and address to a store that has
/// none with that address leaves a sound store sound.
pub proof fn lemma_subscriber_added_keeps_wf(
    pre: StoreView,
    name: Seq<char>,
    email: Seq<char>,
    post: StoreView,
)
    requires
        store_wf(pre),
        name_is_valid(trimmed(name)),
        email_is_valid(email),
        !has_email(pre.subscriptions, email),
        subscriber_added(pre, name, email, post),
    ensures
        store_wf(post),
{
    let row = post.subscriptions.last();
    let token = post.subscription_tokens.last();
    let n = pre.subscriptions.len() as int;
    let m = pre.subscription_tokens.len() as int;
    crate::text::lemma_trimmed(name);
    crate::domain::name::lemma_trim_of_inked(trimmed(name));
    assert(subscriber_ok(row));
    assert forall|i: int|
        0 <= i < post.subscriptions.len() implies subscriber_ok(
        #[trigger] post.subscriptions[i],
    ) && has_token_of(post.subscription_tokens, post.subscriptions[i].id) by {
        if i < n {
            assert(post.subscriptions[i] == pre.subscriptions[i]);
            let k = choose|k: int|
                0 <= k < m && (#[trigger] pre.subscription_tokens[k]).subscriber_id
                    == pre.subscriptions[i].id;
            assert(post.subscription_tokens[k].subscriber_id
                == post.subscriptions[i].id);
        } else {
            assert(post.subscription_tokens[m].subscriber_id == row.id);
        }
    }
    assert forall|i: int, j: int|
        #![trigger post.subscriptions[i], post.subscriptions[j]]
        0 <= i < j < post.subscriptions.len() implies post.subscriptions[i].id
        != post.subscriptions[j].id && post.subscriptions[i].email
        != post.subscriptions[j].email by {
        if j < n {
            assert(post.subscriptions[i] == pre.subscriptions[i]);
            assert(post.subscriptions[j] == pre.subscriptions[j]);
        } else {
            assert(post.subscriptions[i] == pre.subscriptions[i]);
        }
    }
    assert forall|i: int, j: int|
        #![trigger post.subscription_tokens[i], post.subscription_tokens[j]]
        0 <= i < j < post.subscription_tokens.len() implies post.subscription_tokens[i].subscriber_id
        != post.subscription_tokens[j].subscriber_id
        && post.subscription_tokens[i].subscription_token
        != post.subscription_tokens[j].subscription_token by {
        if j < m {
            assert(post.subscription_tokens[i] == pre.subscription_tokens[i]);
            assert(post.subscription_tokens[j] == pre.subscription_tokens[j]);
        } else {
            assert(post.subscription_tokens[i] == pre.subscription_tokens[i]);
            // a token row of the fresh identifier would belong to a subscriber
            assert(has_subscriber(
                pre.subscriptions,
                pre.subscription_tokens[i].subscriber_id,
            ));
        }
    }
    assert forall|i: int| 0 <= i < post.subscription_tokens.len() implies token_is_valid(
        (#[trigger] post.subscription_tokens[i]).subscription_token,
    ) && has_subscriber(
        post.subscriptions,
        post.subscription_tokens[i].subscriber_id,
    ) by {
        if i < m {
            assert(post.subscription_tokens[i] == pre.subscription_tokens[i]);
            let k = choose|k: int|
                0 <= k < n && (#[trigger] pre.subscriptions[k]).id
                    == pre.subscription_tokens[i].subscriber_id;
            assert(post.subscriptions[k].id
                == post.subscription_tokens[i].subscriber_id);
        } else {
            assert(post.subscriptions[n].id == token.subscriber_id);
        }
    }
}

/// Subscribing leaves a sound store sound.
pub proof fn law_subscribing_keeps_the_store_sound(
    pre: ServiceView,
    name: Seq<char>,
    email: Seq<char>,
    reply: ProviderReply,
    post: ServiceView,
    result: Result<(), SubscribeError>,
)
    requires
        store_wf(pre.store),
        subscribed(pre, name, email, reply, post, result),
    ensures
        store_wf(post.store),
{
    if post.store != pre.store {
        lemma_subscriber_added_keeps_wf(pre.store, name, email, post.store);
    }
}

impl Service {
    /// Hands the confirmation email to the provider, which answers with
    /// `reply`, and ends the request.
    fn send_confirmation(
        &mut self,
        state: SubscribeState,
        action: SubscribeAction,
        reply: ProviderReply,
        Ghost(subscriber): Ghost<NewSubscriberView>,
        Ghost(token): Ghost<Seq<char>>,
    ) -> (r: Result<(), SubscribeError>)
        requires
            subscribe_sends(subscriber, token, old(self)@.base_url, state, action),
        ensures
            final(self)@.store == old(self)@.store,
            final(self)@.base_url == old(self)@.base_url,
            final(self)@.email_client == old(self)@.email_client,
            final(self)@.policy == old(self)@.policy,
            confirmation_sent(old(self)@, subscriber.email, token, reply, final(self)@, r),
    {
        match action {
            SubscribeAction::SendConfirmation(mail) => {
                let delivery = Delivery {
                    to: mail.recipient.to_string(),
                    subject: mail.subject,
                    text_body: mail.text_body,
                };
                self.hand_over(delivery);
                let event = match delivery_result(reply) {
                    Ok(_) => SubscribeEvent::Done,
                    Err(_) => SubscribeEvent::Failed,
                };
                let (_, action) = subscribe(state, event, &self.base_url);
                match action {
                    SubscribeAction::Finish(r) => r,
                    _ => unreached(),
                }
            },
            SubscribeAction::Finish(r) => r,
            _ => unreached(),
        }
    }

    /// Subscribes with `form`, the provider answering a request with `reply`:
    /// runs the steps of `subscribe` on the store in memory, from the form to
    /// the answer.
    pub fn subscribe(&mut self, form: SubscribeFormData, reply: ProviderReply) -> (r: Result<
        (),
        SubscribeError,
    >)
        ensures
            subscribed(old(self)@, form.name@, form.email@, reply, final(self)@, r),
    {
        proof {
            use_type_invariant(&*self);
        }
        let ghost pre = self@;
        let ghost name = form.name@;
        let ghost email = form.email@;
        let (state, action) = subscribe(
            SubscribeState::Received,
            SubscribeEvent::Form(form),
            &self.base_url,
        );
        match action {
            SubscribeAction::Finish(r) => {
                return r;
            },
            SubscribeAction::Begin => {},
            _ => {
                return unreached();
            },
        }
        let mut tx = self.store.snapshot();
        let (state, action) = subscribe(state, SubscribeEvent::Done, &self.base_url);
        let address = match action {
            SubscribeAction::FindSubscriber { email } => email,
            _ => {
                return unreached();
            },
        };
        let found = tx.get_existing_subscriber(address.as_str());
        let ghost existing = found;
        proof {
            if let Some(row) = existing {
                lemma_subscriber_with(pre.store, row@);
                lemma_status_text_is_read_back(SubscriptionStatus::Confirmed);
                lemma_status_text_is_read_back(SubscriptionStatus::PendingConfirmation);
                assert(subscriber_ok(row@));
                assert(record_readable(row@));
            }
        }
        let (state, action) = subscribe(state, SubscribeEvent::Subscriber(found), &self.base_url);
        match action {
            SubscribeAction::Finish(r) => {
                return r;
            },
            SubscribeAction::FindToken { subscriber_id } => {
                let stored = tx.get_existing_subscription_token(subscriber_id);
                let ghost token = token_of(pre.store.subscription_tokens, subscriber_id);
                let event = match stored {
                    Some(text) => {
                        proof {
                            lemma_token_of(
                                pre.store,
                                TokenRow { subscription_token: text@, subscriber_id },
                            );
                        }
                        SubscribeEvent::Token(text)
                    },
                    None => SubscribeEvent::Failed,
                };
                let (state, action) = subscribe(state, event, &self.base_url);
                match action {
                    SubscribeAction::Rollback => {},
                    _ => {
                        return unreached();
                    },
                }
                // the transaction wrote nothing, and is dropped
                let (state, action) = subscribe(state, SubscribeEvent::Done, &self.base_url);
                let ghost known = NewSubscriberView { name: trimmed(existing->0.name@), email };
                self.send_confirmation(state, action, reply, Ghost(known), Ghost(token))
            },
            SubscribeAction::InsertSubscriber(row) => {
                let ghost new_row = row@;
                let inserted = tx.insert_subscriber(row);
                let event = if inserted {
                    SubscribeEvent::Done
                } else {
                    SubscribeEvent::Failed
                };
                let (state, action) = subscribe(state, event, &self.base_url);
                let (subscriber_id, subscription_token) = match action {
                    SubscribeAction::Finish(r) => {
                        return r;
                    },
                    SubscribeAction::StoreToken { subscriber_id, subscription_token } => (
                        subscriber_id,
                        subscription_token,
                    ),
                    _ => {
                        return unreached();
                    },
                };
                let ghost token = subscription_token@;
                let stored = tx.store_token(subscriber_id, subscription_token);
                let event = if stored {
                    SubscribeEvent::Done
                } else {
                    SubscribeEvent::Failed
                };
                let (state, action) = subscribe(state, event, &self.base_url);
                match action {
                    SubscribeAction::Finish(r) => {
                        return r;
                    },
                    SubscribeAction::Commit => {},
                    _ => {
                        return unreached();
                    },
                }
                proof {
                    assert(tx@.subscriptions.last() == new_row);
                    assert(tx@.subscription_tokens.last() == (TokenRow {
                        subscription_token: token,
                        subscriber_id,
                    }));
                    lemma_subscriber_added_keeps_wf(pre.store, name, email, tx@);
                }
                self.store = tx;
                let (state, action) = subscribe(state, SubscribeEvent::Done, &self.base_url);
                let ghost fresh = NewSubscriberView { name: trimmed(name), email };
                let r = self.send_confirmation(state, action, reply, Ghost(fresh), Ghost(token));
                proof {
                    assert(confirmation_sent(pre, email, token, reply, self@, r));
                }
                r
            },
            _ => unreached(),
        }
    }
}

/// The subscriber at `i` is the only one with the address `email`, is
/// pending, and has exactly one token row.
pub open spec fn sole_pending_subscriber(s: StoreView, email: Seq<char>, i: int) -> bool {
    &&& 0 <= i < s.subscriptions.len()
    &&& s.subscriptions[i].email == email
    &&& s.subscriptions[i].status == status_text(SubscriptionStatus::PendingConfirmation)
    &&& forall|j: int|
        0 <= j < s.subscriptions.len() && (#[trigger] s.subscriptions[j]).email == email ==> j
            == i
    &&& exists|k: int|
        {
            &&& 0 <= k < s.subscription_tokens.len()
            &&& (#[trigger] s.subscription_tokens[k]).subscriber_id == s.subscriptions[i].id
            &&& forall|m: int|
                0 <= m < s.subscription_tokens.len() && (
                #[trigger] s.subscription_tokens[m]).subscriber_id == s.subscriptions[i].id ==> m
                    == k
        }
}

/// In a sound store, the only subscriber with a given address, and its only
/// token row.
proof fn lemma_sole_subscriber(s: StoreView, i: int)
    requires
        subscriptions_wf(s),
        0 <= i < s.subscriptions.len(),
    ensures
        forall|j: int|
            0 <= j < s.subscriptions.len() && (#[trigger] s.subscriptions[j]).email
                == s.subscriptions[i].email ==> j == i,
        exists|k: int|
            {
                &&& 0 <= k < s.subscription_tokens.len()
                &&& (#[trigger] s.subscription_tokens[k]).subscriber_id == s.subscriptions[i].id
                &&& forall|m: int|
                    0 <= m < s.subscription_tokens.len() && (
                    #[trigger] s.subscription_tokens[m]).subscriber_id == s.subscriptions[i].id
                        ==> m == k
            },
{
    assert forall|j: int|
        0 <= j < s.subscriptions.len() && (#[trigger] s.subscriptions[j]).email
            == s.subscriptions[i].email implies j == i by {
        if j < i {
            assert(s.subscriptions[j].email != s.subscriptions[i].email);
        } else if i < j {
            assert(s.subscriptions[i].email != s.subscriptions[j].email);
        }
    }
    assert(subscriber_ok(s.subscriptions[i]));
    let k = choose|k: int|
        0 <= k < s.subscription_tokens.len() && (#[trigger] s.subscription_tokens[k]).subscriber_id
            == s.subscriptions[i].id;
    assert forall|m: int|
        0 <= m < s.subscription_tokens.len() && (#[trigger] s.subscription_tokens[m]).subscriber_id
            == s.subscriptions[i].id implies m == k by {
        if m < k {
            assert(s.subscription_tokens[m].subscriber_id != s.subscription_tokens[k].subscriber_id);
        } else if k < m {
            assert(s.subscription_tokens[k].subscriber_id != s.subscription_tokens[m].subscriber_id);
        }
    }
}

/// After a subscription that succeeded, exactly one subscriber has the
/// address; that subscriber is pending, and exactly one token row is theirs.
pub proof fn law_subscribe_leaves_one_pending_subscriber(
    pre: ServiceView,
    name: Seq<char>,
    email: Seq<char>,
    reply: ProviderReply,
    post: ServiceView,
    result: Result<(), SubscribeError>,
)
    requires
        store_wf(pre.store),
        subscribed(pre, name, email, reply, post, result),
        result is Ok,
    ensures
        exists|i: int| sole_pending_subscriber(post.store, email, i),
{
    law_subscribing_keeps_the_store_sound(pre, name, email, reply, post, result);
    lemma_status_text_is_read_back(SubscriptionStatus::Confirmed);
    if has_email(pre.store.subscriptions, email) {
        let i = choose|i: int|
            0 <= i < pre.store.subscriptions.len() && (#[trigger] pre.store.subscriptions[i]).email
                == email;
        assert(subscriber_ok(post.store.subscriptions[i]));
        lemma_sole_subscriber(post.store, i);
        assert(sole_pending_subscriber(post.store, email, i));
    } else {
        let i = pre.store.subscriptions.len() as int;
        assert(post.store.subscriptions[i] == post.store.subscriptions.last());
        lemma_sole_subscriber(post.store, i);
        assert(sole_pending_subscriber(post.store, email, i));
    }
}

/// Subscribing again with the address of a subscription that succeeded and
/// is not yet confirmed hands the provider a second confirmation email, the
/// same as the first: same recipient, same link. The name of the second form
/// plays no part.
pub proof fn law_resubscribing_sends_the_same_link(
    before: ServiceView,
    first_name: Seq<char>,
    second_name: Seq<char>,
    email: Seq<char>,
    first_reply: ProviderReply,
    second_reply: ProviderReply,
    between: ServiceView,
    after: ServiceView,
    first_result: Result<(), SubscribeError>,
    second_result: Result<(), SubscribeError>,
)
    requires
        store_wf(before.store),
        subscribed(before, first_name, email, first_reply, between, first_result),
        first_result is Ok,
        name_is_valid(trimmed(second_name)),
        subscribed(between, second_name, email, second_reply, after, second_result),
    ensures
        between.outbox.len() == before.outbox.len() + 1,
        after.outbox == between.outbox.push(between.outbox.last()),
        exists|link: Seq<char>| between.outbox.last() == confirmation_delivery(email, link),
        after.store == between.store,
{
    law_subscribing_keeps_the_store_sound(before, first_name, email, first_reply, between, first_result);
    law_subscribe_leaves_one_pending_subscriber(
        before,
        first_name,
        email,
        first_reply,
        between,
        first_result,
    );
    lemma_status_text_is_read_back(SubscriptionStatus::Confirmed);
    let i = choose|i: int| sole_pending_subscriber(between.store, email, i);
    let row = between.store.subscriptions[i];
    assert(between.store.subscriptions.contains(row));
    lemma_subscriber_with(between.store, row);
    // the token that the first request used is the subscriber's stored token
    if has_email(before.store.subscriptions, email) {
        assert(between.store == before.store);
    } else {
        let token = between.store.subscription_tokens.last();
        assert(between.store.subscription_tokens.contains(token)) by {
            assert(between.store.subscription_tokens[between.store.subscription_tokens.len() - 1]
                == token);
        }
        lemma_token_of(between.store, token);
        assert(between.store.subscriptions.last() == row) by {
            let n = between.store.subscriptions.len() - 1;
            assert(between.store.subscriptions[n].email == email);
        }
    }
    let token = token_of(between.store.subscription_tokens, row.id);
    let link = confirmation_link_text(before.base_url, token)->0;
    assert(between.outbox.last() == confirmation_delivery(email, link));
}

/// Subscribing with the address of a confirmed subscriber fails, and changes
/// nothing: no row is written and no email is handed to the provider.
pub proof fn law_confirmed_subscriber_is_refused(
    pre: ServiceView,
    name: Seq<char>,
    email: Seq<char>,
    reply: ProviderReply,
    post: ServiceView,
    result: Result<(), SubscribeError>,
    i: int,
)
    requires
        store_wf(pre.store),
        subscribed(pre, name, email, reply, post, result),
        0 <= i < pre.store.subscriptions.len(),
        pre.store.subscriptions[i].email == email,
        pre.store.subscriptions[i].status == status_text(SubscriptionStatus::Confirmed),
    ensures
        result is Err,
        post == pre,
{
    assert(pre.store.subscriptions.contains(pre.store.subscriptions[i]));
    lemma_subscriber_with(pre.store, pre.store.subscriptions[i]);
}

/// Subscribing undoes nothing that is settled: no subscriber is removed or
/// renamed, no status goes back, and no token, issue or kept answer changes.
pub proof fn law_subscribing_undoes_nothing(
    pre: ServiceView,
    name: Seq<char>,
    email: Seq<char>,
    reply: ProviderReply,
    post: ServiceView,
    result: Result<(), SubscribeError>,
)
    requires
        subscribed(pre, name, email, reply, post, result),
    ensures
        nothing_undone(pre.store, post.store),
{
}

} // verus!
