//! Confirming a subscription: the steps from the token in the link to the
//! confirmed subscriber.

use crate::domain::subscription::{all_alphanumeric, status_of_text, status_text, token_is_valid};
use crate::domain::{ParseSubscriptionTokenError, SubscriptionStatus, SubscriptionToken};
use crate::http::{CONFLICT, INTERNAL_SERVER_ERROR, UNAUTHORIZED};
use crate::routes::handler_response::HandlerResponse;
use vstd::prelude::*;

verus! {

/// The query of the confirmation link.
#[derive(Debug)]
pub struct Parameters {
    pub subscription_token: String,
}

/// How confirming fails.
#[derive(Debug)]
pub enum ConfirmSubscriptionError {
    /// The text in the link is no token.
    TokenValidationError(ParseSubscriptionTokenError),
    /// The token is well formed, and no subscriber has it.
    TokenNotFound,
    /// The subscriber is confirmed already.
    AlreadyConfirmed,
    /// Storage failed; the text says at which step.
    UnexpectedError(String),
}

impl ConfirmSubscriptionError {
    /// The message of the error.
    pub open spec fn message(&self) -> Seq<char> {
        match self {
            ConfirmSubscriptionError::TokenValidationError(
                ParseSubscriptionTokenError::InvalidLength,
            ) => "invalid token length"@,
            ConfirmSubscriptionError::TokenValidationError(
                ParseSubscriptionTokenError::NotAlphanumeric,
            ) => "token not alphanumeric"@,
            ConfirmSubscriptionError::TokenNotFound => "Token not found"@,
            ConfirmSubscriptionError::AlreadyConfirmed => "Subscription already confirmed"@,
            ConfirmSubscriptionError::UnexpectedError(m) => m@,
        }
    }

    /// The status with which the error is answered: 401 for a text that is no
    /// token and for a token that nobody has, 409 for a subscriber who is
    /// confirmed already, 500 otherwise.
    pub open spec fn status_code(&self) -> u16 {
        match self {
            ConfirmSubscriptionError::TokenValidationError(_) => UNAUTHORIZED,
            ConfirmSubscriptionError::TokenNotFound => UNAUTHORIZED,
            ConfirmSubscriptionError::AlreadyConfirmed => CONFLICT,
            ConfirmSubscriptionError::UnexpectedError(_) => INTERNAL_SERVER_ERROR,
        }
    }

    /// The message of the error, as text.
    pub fn to_string(&self) -> (s: String)
        ensures
            s@ == self.message(),
    {
        match self {
            ConfirmSubscriptionError::TokenValidationError(e) => e.to_string(),
            ConfirmSubscriptionError::TokenNotFound => "Token not found".to_owned(),
            ConfirmSubscriptionError::AlreadyConfirmed => "Subscription already confirmed".to_owned(),
            ConfirmSubscriptionError::UnexpectedError(m) => m.clone(),
        }
    }

    /// The answer to the client.
    pub fn into_response(self) -> (r: HandlerResponse)
        ensures
            r.status_code == self.status_code(),
            r.message@ == match self {
                ConfirmSubscriptionError::TokenValidationError(_) =>
                    "Subscription token validation error"@,
                ConfirmSubscriptionError::TokenNotFound => "Subscription token validation error"@,
                ConfirmSubscriptionError::AlreadyConfirmed => "Subscription already confirmed"@,
                ConfirmSubscriptionError::UnexpectedError(_) =>
                    "Something went wrong with subscription"@,
            },
    {
        match self {
            ConfirmSubscriptionError::TokenValidationError(_)
            | ConfirmSubscriptionError::TokenNotFound => HandlerResponse {
                status_code: UNAUTHORIZED,
                message: "Subscription token validation error".to_owned(),
            },
            ConfirmSubscriptionError::AlreadyConfirmed => HandlerResponse {
                status_code: CONFLICT,
                message: "Subscription already confirmed".to_owned(),
            },
            ConfirmSubscriptionError::UnexpectedError(_) => HandlerResponse {
                status_code: INTERNAL_SERVER_ERROR,
                message: "Something went wrong with subscription".to_owned(),
            },
        }
    }
}

/// Where the handling of one confirmation stands.
#[derive(Debug)]
pub enum ConfirmState {
    /// Nothing has happened yet.
    Received,
    /// The store is looking for the subscriber with the token.
    FindingSubscriber,
    /// The store is reading the status of the subscriber.
    ReadingStatus(u128),
    /// The store is marking the subscriber as confirmed.
    Confirming,
    /// The request has been answered.
    Finished,
}

/// What the outside reports back after an action.
#[derive(Debug)]
pub enum ConfirmEvent {
    /// The request arrived.
    Query(Parameters),
    /// The subscriber with the token, where there is one.
    SubscriberId(Option<u128>),
    /// The stored status of the subscriber.
    Status(String),
    /// The action succeeded, and has nothing to report.
    Done,
    /// The action failed.
    Failed,
}

/// What the outside is asked to do next.
#[derive(Debug)]
pub enum ConfirmAction {
    /// Look for the subscriber of this token.
    FindSubscriberId { subscription_token: String },
    /// Read the status of this subscriber.
    FindStatus { subscriber_id: u128 },
    /// Set the status of this subscriber to `status`.
    ConfirmSubscriber { subscriber_id: u128, status: String },
    /// Answer the request with this result; nothing follows.
    Finish(Result<(), ConfirmSubscriptionError>),
}

/// The step ended the request with an unexpected error of this message.
pub open spec fn confirm_failed(post: ConfirmState, action: ConfirmAction, message: Seq<char>) -> bool {
    &&& post is Finished
    &&& action matches ConfirmAction::Finish(Err(ConfirmSubscriptionError::UnexpectedError(m)))
    &&& m@ == message
}

/// What one step of confirming does: from the state `pre` and the event
/// `event` to the state `post` and the action `action`.
pub open spec fn confirm_step_spec(
    pre: ConfirmState,
    event: ConfirmEvent,
    post: ConfirmState,
    action: ConfirmAction,
) -> bool {
    match pre {
        ConfirmState::Received => match event {
            ConfirmEvent::Query(params) => if token_is_valid(params.subscription_token@) {
                &&& post is FindingSubscriber
                &&& action matches ConfirmAction::FindSubscriberId { subscription_token }
                &&& subscription_token@ == params.subscription_token@
            } else {
                &&& post is Finished
                &&& action matches ConfirmAction::Finish(
                    Err(ConfirmSubscriptionError::TokenValidationError(e)),
                )
                &&& (e == ParseSubscriptionTokenError::NotAlphanumeric <==> !all_alphanumeric(
                    params.subscription_token@,
                ))
            },
            _ => confirm_failed(post, action, "Unexpected event"@),
        },
        ConfirmState::FindingSubscriber => match event {
            ConfirmEvent::SubscriberId(None) => {
                &&& post is Finished
                &&& action matches ConfirmAction::Finish(Err(ConfirmSubscriptionError::TokenNotFound))
            },
            ConfirmEvent::SubscriberId(Some(id)) => {
                &&& post == ConfirmState::ReadingStatus(id)
                &&& action == (ConfirmAction::FindStatus { subscriber_id: id })
            },
            _ => confirm_failed(
                post,
                action,
                "Failed to get subscriber_id associated with the provided token"@,
            ),
        },
        ConfirmState::ReadingStatus(id) => match event {
            ConfirmEvent::Status(text) => match status_of_text(text@) {
                Some(SubscriptionStatus::Confirmed) => {
                    &&& post is Finished
                    &&& action matches ConfirmAction::Finish(
                        Err(ConfirmSubscriptionError::AlreadyConfirmed),
                    )
                },
                Some(SubscriptionStatus::PendingConfirmation) => {
                    &&& post is Confirming
                    &&& action matches ConfirmAction::ConfirmSubscriber { subscriber_id, status }
                    &&& subscriber_id == id
                    &&& status@ == status_text(SubscriptionStatus::Confirmed)
                },
                None => confirm_failed(post, action, "Failed to get subscriber status"@),
            },
            _ => confirm_failed(post, action, "Failed to get subscriber status"@),
        },
        ConfirmState::Confirming => match event {
            ConfirmEvent::Done => {
                &&& post is Finished
                &&& action matches ConfirmAction::Finish(Ok(()))
            },
            _ => confirm_failed(post, action, "Failed to confirm subscriber in the database"@),
        },
        ConfirmState::Finished => confirm_failed(post, action, "Unexpected event"@),
    }
}

/// Ends the request with an unexpected error of the given message.
fn fail(message: &str) -> (r: (ConfirmState, ConfirmAction))
    ensures
        confirm_failed(r.0, r.1, message@),
{
    (
        ConfirmState::Finished,
        ConfirmAction::Finish(Err(ConfirmSubscriptionError::UnexpectedError(message.to_owned()))),
    )
}

/// One step of confirming a subscription. The caller starts in `Received`
/// with the event `Query`, does what each action asks, reports its outcome as
/// the next event, and stops at `Finish`.
///
/// A text that is no token ends the request with `TokenValidationError`; a
/// token that no subscriber has, with `TokenNotFound`. A subscriber who is
/// confirmed already ends it with `AlreadyConfirmed`: the link works once.
/// Otherwise the subscriber is marked as confirmed. The token is kept.
pub fn confirm(state: ConfirmState, event: ConfirmEvent) -> (r: (ConfirmState, ConfirmAction))
    ensures
        confirm_step_spec(state, event, r.0, r.1),
{
    match state {
        ConfirmState::Received => match event {
            ConfirmEvent::Query(params) => match SubscriptionToken::parse(
                params.subscription_token.as_str(),
            ) {
                Ok(token) => (
                    ConfirmState::FindingSubscriber,
                    ConfirmAction::FindSubscriberId {
                        subscription_token: token.as_str().to_owned(),
                    },
                ),
                Err(e) => (
                    ConfirmState::Finished,
                    ConfirmAction::Finish(Err(ConfirmSubscriptionError::TokenValidationError(e))),
                ),
            },
            _ => fail("Unexpected event"),
        },
        ConfirmState::FindingSubscriber => match event {
            ConfirmEvent::SubscriberId(None) => (
                ConfirmState::Finished,
                ConfirmAction::Finish(Err(ConfirmSubscriptionError::TokenNotFound)),
            ),
            ConfirmEvent::SubscriberId(Some(id)) => (
                ConfirmState::ReadingStatus(id),
                ConfirmAction::FindStatus { subscriber_id: id },
            ),
            _ => fail("Failed to get subscriber_id associated with the provided token"),
        },
        ConfirmState::ReadingStatus(id) => match event {
            ConfirmEvent::Status(text) => match SubscriptionStatus::try_from(text) {
                Ok(SubscriptionStatus::Confirmed) => (
                    ConfirmState::Finished,
                    ConfirmAction::Finish(Err(ConfirmSubscriptionError::AlreadyConfirmed)),
                ),
                Ok(SubscriptionStatus::PendingConfirmation) => (
                    ConfirmState::Confirming,
                    ConfirmAction::ConfirmSubscriber {
                        subscriber_id: id,
                        status: SubscriptionStatus::Confirmed.to_string(),
                    },
                ),
                Err(_) => fail("Failed to get subscriber status"),
            },
            _ => fail("Failed to get subscriber status"),
        },
        ConfirmState::Confirming => match event {
            ConfirmEvent::Done => (ConfirmState::Finished, ConfirmAction::Finish(Ok(()))),
            _ => fail("Failed to confirm subscriber in the database"),
        },
        ConfirmState::Finished => fail("Unexpected event"),
    }
}

/// The most steps that a request in the state `state` still takes.
pub open spec fn confirm_steps_left(state: ConfirmState) -> nat {
    match state {
        ConfirmState::Received => 4,
        ConfirmState::FindingSubscriber => 3,
        ConfirmState::ReadingStatus(_) => 2,
        ConfirmState::Confirming => 1,
        ConfirmState::Finished => 0,
    }
}

/// Every request is answered: each step either ends the request or leaves
/// fewer steps to take, whatever the outside reports. A request takes at
/// most four steps.
pub proof fn law_confirm_ends(
    pre: ConfirmState,
    event: ConfirmEvent,
    post: ConfirmState,
    action: ConfirmAction,
)
    requires
        confirm_step_spec(pre, event, post, action),
    ensures
        action is Finish <==> post is Finished,
        !(action is Finish) ==> confirm_steps_left(post) < confirm_steps_left(pre),
{
}

} // verus!
