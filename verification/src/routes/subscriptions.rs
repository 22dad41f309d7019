//! Subscribing: the form, and the steps from a submitted form to the
//! confirmation email.

use crate::database::SubscriberRecord;
use crate::domain::email::email_is_valid;
use crate::domain::name::name_is_valid;
use crate::domain::subscription::{status_of_text, status_text, token_is_valid};
use crate::domain::url::{url_joined, url_with_query};
use crate::domain::{
    Email, Name, ParseEmailError, ParseNameError, SubscriptionStatus, SubscriptionToken, Url,
};
use crate::http::{Flash, Response, CONFLICT, INTERNAL_SERVER_ERROR, UNPROCESSABLE_ENTITY};
use crate::routes::handler_response::HandlerResponse;
use crate::text::{join_text, trimmed};
use uuid::{NoContext, Timestamp, Uuid};
use vstd::prelude::*;

verus! {

/// Why a submitted form is refused.
#[derive(Debug)]
pub enum FormDataError {
    ParseName(ParseNameError),
    ParseEmail(ParseEmailError),
}

impl FormDataError {
    /// The message of the error: that of the parser which refused.
    pub open spec fn message(&self) -> Seq<char> {
        match self {
            FormDataError::ParseName(e) => e@,
            FormDataError::ParseEmail(e) => e@,
        }
    }

    /// The message of the error, as text.
    pub fn to_string(&self) -> (s: String)
        ensures
            s@ == self.message(),
    {
        match self {
            FormDataError::ParseName(e) => e.to_string(),
            FormDataError::ParseEmail(e) => e.to_string(),
        }
    }
}

/// The error with which the form (`name`, `email`) is refused: that of the
/// name where the name is refused, else that of the address; each names what
/// it refuses.
pub open spec fn form_refused(name: Seq<char>, email: Seq<char>, e: FormDataError) -> bool {
    if name_is_valid(trimmed(name)) {
        e is ParseEmail && e.message() == email + crate::domain::email::email_error_suffix()
    } else {
        e is ParseName && e.message() == name + crate::domain::name::name_error_suffix()
    }
}

/// The form that a prospective subscriber submits.
#[derive(Debug)]
pub struct SubscribeFormData {
    pub name: String,
    pub email: String,
}

/// A subscriber whose name and address have been checked.
#[derive(Debug)]
pub struct NewSubscriber {
    pub name: Name,
    pub email: Email,
}

/// A `NewSubscriber` as mathematics.
pub struct NewSubscriberView {
    pub name: Seq<char>,
    pub email: Seq<char>,
}

impl View for NewSubscriber {
    type V = NewSubscriberView;

    open spec fn view(&self) -> NewSubscriberView {
        NewSubscriberView { name: self.name@, email: self.email@ }
    }
}

impl NewSubscriber {
    /// Checks a form: the name first, then the address.
    pub fn try_from(value: SubscribeFormData) -> (r: Result<NewSubscriber, FormDataError>)
        ensures
            r is Ok <==> name_is_valid(trimmed(value.name@)) && email_is_valid(value.email@),
            r matches Ok(s) ==> s.name@ == trimmed(value.name@) && s.email@ == value.email@
                && s.name.wf() && s.email.wf(),
            r matches Err(e) ==> form_refused(value.name@, value.email@, e),
    {
        let name = match Name::parse(value.name.as_str()) {
            Ok(name) => name,
            Err(e) => {
                return Err(FormDataError::ParseName(e));
            },
        };
        let email = match Email::parse(value.email.as_str()) {
            Ok(email) => email,
            Err(e) => {
                return Err(FormDataError::ParseEmail(e));
            },
        };
        Ok(NewSubscriber { name, email })
    }
}

/// How subscribing fails.
#[derive(Debug)]
pub enum SubscribeError {
    /// The form was refused.
    FormValidationError(FormDataError),
    /// A subscriber with that address is already confirmed.
    AlreadyConfirmed,
    /// Storage or the email provider failed; the text says at which step.
    UnexpectedError(String),
}

impl SubscribeError {
    /// The message of the error.
    pub open spec fn message(&self) -> Seq<char> {
        match self {
            SubscribeError::FormValidationError(e) => e.message(),
            SubscribeError::AlreadyConfirmed => "subscription already confirmed"@,
            SubscribeError::UnexpectedError(m) => m@,
        }
    }

    /// The message of the error, as text.
    pub fn to_string(&self) -> (s: String)
        ensures
            s@ == self.message(),
    {
        match self {
            SubscribeError::FormValidationError(e) => e.to_string(),
            SubscribeError::AlreadyConfirmed => "subscription already confirmed".to_owned(),
            SubscribeError::UnexpectedError(m) => m.clone(),
        }
    }

    /// The answer to a client that called the endpoint directly: 422 for a
    /// refused form, 409 for a confirmed subscriber, 500 otherwise.
    pub fn into_response(self) -> (r: HandlerResponse)
        ensures
            r.status_code == match self {
                SubscribeError::FormValidationError(_) => UNPROCESSABLE_ENTITY,
                SubscribeError::AlreadyConfirmed => CONFLICT,
                SubscribeError::UnexpectedError(_) => INTERNAL_SERVER_ERROR,
            },
            r.message@ == match self {
                SubscribeError::FormValidationError(_) => "New subscriber form validation error"@,
                SubscribeError::AlreadyConfirmed => "Subscription already confirmed"@,
                SubscribeError::UnexpectedError(_) => "Something went wrong"@,
            },
    {
        match self {
            SubscribeError::FormValidationError(_) => HandlerResponse {
                status_code: UNPROCESSABLE_ENTITY,
                message: "New subscriber form validation error".to_owned(),
            },
            SubscribeError::AlreadyConfirmed => HandlerResponse {
                status_code: CONFLICT,
                message: "Subscription already confirmed".to_owned(),
            },
            SubscribeError::UnexpectedError(_) => HandlerResponse {
                status_code: INTERNAL_SERVER_ERROR,
                message: "Something went wrong".to_owned(),
            },
        }
    }
}


/// A subscriber as the store has it, with each stored text read back.
#[derive(Debug)]
pub struct ExistingSubscriber {
    pub id: u128,
    pub name: Name,
    pub email: Email,
    pub status: SubscriptionStatus,
}

/// A stored row can be read back: its name, its address and its status are
/// each accepted by their parser.
pub open spec fn record_readable(row: crate::database::SubscriberRow) -> bool {
    &&& name_is_valid(trimmed(row.name))
    &&& email_is_valid(row.email)
    &&& status_of_text(row.status) is Some
}

impl ExistingSubscriber {
    /// Reads a stored row back; `None` where one of its texts is refused.
    pub fn try_from(record: SubscriberRecord) -> (r: Option<ExistingSubscriber>)
        ensures
            r is Some <==> record_readable(record@),
            r matches Some(e) ==> e.id == record.id && e.name@ == trimmed(record.name@)
                && e.email@ == record.email@ && status_of_text(record.status@) == Some(e.status)
                && e.name.wf() && e.email.wf(),
    {
        let name = match Name::parse(record.name.as_str()) {
            Ok(name) => name,
            Err(_) => {
                return None;
            },
        };
        let email = match Email::parse(record.email.as_str()) {
            Ok(email) => email,
            Err(_) => {
                return None;
            },
        };
        let status = match SubscriptionStatus::try_from(record.status) {
            Ok(status) => status,
            Err(_) => {
                return None;
            },
        };
        Some(ExistingSubscriber { id: record.id, name, email, status })
    }
}

/// The confirmation email, but for its HTML body, which is rendered from the
/// name and the link where the email is sent.
#[derive(Debug)]
pub struct ConfirmationEmail {
    pub recipient: Email,
    pub name: Name,
    pub link: Url,
    pub subject: String,
    pub text_body: String,
}

/// A `ConfirmationEmail` as mathematics.
pub struct ConfirmationEmailView {
    pub recipient: Seq<char>,
    pub name: Seq<char>,
    pub link: Seq<char>,
    pub subject: Seq<char>,
    pub text_body: Seq<char>,
}

impl View for ConfirmationEmail {
    type V = ConfirmationEmailView;

    open spec fn view(&self) -> ConfirmationEmailView {
        ConfirmationEmailView {
            recipient: self.recipient@,
            name: self.name@,
            link: self.link@,
            subject: self.subject@,
            text_body: self.text_body@,
        }
    }
}

/// The confirmation link for `token` under the base URL `base`:
/// `<base>/subscribe/confirm?subscription_token=<token>`, as `reqwest::Url`
/// joins the path to the base and sets the query. `None` where the base
/// takes no path.
pub open spec fn confirmation_link_text(base: Seq<char>, token: Seq<char>) -> Option<Seq<char>> {
    match url_joined(base, "subscribe/confirm"@) {
        Ok(page) => Some(url_with_query(page, Some("subscription_token="@ + token))),
        Err(_) => None,
    }
}

/// The plain body of the confirmation email with the link `link`.
pub open spec fn confirmation_text(link: Seq<char>) -> Seq<char> {
    "Welcome to our newsletter!\nVisit "@ + link + " to confirm your subscription."@
}

/// The confirmation email to `subscriber` with the link `link`.
pub open spec fn confirmation_email(
    subscriber: NewSubscriberView,
    link: Seq<char>,
) -> ConfirmationEmailView {
    ConfirmationEmailView {
        recipient: subscriber.email,
        name: subscriber.name,
        link,
        subject: "Welcome!"@,
        text_body: confirmation_text(link),
    }
}

/// The confirmation link for `token` under `base_url`.
pub fn confirmation_link(base_url: &Url, token: &SubscriptionToken) -> (r: Option<Url>)
    ensures
        r matches Some(link) ==> confirmation_link_text(base_url@, token@) == Some(link@),
        r is None ==> confirmation_link_text(base_url@, token@) is None,
{
    match base_url.join("subscribe/confirm") {
        Ok(mut link) => {
            let query = join_text("subscription_token=", token.as_str());
            link.set_query(Some(query.as_str()));
            Some(link)
        },
        Err(_) => None,
    }
}

/// The confirmation email to `subscriber` with the link `link`.
pub fn send_confirmation_email(subscriber: NewSubscriber, link: Url) -> (mail: ConfirmationEmail)
    ensures
        mail@ == confirmation_email(subscriber@, link@),
{
    let mut text_body = join_text("Welcome to our newsletter!\nVisit ", link.as_str());
    text_body.append(" to confirm your subscription.");
    ConfirmationEmail {
        recipient: subscriber.email,
        name: subscriber.name,
        link,
        subject: "Welcome!".to_owned(),
        text_body,
    }
}

/// `uuid::Uuid::new_v7` on `uuid::Timestamp::now`: a fresh identifier, ordered
/// by time, as a number.
/// Trusted: nothing is claimed of the number.
#[verifier::external_body]
pub(crate) fn new_subscriber_id() -> (id: u128)
{
    Uuid::new_v7(Timestamp::now(NoContext)).as_u128()
}

/// Where the handling of one submitted form stands.
#[derive(Debug)]
pub enum SubscribeState {
    /// Nothing has happened yet.
    Received,
    /// The form was accepted; a transaction is being opened.
    Opening(NewSubscriber),
    /// The store is looking for a subscriber with the address.
    Looking(NewSubscriber),
    /// A pending subscriber exists; the store is looking for their token. The
    /// name is the stored one.
    FetchingToken(NewSubscriber),
    /// The stored token is known; the transaction, which wrote nothing, is
    /// being rolled back.
    Closing(NewSubscriber, SubscriptionToken),
    /// The store is inserting the new subscriber under the given identifier.
    Inserting(NewSubscriber, u128),
    /// The store is inserting the fresh token.
    StoringToken(NewSubscriber, SubscriptionToken),
    /// The transaction is being committed.
    Committing(NewSubscriber, SubscriptionToken),
    /// The confirmation email is being sent.
    Sending,
    /// The request has been answered.
    Finished,
}

/// What the outside reports back after an action.
#[derive(Debug)]
pub enum SubscribeEvent {
    /// The form arrived.
    Form(SubscribeFormData),
    /// The lookup by address gave this row, or none.
    Subscriber(Option<SubscriberRecord>),
    /// The lookup by subscriber gave this token.
    Token(String),
    /// The action succeeded, and has nothing to report.
    Done,
    /// The action failed.
    Failed,
}

/// What the outside is asked to do next.
#[derive(Debug)]
pub enum SubscribeAction {
    /// Open a transaction.
    Begin,
    /// In the transaction, look for the subscriber with this address.
    FindSubscriber { email: String },
    /// In the transaction, look for the token of this subscriber.
    FindToken { subscriber_id: u128 },
    /// Roll the transaction back.
    Rollback,
    /// In the transaction, insert this row into `subscriptions`.
    InsertSubscriber(SubscriberRecord),
    /// In the transaction, insert this row into `subscription_tokens`.
    StoreToken { subscriber_id: u128, subscription_token: String },
    /// Commit the transaction.
    Commit,
    /// Send this email.
    SendConfirmation(ConfirmationEmail),
    /// Answer the request with this result; nothing follows.
    Finish(Result<(), SubscribeError>),
}

/// The step ended the request with an unexpected error of this message.
pub open spec fn subscribe_failed(
    post: SubscribeState,
    action: SubscribeAction,
    message: Seq<char>,
) -> bool {
    &&& post is Finished
    &&& action matches SubscribeAction::Finish(Err(SubscribeError::UnexpectedError(m)))
    &&& m@ == message
}

/// The step sends the confirmation email to `subscriber` with the link for
/// `token`, or fails where the base URL gives no link.
pub open spec fn subscribe_sends(
    subscriber: NewSubscriberView,
    token: Seq<char>,
    base: Seq<char>,
    post: SubscribeState,
    action: SubscribeAction,
) -> bool {
    match confirmation_link_text(base, token) {
        Some(link) => {
            &&& post is Sending
            &&& action matches SubscribeAction::SendConfirmation(mail)
            &&& mail@ == confirmation_email(subscriber, link)
        },
        None => subscribe_failed(post, action, "Failed to send a new confirmation email"@),
    }
}

/// What one step of subscribing does: from the state `pre` and the event
/// `event`, with the base URL `base`, to the state `post` and the action
/// `action`.
pub open spec fn subscribe_step_spec(
    pre: SubscribeState,
    event: SubscribeEvent,
    base: Seq<char>,
    post: SubscribeState,
    action: SubscribeAction,
) -> bool {
    match pre {
        SubscribeState::Received => match event {
            SubscribeEvent::Form(form) => if name_is_valid(trimmed(form.name@)) && email_is_valid(
                form.email@,
            ) {
                &&& post matches SubscribeState::Opening(s)
                &&& s@ == (NewSubscriberView { name: trimmed(form.name@), email: form.email@ })
                &&& action is Begin
            } else {
                &&& post is Finished
                &&& action matches SubscribeAction::Finish(
                    Err(SubscribeError::FormValidationError(e)),
                )
                &&& form_refused(form.name@, form.email@, e)
            },
            _ => subscribe_failed(post, action, "Unexpected event"@),
        },
        SubscribeState::Opening(s) => match event {
            SubscribeEvent::Done => {
                &&& post matches SubscribeState::Looking(s2)
                &&& s2@ == s@
                &&& action matches SubscribeAction::FindSubscriber { email }
                &&& email@ == s.email@
            },
            _ => subscribe_failed(
                post,
                action,
                "Failed to acquire Postgres connection from the pool"@,
            ),
        },
        SubscribeState::Looking(s) => match event {
            SubscribeEvent::Subscriber(None) => {
                &&& post matches SubscribeState::Inserting(s2, id)
                &&& s2@ == s@
                &&& action matches SubscribeAction::InsertSubscriber(row)
                &&& row@ == (crate::database::SubscriberRow {
                    id,
                    name: s.name@,
                    email: s.email@,
                    status: status_text(SubscriptionStatus::PendingConfirmation),
                })
            },
            SubscribeEvent::Subscriber(Some(row)) => if !record_readable(row@) {
                subscribe_failed(
                    post,
                    action,
                    "Failed to get existing subscriber from the database"@,
                )
            } else if status_of_text(row.status@) == Some(SubscriptionStatus::Confirmed) {
                &&& post is Finished
                &&& action matches SubscribeAction::Finish(Err(SubscribeError::AlreadyConfirmed))
            } else {
                &&& post matches SubscribeState::FetchingToken(s2)
                &&& s2@ == (NewSubscriberView { name: trimmed(row.name@), email: s.email@ })
                &&& action matches SubscribeAction::FindToken { subscriber_id }
                &&& subscriber_id == row.id
            },
            _ => subscribe_failed(
                post,
                action,
                "Failed to get existing subscriber from the database"@,
            ),
        },
        SubscribeState::FetchingToken(s) => match event {
            SubscribeEvent::Token(text) => if token_is_valid(text@) {
                &&& post matches SubscribeState::Closing(s2, token)
                &&& s2@ == s@
                &&& token@ == text@
                &&& action is Rollback
            } else {
                subscribe_failed(
                    post,
                    action,
                    "Failed to get existing subscription token from the database"@,
                )
            },
            _ => subscribe_failed(
                post,
                action,
                "Failed to get existing subscription token from the database"@,
            ),
        },
        SubscribeState::Closing(s, token) => match event {
            SubscribeEvent::Done => subscribe_sends(s@, token@, base, post, action),
            _ => subscribe_failed(
                post,
                action,
                "Failed to rollback SQL transaction after getting existing token"@,
            ),
        },
        SubscribeState::Inserting(s, id) => match event {
            SubscribeEvent::Done => {
                &&& post matches SubscribeState::StoringToken(s2, token)
                &&& s2@ == s@
                &&& token_is_valid(token@)
                &&& action matches SubscribeAction::StoreToken { subscriber_id, subscription_token }
                &&& subscriber_id == id
                &&& subscription_token@ == token@
            },
            _ => subscribe_failed(
                post,
                action,
                "Failed to insert new subscriber into the database"@,
            ),
        },
        SubscribeState::StoringToken(s, token) => match event {
            SubscribeEvent::Done => {
                &&& post matches SubscribeState::Committing(s2, token2)
                &&& s2@ == s@
                &&& token2@ == token@
                &&& action is Commit
            },
            _ => subscribe_failed(
                post,
                action,
                "Failed to store the confirmation token for a new subscriber"@,
            ),
        },
        SubscribeState::Committing(s, token) => match event {
            SubscribeEvent::Done => subscribe_sends(s@, token@, base, post, action),
            _ => subscribe_failed(
                post,
                action,
                "Failed to commit SQL transaction to store a new subscriber"@,
            ),
        },
        SubscribeState::Sending => match event {
            SubscribeEvent::Done => {
                &&& post is Finished
                &&& action matches SubscribeAction::Finish(Ok(()))
            },
            _ => subscribe_failed(post, action, "Failed to send a new confirmation email"@),
        },
        SubscribeState::Finished => subscribe_failed(post, action, "Unexpected event"@),
    }
}

/// Ends the request with an unexpected error of the given message.
fn fail(message: &str) -> (r: (SubscribeState, SubscribeAction))
    ensures
        subscribe_failed(r.0, r.1, message@),
{
    (
        SubscribeState::Finished,
        SubscribeAction::Finish(Err(SubscribeError::UnexpectedError(message.to_owned()))),
    )
}

/// Sends the confirmation email, or fails where the base URL gives no link.
fn send(subscriber: NewSubscriber, token: SubscriptionToken, base_url: &Url) -> (r: (
    SubscribeState,
    SubscribeAction,
))
    ensures
        subscribe_sends(subscriber@, token@, base_url@, r.0, r.1),
{
    match confirmation_link(base_url, &token) {
        Some(link) => (
            SubscribeState::Sending,
            SubscribeAction::SendConfirmation(send_confirmation_email(subscriber, link)),
        ),
        None => fail("Failed to send a new confirmation email"),
    }
}

/// One step of subscribing. The caller starts in `Received` with the event
/// `Form`, does what each action asks, reports its outcome as the next event,
/// and stops at `Finish`.
///
/// A refused form ends the request at once. Otherwise a transaction is
/// opened and the store is asked for a subscriber with the address. Where
/// there is none, the subscriber is inserted as pending under a fresh
/// identifier, a fresh token is stored, the transaction is committed, and the
/// confirmation email is sent. Where there is a pending one, their token is
/// fetched, the transaction is rolled back, and the confirmation email is
/// sent again with that token and the stored name. Where there is a confirmed
/// one, the request ends with `AlreadyConfirmed`. Any failure of the outside
/// ends the request with an `UnexpectedError` that names the step.
pub fn subscribe(state: SubscribeState, event: SubscribeEvent, base_url: &Url) -> (r: (
    SubscribeState,
    SubscribeAction,
))
    ensures
        subscribe_step_spec(state, event, base_url@, r.0, r.1),
{
    match state {
        SubscribeState::Received => match event {
            SubscribeEvent::Form(form) => match NewSubscriber::try_from(form) {
                Ok(subscriber) => (SubscribeState::Opening(subscriber), SubscribeAction::Begin),
                Err(e) => (
                    SubscribeState::Finished,
                    SubscribeAction::Finish(Err(SubscribeError::FormValidationError(e))),
                ),
            },
            _ => fail("Unexpected event"),
        },
        SubscribeState::Opening(subscriber) => match event {
            SubscribeEvent::Done => {
                let email = subscriber.email.to_string();
                (SubscribeState::Looking(subscriber), SubscribeAction::FindSubscriber { email })
            },
            _ => fail("Failed to acquire Postgres connection from the pool"),
        },
        SubscribeState::Looking(subscriber) => match event {
            SubscribeEvent::Subscriber(None) => {
                let id = new_subscriber_id();
                let row = SubscriberRecord {
                    id,
                    name: subscriber.name.as_str().to_owned(),
                    email: subscriber.email.to_string(),
                    status: SubscriptionStatus::PendingConfirmation.to_string(),
                };
                (SubscribeState::Inserting(subscriber, id), SubscribeAction::InsertSubscriber(row))
            },
            SubscribeEvent::Subscriber(Some(row)) => match ExistingSubscriber::try_from(row) {
                None => fail("Failed to get existing subscriber from the database"),
                Some(existing) => {
                    if existing.status == SubscriptionStatus::Confirmed {
                        (
                            SubscribeState::Finished,
                            SubscribeAction::Finish(Err(SubscribeError::AlreadyConfirmed)),
                        )
                    } else {
                        // the stored name stands; the submitted one is dropped
                        let known = NewSubscriber { name: existing.name, email: subscriber.email };
                        (
                            SubscribeState::FetchingToken(known),
                            SubscribeAction::FindToken { subscriber_id: existing.id },
                        )
                    }
                },
            },
            _ => fail("Failed to get existing subscriber from the database"),
        },
        SubscribeState::FetchingToken(subscriber) => match event {
            SubscribeEvent::Token(text) => match SubscriptionToken::parse(text.as_str()) {
                Ok(token) => (SubscribeState::Closing(subscriber, token), SubscribeAction::Rollback),
                Err(_) => fail("Failed to get existing subscription token from the database"),
            },
            _ => fail("Failed to get existing subscription token from the database"),
        },
        SubscribeState::Closing(subscriber, token) => match event {
            SubscribeEvent::Done => send(subscriber, token, base_url),
            _ => fail("Failed to rollback SQL transaction after getting existing token"),
        },
        SubscribeState::Inserting(subscriber, id) => match event {
            SubscribeEvent::Done => {
                let token = SubscriptionToken::generate();
                let subscription_token = token.as_str().to_owned();
                (
                    SubscribeState::StoringToken(subscriber, token),
                    SubscribeAction::StoreToken { subscriber_id: id, subscription_token },
                )
            },
            _ => fail("Failed to insert new subscriber into the database"),
        },
        SubscribeState::StoringToken(subscriber, token) => match event {
            SubscribeEvent::Done => (
                SubscribeState::Committing(subscriber, token),
                SubscribeAction::Commit,
            ),
            _ => fail("Failed to store the confirmation token for a new subscriber"),
        },
        SubscribeState::Committing(subscriber, token) => match event {
            SubscribeEvent::Done => send(subscriber, token, base_url),
            _ => fail("Failed to commit SQL transaction to store a new subscriber"),
        },
        SubscribeState::Sending => match event {
            SubscribeEvent::Done => (SubscribeState::Finished, SubscribeAction::Finish(Ok(()))),
            _ => fail("Failed to send a new confirmation email"),
        },
        SubscribeState::Finished => fail("Unexpected event"),
    }
}

/// What the form handler answers: always a redirect to `/`, with a message of
/// success, or of failure: "Invalid form data" for a refused form, else the
/// message of the error.
pub open spec fn subscribe_flash(result: Result<(), SubscribeError>) -> crate::http::FlashView {
    match result {
        Ok(_) => crate::http::FlashView {
            level: crate::http::Level::Success,
            message: "Thanks for subscribing!"@,
        },
        Err(SubscribeError::FormValidationError(_)) => crate::http::FlashView {
            level: crate::http::Level::Error,
            message: "Invalid form data"@,
        },
        Err(e) => crate::http::FlashView { level: crate::http::Level::Error, message: e.message() },
    }
}

/// The answer of the form handler to the result of subscribing: the message
/// for the next page, and a redirect to `/`.
pub fn subscribe_with_flash(result: Result<(), SubscribeError>) -> (r: (Flash, Response))
    ensures
        r.0@ == subscribe_flash(result),
        r.1@ == crate::http::redirect_view("/"@),
{
    let flash = match &result {
        Ok(_) => Flash::success("Thanks for subscribing!"),
        Err(SubscribeError::FormValidationError(_)) => Flash::error("Invalid form data"),
        Err(e) => {
            let message = e.to_string();
            Flash::error(message.as_str())
        },
    };
    (flash, Response::redirect("/"))
}

/// The confirmation email is sent only once the transaction is over: after
/// the commit that stored the new subscriber and the token, or after the
/// rollback of the transaction that only read. And nothing is written to the
/// store once a subscriber with the address was found.
pub proof fn law_email_follows_the_transaction(
    pre: SubscribeState,
    event: SubscribeEvent,
    base: Seq<char>,
    post: SubscribeState,
    action: SubscribeAction,
)
    requires
        subscribe_step_spec(pre, event, base, post, action),
    ensures
        action is SendConfirmation ==> (pre is Committing || pre is Closing) && event is Done,
        action is InsertSubscriber ==> pre is Looking && event matches SubscribeEvent::Subscriber(
            None,
        ),
        action is StoreToken ==> pre is Inserting && event is Done,
        action is Commit ==> pre is StoringToken && event is Done,
        action matches SubscribeAction::Finish(Ok(_)) ==> pre is Sending && event is Done,
{
}

/// The most steps that a request in the state `state` still takes.
pub open spec fn subscribe_steps_left(state: SubscribeState) -> nat {
    match state {
        SubscribeState::Received => 7,
        SubscribeState::Opening(_) => 6,
        SubscribeState::Looking(_) => 5,
        SubscribeState::FetchingToken(_) => 3,
        SubscribeState::Closing(_, _) => 2,
        SubscribeState::Inserting(_, _) => 4,
        SubscribeState::StoringToken(_, _) => 3,
        SubscribeState::Committing(_, _) => 2,
        SubscribeState::Sending => 1,
        SubscribeState::Finished => 0,
    }
}

/// Every request is answered: each step either ends the request or leaves
/// fewer steps to take, whatever the outside reports. A request takes at
/// most seven steps.
pub proof fn law_subscribe_ends(
    pre: SubscribeState,
    event: SubscribeEvent,
    base: Seq<char>,
    post: SubscribeState,
    action: SubscribeAction,
)
    requires
        subscribe_step_spec(pre, event, base, post, action),
    ensures
        action is Finish <==> post is Finished,
        !(action is Finish) ==> subscribe_steps_left(post) < subscribe_steps_left(pre),
{
}

} // verus!
