//! Publishing an issue through the API: a request carries `Basic`
//! credentials and the issue, and the issue is sent at once to every
//! confirmed subscriber.

use crate::authentication::basic::{basic_credentials, challenge};
use crate::authentication::credentials::{verdict, Verdict};
use crate::authentication::{
    add_basic_auth_header, retrieve_basic_auth, validate_credentials, AuthError,
    AuthorizationHeader, Credentials, StoredCredentials,
};
use crate::domain::email::email_is_valid;
use crate::domain::subscription::status_text;
use crate::domain::{Email, ParseEmailError, SubscriptionStatus};
use crate::email_client::{
    delivery_result, outbound_email, reply_result, EmailClient, EmailClientView, OutboundEmail,
    ProviderReply,
};
use crate::http::{headers_view, HeaderPair, INTERNAL_SERVER_ERROR, UNAUTHORIZED};
use crate::routes::handler_response::HandlerResponse;
use crate::text::join_text;
use vstd::prelude::*;

verus! {

/// A subscriber who is confirmed, and whose stored address is an email
/// address.
#[derive(Debug)]
pub struct ConfirmedSubscriber {
    pub email: Email,
}

/// The issue that a request carries.
#[derive(Debug)]
pub struct BodyData {
    pub title: String,
    pub content: Content,
}

/// The two bodies of an issue.
#[derive(Debug)]
pub struct Content {
    pub html: String,
    pub text: String,
}

/// How publishing through the API fails.
#[derive(Debug)]
pub enum PublishError {
    /// The request carries no credentials of an editor; the text says what is
    /// wrong with them, for the log.
    AuthenticationError(String),
    /// Something else failed; the text says what.
    UnexpectedError(String),
}

impl PublishError {
    /// The message of the error.
    pub open spec fn message(&self) -> Seq<char> {
        match self {
            PublishError::AuthenticationError(_) => "Authentication failed"@,
            PublishError::UnexpectedError(m) => m@,
        }
    }

    /// The message of the error, as text.
    pub fn to_string(&self) -> (s: String)
        ensures
            s@ == self.message(),
    {
        match self {
            PublishError::AuthenticationError(_) => "Authentication failed".to_owned(),
            PublishError::UnexpectedError(m) => m.clone(),
        }
    }

    /// The answer to the client, and the headers that go with it: 401 with a
    /// header that asks for `Basic` credentials, or 500 without a header.
    pub fn into_response(self) -> (r: (HandlerResponse, Vec<HeaderPair>))
        ensures
            match self {
                PublishError::AuthenticationError(_) => r.0.status_code == UNAUTHORIZED
                    && r.0.message@ == "Authentication failed"@ && headers_view(r.1@) == seq![
                    challenge(),
                ],
                PublishError::UnexpectedError(_) => r.0.status_code == INTERNAL_SERVER_ERROR
                    && r.0.message@ == "Something went wrong with publishing newsletter"@
                    && r.1@.len() == 0,
            },
    {
        match self {
            PublishError::AuthenticationError(_) => {
                let mut headers: Vec<HeaderPair> = Vec::new();
                assert(headers_view(headers@) =~= Seq::empty());
                add_basic_auth_header(&mut headers);
                assert(headers_view(headers@) =~= seq![challenge()]);
                (
                    HandlerResponse {
                        status_code: UNAUTHORIZED,
                        message: "Authentication failed".to_owned(),
                    },
                    headers,
                )
            },
            PublishError::UnexpectedError(_) => (
                HandlerResponse {
                    status_code: INTERNAL_SERVER_ERROR,
                    message: "Something went wrong with publishing newsletter".to_owned(),
                },
                Vec::new(),
            ),
        }
    }
}

/// Reads the stored addresses of the confirmed subscribers: each one as a
/// subscriber where it is an email address, else as the error of the parser,
/// in the order of `rows`.
pub fn get_confirmed_subscribers(rows: &Vec<String>) -> (r: Vec<
    Result<ConfirmedSubscriber, ParseEmailError>,
>)
    ensures
        r@.len() == rows@.len(),
        forall|i: int|
            0 <= i < rows@.len() ==> ((#[trigger] r@[i]) is Ok <==> email_is_valid(rows@[i]@)),
        forall|i: int|
            0 <= i < rows@.len() ==> ((#[trigger] r@[i]) matches Ok(s) ==> s.email@ == rows@[i]@),
        forall|i: int|
            0 <= i < rows@.len() ==> ((#[trigger] r@[i]) matches Err(e) ==> e@ == rows@[i]@
                + crate::domain::email::email_error_suffix()),
{
    let mut r: Vec<Result<ConfirmedSubscriber, ParseEmailError>> = Vec::new();
    let mut i: usize = 0;
    while i < rows.len()
        invariant
            i <= rows.len(),
            r@.len() == i,
            forall|j: int| 0 <= j < i ==> ((#[trigger] r@[j]) is Ok <==> email_is_valid(rows@[j]@)),
            forall|j: int| 0 <= j < i ==> ((#[trigger] r@[j]) matches Ok(s) ==> s.email@ == rows@[j]@),
            forall|j: int|
                0 <= j < i ==> ((#[trigger] r@[j]) matches Err(e) ==> e@ == rows@[j]@
                    + crate::domain::email::email_error_suffix()),
        decreases rows.len() - i,
    {
        let parsed = match Email::parse(rows[i].as_str()) {
            Ok(email) => Ok(ConfirmedSubscriber { email }),
            Err(e) => Err(e),
        };
        r.push(parsed);
        i += 1;
    }
    r
}

/// Index of the first address of `emails` at or after `from` that is an
/// email address; the length of `emails` where there is none.
pub open spec fn next_valid(emails: Seq<String>, from: int) -> int
    decreases emails.len() - from,
{
    if from < 0 || from >= emails.len() {
        emails.len() as int
    } else if email_is_valid(emails[from]@) {
        from
    } else {
        next_valid(emails, from + 1)
    }
}

/// Where the handling of one request to publish stands.
pub enum ApiPublishState {
    /// Nothing has happened yet.
    Received,
    /// The stored credentials of the user are being fetched.
    FetchingCredentials(Credentials, BodyData),
    /// The addresses of the confirmed subscribers are being fetched.
    FetchingSubscribers(BodyData),
    /// The issue is being sent to the address at the given index.
    Sending(BodyData, Vec<String>, usize),
    /// The request has been answered.
    Finished,
}

/// What the outside reports back after an action.
pub enum ApiPublishEvent {
    /// The request arrived.
    Request { authorization: AuthorizationHeader, body: BodyData },
    /// What is stored under the user name, or why the lookup failed.
    Stored(Result<Option<StoredCredentials>, String>),
    /// The stored addresses of the confirmed subscribers.
    Subscribers(Vec<String>),
    /// What the provider replied.
    Reply(ProviderReply),
    /// The action failed.
    Failed,
}

/// What the outside is asked to do next.
pub enum ApiPublishAction {
    /// Fetch what is stored under this user name.
    FindCredentials { username: String },
    /// Fetch the addresses of the subscribers whose stored status is
    /// `status`.
    FindConfirmed { status: String },
    /// Post this request to the provider, once.
    Send(OutboundEmail),
    /// Answer the request with this result; nothing follows.
    Finish(Result<(), PublishError>),
}

/// The step ended the request with an unexpected error of this cause.
pub open spec fn api_publish_failed(
    post: ApiPublishState,
    action: ApiPublishAction,
    cause: Seq<char>,
) -> bool {
    &&& post is Finished
    &&& action matches ApiPublishAction::Finish(Err(PublishError::UnexpectedError(m)))
    &&& m@ == cause
}

/// The step ended the request because its credentials were refused.
pub open spec fn api_publish_refused(post: ApiPublishState, action: ApiPublishAction) -> bool {
    &&& post is Finished
    &&& action matches ApiPublishAction::Finish(Err(PublishError::AuthenticationError(_)))
}

/// The step sends the issue to the first email address at or after `from`,
/// or ends the request where there is none left.
pub open spec fn api_publish_continues(
    body: BodyData,
    emails: Vec<String>,
    from: int,
    client: EmailClientView,
    post: ApiPublishState,
    action: ApiPublishAction,
) -> bool {
    let next = next_valid(emails@, from);
    if next >= emails@.len() {
        &&& post is Finished
        &&& action matches ApiPublishAction::Finish(Ok(()))
    } else {
        match outbound_email(client, emails@[next]@, body.title@, body.content.html@, body.content.text@) {
            Ok(mail) => {
                &&& post matches ApiPublishState::Sending(b, e, at)
                &&& b == body
                &&& e == emails
                &&& at == next
                &&& action matches ApiPublishAction::Send(m)
                &&& m@ == mail
            },
            Err(_) => api_publish_failed(
                post,
                action,
                "Failed to send newsletter issue to "@ + emails@[next]@,
            ),
        }
    }
}

/// What one step of publishing through the API does.
pub open spec fn api_publish_step_spec(
    pre: ApiPublishState,
    event: ApiPublishEvent,
    client: EmailClientView,
    post: ApiPublishState,
    action: ApiPublishAction,
) -> bool {
    match pre {
        ApiPublishState::Received => match event {
            ApiPublishEvent::Request { authorization, body } => match basic_credentials(
                authorization,
            ) {
                Err(_) => api_publish_refused(post, action),
                Ok(pair) => {
                    &&& post matches ApiPublishState::FetchingCredentials(c, b)
                    &&& c.username@ == pair.0
                    &&& c.password@ == pair.1
                    &&& b == body
                    &&& action matches ApiPublishAction::FindCredentials { username }
                    &&& username@ == pair.0
                },
            },
            _ => api_publish_failed(post, action, "Unexpected event"@),
        },
        ApiPublishState::FetchingCredentials(c, body) => match event {
            ApiPublishEvent::Stored(stored) => match verdict(c.password@, stored) {
                Verdict::User(_) => {
                    &&& post == ApiPublishState::FetchingSubscribers(body)
                    &&& action matches ApiPublishAction::FindConfirmed { status }
                    &&& status@ == status_text(SubscriptionStatus::Confirmed)
                },
                Verdict::Invalid(_) => api_publish_refused(post, action),
                Verdict::Unexpected(reason) => api_publish_failed(post, action, reason),
            },
            _ => api_publish_failed(post, action, "Failed to fetch the stored credentials"@),
        },
        ApiPublishState::FetchingSubscribers(body) => match event {
            ApiPublishEvent::Subscribers(emails) => api_publish_continues(
                body,
                emails,
                0,
                client,
                post,
                action,
            ),
            _ => api_publish_failed(
                post,
                action,
                "Failed to get confirmed subscribers from the database"@,
            ),
        },
        ApiPublishState::Sending(body, emails, at) => if at >= emails@.len() {
            api_publish_failed(post, action, "Unexpected event"@)
        } else {
            match event {
                ApiPublishEvent::Reply(reply) if reply_result(reply) is Ok => api_publish_continues(
                    body,
                    emails,
                    at + 1,
                    client,
                    post,
                    action,
                ),
                _ => api_publish_failed(
                    post,
                    action,
                    "Failed to send newsletter issue to "@ + emails@[at as int]@,
                ),
            }
        },
        ApiPublishState::Finished => api_publish_failed(post, action, "Unexpected event"@),
    }
}

/// Ends the request with an unexpected error of the given cause.
fn fail(cause: String) -> (r: (ApiPublishState, ApiPublishAction))
    ensures
        api_publish_failed(r.0, r.1, cause@),
{
    (
        ApiPublishState::Finished,
        ApiPublishAction::Finish(Err(PublishError::UnexpectedError(cause))),
    )
}

/// Sends the issue to the first email address at or after `from`, or ends the
/// request where there is none left. An address that is no email address is
/// passed over.
fn continue_with(body: BodyData, emails: Vec<String>, from: usize, email_client: &EmailClient) -> (r:
    (ApiPublishState, ApiPublishAction))
    requires
        from <= emails@.len(),
    ensures
        api_publish_continues(body, emails, from as int, email_client@, r.0, r.1),
{
    let mut i: usize = from;
    while i < emails.len()
        invariant
            from <= i <= emails@.len(),
            next_valid(emails@, from as int) == next_valid(emails@, i as int),
        decreases emails.len() - i,
    {
        match Email::parse(emails[i].as_str()) {
            Ok(email) => {
                return match email_client.send_email(
                    &email,
                    body.title.as_str(),
                    body.content.html.as_str(),
                    body.content.text.as_str(),
                ) {
                    Ok(mail) => (
                        ApiPublishState::Sending(body, emails, i),
                        ApiPublishAction::Send(mail),
                    ),
                    Err(_) => fail(
                        join_text("Failed to send newsletter issue to ", emails[i].as_str()),
                    ),
                };
            },
            Err(_) => {},
        }
        i += 1;
    }
    (ApiPublishState::Finished, ApiPublishAction::Finish(Ok(())))
}

/// One step of publishing through the API. The caller starts in `Received`
/// with the event `Request`, does what each action asks, reports its outcome
/// as the next event, and stops at `Finish`.
///
/// The credentials are read from the `Authorization` header and checked.
/// Then the issue is sent to the confirmed subscribers one after the other,
/// in the order in which the store gave them; a stored address that is no
/// email address is passed over; the first email that the provider does not
/// accept ends the request with an error, and the subscribers after it get
/// nothing.
pub fn publish_newsletter(
    state: ApiPublishState,
    event: ApiPublishEvent,
    email_client: &EmailClient,
) -> (r: (ApiPublishState, ApiPublishAction))
    ensures
        api_publish_step_spec(state, event, email_client@, r.0, r.1),
{
    match state {
        ApiPublishState::Received => match event {
            ApiPublishEvent::Request { authorization, body } => match retrieve_basic_auth(
                authorization,
            ) {
                Err(e) => (
                    ApiPublishState::Finished,
                    ApiPublishAction::Finish(Err(PublishError::AuthenticationError(e.to_string()))),
                ),
                Ok(credentials) => {
                    let username = credentials.username.clone();
                    (
                        ApiPublishState::FetchingCredentials(credentials, body),
                        ApiPublishAction::FindCredentials { username },
                    )
                },
            },
            _ => fail("Unexpected event".to_owned()),
        },
        ApiPublishState::FetchingCredentials(credentials, body) => match event {
            ApiPublishEvent::Stored(stored) => match validate_credentials(credentials, stored) {
                Ok(_) => (
                    ApiPublishState::FetchingSubscribers(body),
                    ApiPublishAction::FindConfirmed {
                        status: SubscriptionStatus::Confirmed.to_string(),
                    },
                ),
                Err(AuthError::InvalidCredentials(reason)) => (
                    ApiPublishState::Finished,
                    ApiPublishAction::Finish(Err(PublishError::AuthenticationError(reason))),
                ),
                Err(AuthError::UnexpectedError(reason)) => fail(reason),
            },
            _ => fail("Failed to fetch the stored credentials".to_owned()),
        },
        ApiPublishState::FetchingSubscribers(body) => match event {
            ApiPublishEvent::Subscribers(emails) => continue_with(body, emails, 0, email_client),
            _ => fail("Failed to get confirmed subscribers from the database".to_owned()),
        },
        ApiPublishState::Sending(body, emails, at) => {
            if at >= emails.len() {
                return fail("Unexpected event".to_owned());
            }
            let accepted = match event {
                ApiPublishEvent::Reply(reply) => delivery_result(reply).is_ok(),
                _ => false,
            };
            if accepted {
                continue_with(body, emails, at + 1, email_client)
            } else {
                fail(join_text("Failed to send newsletter issue to ", emails[at].as_str()))
            }
        },
        ApiPublishState::Finished => fail("Unexpected event".to_owned()),
    }
}

/// The most steps that a request in the state `state` still takes: one for
/// each address that is still to be served, and those before the first.
pub open spec fn api_publish_steps_left(state: ApiPublishState) -> nat {
    match state {
        ApiPublishState::Received => 4,
        ApiPublishState::FetchingCredentials(_, _) => 3,
        ApiPublishState::FetchingSubscribers(_) => 2,
        ApiPublishState::Sending(_, emails, at) => if at < emails@.len() {
            (emails@.len() - at) as nat
        } else {
            1
        },
        ApiPublishState::Finished => 0,
    }
}

/// `next_valid` stays within `from ..= len`.
pub proof fn lemma_next_valid(emails: Seq<String>, from: int)
    requires
        0 <= from <= emails.len(),
    ensures
        from <= next_valid(emails, from) <= emails.len(),
    decreases emails.len() - from,
{
    if from < emails.len() && !email_is_valid(emails[from]@) {
        lemma_next_valid(emails, from + 1);
    }
}

/// Every request is answered once the subscribers are known: each step that
/// sends an email leaves fewer addresses to serve.
pub proof fn law_api_publish_ends(
    pre: ApiPublishState,
    event: ApiPublishEvent,
    client: EmailClientView,
    post: ApiPublishState,
    action: ApiPublishAction,
)
    requires
        api_publish_step_spec(pre, event, client, post, action),
        pre is Sending,
    ensures
        action is Finish <==> post is Finished,
        !(action is Finish) ==> api_publish_steps_left(post) < api_publish_steps_left(pre),
{
    if let ApiPublishState::Sending(_, emails, at) = pre {
        if at < emails@.len() {
            lemma_next_valid(emails@, at + 1);
        }
    }
}

} // verus!
