//! Logging in: the form, and the steps from a submitted form to the session.

use crate::authentication::credentials::{verdict, Verdict};
use crate::authentication::{validate_credentials, AuthError, Credentials, StoredCredentials};
use crate::http::{redirect_view, Flash, FlashView, Level, Response};
use vstd::prelude::*;

verus! {

/// The form with which an editor logs in.
pub struct LoginFormData {
    pub username: String,
    pub password: String,
}

impl Credentials {
    /// The credentials that a form carries.
    pub fn from(val: LoginFormData) -> (r: Credentials)
        ensures
            r.username@ == val.username@,
            r.password@ == val.password@,
    {
        Credentials { username: val.username, password: val.password }
    }
}

/// How logging in fails.
#[derive(Debug)]
pub enum LoginError {
    /// The credentials were refused; the text says why, for the log.
    AuthError(String),
    /// Something else failed; the text says what, for the log.
    UnexpectedError(String),
}

impl LoginError {
    /// The message of the error: what the editor is told.
    pub open spec fn message(&self) -> Seq<char> {
        match self {
            LoginError::AuthError(_) => "Authentication failed"@,
            LoginError::UnexpectedError(_) => "Something went wrong"@,
        }
    }

    /// The message of the error, as text.
    pub fn to_string(&self) -> (s: String)
        ensures
            s@ == self.message(),
    {
        match self {
            LoginError::AuthError(_) => "Authentication failed".to_owned(),
            LoginError::UnexpectedError(_) => "Something went wrong".to_owned(),
        }
    }
}

/// Where the handling of one login stands.
pub enum LoginState {
    /// Nothing has happened yet.
    Received,
    /// The stored credentials of the user are being fetched.
    FetchingCredentials(Credentials),
    /// The user is being written into the session.
    StartingSession,
    /// The request has been answered.
    Finished,
}

/// What the outside reports back after an action.
pub enum LoginEvent {
    /// The form arrived.
    Form(LoginFormData),
    /// What is stored under the user name, or why the lookup failed.
    Stored(Result<Option<StoredCredentials>, String>),
    /// The action succeeded, and has nothing to report.
    Done,
    /// The action failed.
    Failed,
}

/// What the outside is asked to do next.
#[derive(Debug)]
pub enum LoginAction {
    /// Fetch what is stored under this user name.
    FindCredentials { username: String },
    /// Write this user into the session.
    InsertUserId { user_id: u128 },
    /// Answer the request with this result; nothing follows.
    Finish(Result<(), LoginError>),
}

/// The step ended the request with an unexpected error of this cause.
pub open spec fn login_failed(post: LoginState, action: LoginAction, cause: Seq<char>) -> bool {
    &&& post is Finished
    &&& action matches LoginAction::Finish(Err(LoginError::UnexpectedError(m)))
    &&& m@ == cause
}

/// What one step of logging in does: from the state `pre` and the event
/// `event` to the state `post` and the action `action`.
pub open spec fn login_step_spec(
    pre: LoginState,
    event: LoginEvent,
    post: LoginState,
    action: LoginAction,
) -> bool {
    match pre {
        LoginState::Received => match event {
            LoginEvent::Form(form) => {
                &&& post matches LoginState::FetchingCredentials(c)
                &&& c.username@ == form.username@
                &&& c.password@ == form.password@
                &&& action matches LoginAction::FindCredentials { username }
                &&& username@ == form.username@
            },
            _ => login_failed(post, action, "Unexpected event"@),
        },
        LoginState::FetchingCredentials(c) => match event {
            LoginEvent::Stored(stored) => match verdict(c.password@, stored) {
                Verdict::User(id) => {
                    &&& post is StartingSession
                    &&& action == (LoginAction::InsertUserId { user_id: id })
                },
                Verdict::Invalid(reason) => {
                    &&& post is Finished
                    &&& action matches LoginAction::Finish(Err(LoginError::AuthError(m)))
                    &&& m@ == reason
                },
                Verdict::Unexpected(reason) => login_failed(post, action, reason),
            },
            _ => login_failed(post, action, "Failed to fetch the stored credentials"@),
        },
        LoginState::StartingSession => match event {
            LoginEvent::Done => {
                &&& post is Finished
                &&& action matches LoginAction::Finish(Ok(()))
            },
            _ => login_failed(post, action, "Failed to write the session"@),
        },
        LoginState::Finished => login_failed(post, action, "Unexpected event"@),
    }
}

/// Ends the request with an unexpected error of the given cause.
fn fail(cause: &str) -> (r: (LoginState, LoginAction))
    ensures
        login_failed(r.0, r.1, cause@),
{
    (
        LoginState::Finished,
        LoginAction::Finish(Err(LoginError::UnexpectedError(cause.to_owned()))),
    )
}

/// One step of logging in. The caller starts in `Received` with the event
/// `Form`, does what each action asks, reports its outcome as the next event,
/// and stops at `Finish`.
///
/// The stored credentials of the user are fetched and the password is
/// checked. Refused credentials end the request with `AuthError`. Otherwise
/// the user is written into the session.
pub fn login(state: LoginState, event: LoginEvent) -> (r: (LoginState, LoginAction))
    ensures
        login_step_spec(state, event, r.0, r.1),
{
    match state {
        LoginState::Received => match event {
            LoginEvent::Form(form) => {
                let credentials = Credentials::from(form);
                let username = credentials.username.clone();
                (
                    LoginState::FetchingCredentials(credentials),
                    LoginAction::FindCredentials { username },
                )
            },
            _ => fail("Unexpected event"),
        },
        LoginState::FetchingCredentials(credentials) => match event {
            LoginEvent::Stored(stored) => match validate_credentials(credentials, stored) {
                Ok(user_id) => (LoginState::StartingSession, LoginAction::InsertUserId { user_id }),
                Err(AuthError::InvalidCredentials(reason)) => (
                    LoginState::Finished,
                    LoginAction::Finish(Err(LoginError::AuthError(reason))),
                ),
                Err(AuthError::UnexpectedError(reason)) => (
                    LoginState::Finished,
                    LoginAction::Finish(Err(LoginError::UnexpectedError(reason))),
                ),
            },
            _ => fail("Failed to fetch the stored credentials"),
        },
        LoginState::StartingSession => match event {
            LoginEvent::Done => (LoginState::Finished, LoginAction::Finish(Ok(()))),
            _ => fail("Failed to write the session"),
        },
        LoginState::Finished => fail("Unexpected event"),
    }
}

/// The answer to a login: to the dashboard without a message where it
/// succeeded; back to the form with the message of the error where it
/// failed.
pub fn login_with_flash(result: Result<(), LoginError>) -> (r: (Option<Flash>, Response))
    ensures
        match result {
            Ok(_) => r.0 is None && r.1@ == redirect_view("/admin/dashboard"@),
            Err(e) => (r.0 matches Some(flash) && flash@ == (FlashView {
                level: Level::Error,
                message: e.message(),
            })) && r.1@ == redirect_view("/login"@),
        },
{
    match result {
        Ok(_) => (None, Response::redirect("/admin/dashboard")),
        Err(e) => {
            let message = e.to_string();
            (Some(Flash::error(message.as_str())), Response::redirect("/login"))
        },
    }
}

/// What the login page shows.
#[derive(Debug)]
pub enum LoginPage {
    /// The editor is logged in already: to the dashboard.
    Redirect(Response),
    /// The form, with the messages of the last request.
    Form { success_msg: Option<String>, error_msg: Option<String> },
}

/// The login page for a session that names `user_id`, if any, with the
/// messages that the last request left.
pub fn login_form(
    user_id: Option<u128>,
    success_msg: Option<String>,
    error_msg: Option<String>,
) -> (r: LoginPage)
    ensures
        match user_id {
            Some(_) => r matches LoginPage::Redirect(response) && response@ == redirect_view(
                "/admin/dashboard"@,
            ),
            None => r == (LoginPage::Form { success_msg, error_msg }),
        },
{
    match user_id {
        Some(_) => LoginPage::Redirect(Response::redirect("/admin/dashboard")),
        None => LoginPage::Form { success_msg, error_msg },
    }
}

/// The most steps that a login in the state `state` still takes.
pub open spec fn login_steps_left(state: LoginState) -> nat {
    match state {
        LoginState::Received => 3,
        LoginState::FetchingCredentials(_) => 2,
        LoginState::StartingSession => 1,
        LoginState::Finished => 0,
    }
}

/// Every login is answered: each step either ends the request or leaves
/// fewer steps to take, whatever the outside reports.
pub proof fn law_login_ends(pre: LoginState, event: LoginEvent, post: LoginState, action: LoginAction)
    requires
        login_step_spec(pre, event, post, action),
    ensures
        action is Finish <==> post is Finished,
        !(action is Finish) ==> login_steps_left(post) < login_steps_left(pre),
{
}

} // verus!
