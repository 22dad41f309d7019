//! Changing the password of an editor.

use crate::authentication::credentials::{verdict, Verdict};
use crate::authentication::{
    change_password as new_credentials, validate_credentials, AuthError, Credentials,
    StoredCredentials,
};
use crate::http::{
    redirect_view, Flash, FlashView, Level, Response, INTERNAL_SERVER_ERROR, UNAUTHORIZED,
    UNPROCESSABLE_ENTITY,
};
use crate::routes::handler_response::HandlerResponse;
use crate::store::rows;
use crate::template::{admin_change_password_html, message_entry, Page, PageView};
use crate::text::same_text;
use crate::utils::{get_success_and_error_flash_message, message_of_level};
use vstd::prelude::*;

verus! {

/// The form with which an editor changes their password.
pub struct ChangePasswordFormData {
    pub current_password: String,
    pub new_password: String,
    pub new_password_check: String,
}

/// How changing the password fails.
#[derive(Debug)]
pub enum ChangePasswordError {
    /// The current password is wrong.
    IncorrectPassword,
    /// The new password and its repetition differ.
    DifferentNewPasswords,
    /// Something else failed; the text says what, for the log.
    UnexpectedError(String),
}

impl ChangePasswordError {
    /// The message of the error: what the editor is told.
    pub open spec fn message(&self) -> Seq<char> {
        match self {
            ChangePasswordError::IncorrectPassword => "The current password is incorrect"@,
            ChangePasswordError::DifferentNewPasswords =>
                "You entered two different new passwords"@,
            ChangePasswordError::UnexpectedError(_) => "Something went wrong"@,
        }
    }

    /// The message of the error, as text.
    pub fn to_string(&self) -> (s: String)
        ensures
            s@ == self.message(),
    {
        match self {
            ChangePasswordError::IncorrectPassword => "The current password is incorrect".to_owned(),
            ChangePasswordError::DifferentNewPasswords => "You entered two different new passwords".to_owned(),
            ChangePasswordError::UnexpectedError(_) => "Something went wrong".to_owned(),
        }
    }

    /// The answer to a client that called the endpoint directly: 401 for a
    /// wrong password, 422 for two different new passwords, 500 otherwise.
    pub fn into_response(self) -> (r: HandlerResponse)
        ensures
            r.status_code == match self {
                ChangePasswordError::IncorrectPassword => UNAUTHORIZED,
                ChangePasswordError::DifferentNewPasswords => UNPROCESSABLE_ENTITY,
                ChangePasswordError::UnexpectedError(_) => INTERNAL_SERVER_ERROR,
            },
            r.message@ == match self {
                ChangePasswordError::IncorrectPassword => "Authentication error"@,
                ChangePasswordError::DifferentNewPasswords => "Different new passwords"@,
                ChangePasswordError::UnexpectedError(_) => "Something went wrong"@,
            },
    {
        match self {
            ChangePasswordError::IncorrectPassword => HandlerResponse {
                status_code: UNAUTHORIZED,
                message: "Authentication error".to_owned(),
            },
            ChangePasswordError::DifferentNewPasswords => HandlerResponse {
                status_code: UNPROCESSABLE_ENTITY,
                message: "Different new passwords".to_owned(),
            },
            ChangePasswordError::UnexpectedError(_) => HandlerResponse {
                status_code: INTERNAL_SERVER_ERROR,
                message: "Something went wrong".to_owned(),
            },
        }
    }
}

/// Where the handling of one change of password stands.
pub enum PasswordState {
    /// Nothing has happened yet.
    Received,
    /// The name of the user is being fetched.
    FetchingUsername(u128, ChangePasswordFormData),
    /// The stored credentials of the user are being fetched.
    FetchingCredentials(u128, ChangePasswordFormData),
    /// The new hash is being stored.
    Updating,
    /// The request has been answered.
    Finished,
}

/// What the outside reports back after an action.
pub enum PasswordEvent {
    /// The form arrived, from this user.
    Form { user_id: u128, form: ChangePasswordFormData },
    /// The name of the user.
    Username(String),
    /// What is stored under the user name, or why the lookup failed.
    Stored(Result<Option<StoredCredentials>, String>),
    /// The action succeeded, and has nothing to report.
    Done,
    /// The action failed.
    Failed,
}

/// What the outside is asked to do next.
pub enum PasswordAction {
    /// Fetch the name of this user.
    FindUsername { user_id: u128 },
    /// Fetch what is stored under this user name.
    FindCredentials { username: String },
    /// Store this hash as the password hash of this user.
    UpdatePassword(StoredCredentials),
    /// Answer the request with this result; nothing follows.
    Finish(Result<(), ChangePasswordError>),
}

/// The step ended the request with an unexpected error of this cause.
pub open spec fn password_failed(
    post: PasswordState,
    action: PasswordAction,
    cause: Seq<char>,
) -> bool {
    &&& post is Finished
    &&& action matches PasswordAction::Finish(Err(ChangePasswordError::UnexpectedError(m)))
    &&& m@ == cause
}

/// What one step of changing the password does.
pub open spec fn password_step_spec(
    pre: PasswordState,
    event: PasswordEvent,
    post: PasswordState,
    action: PasswordAction,
) -> bool {
    match pre {
        PasswordState::Received => match event {
            PasswordEvent::Form { user_id, form } => if form.new_password@
                != form.new_password_check@ {
                &&& post is Finished
                &&& action matches PasswordAction::Finish(
                    Err(ChangePasswordError::DifferentNewPasswords),
                )
            } else {
                &&& post == PasswordState::FetchingUsername(user_id, form)
                &&& action == (PasswordAction::FindUsername { user_id })
            },
            _ => password_failed(post, action, "Unexpected event"@),
        },
        PasswordState::FetchingUsername(user_id, form) => match event {
            PasswordEvent::Username(username) => {
                &&& post == PasswordState::FetchingCredentials(user_id, form)
                &&& action == (PasswordAction::FindCredentials { username })
            },
            _ => password_failed(
                post,
                action,
                "Failed to perform a query to retrieve a username"@,
            ),
        },
        PasswordState::FetchingCredentials(user_id, form) => match event {
            PasswordEvent::Stored(stored) => match verdict(form.current_password@, stored) {
                Verdict::User(_) => {
                    ||| {
                        &&& post is Updating
                        &&& action matches PasswordAction::UpdatePassword(s)
                        &&& s.user_id == user_id
                    }
                    ||| password_failed(post, action, "Failed to hash password"@)
                },
                Verdict::Invalid(_) => {
                    &&& post is Finished
                    &&& action matches PasswordAction::Finish(
                        Err(ChangePasswordError::IncorrectPassword),
                    )
                },
                Verdict::Unexpected(reason) => password_failed(post, action, reason),
            },
            _ => password_failed(post, action, "Failed to fetch the stored credentials"@),
        },
        PasswordState::Updating => match event {
            PasswordEvent::Done => {
                &&& post is Finished
                &&& action matches PasswordAction::Finish(Ok(()))
            },
            _ => password_failed(
                post,
                action,
                "Failed to change user's password in the database"@,
            ),
        },
        PasswordState::Finished => password_failed(post, action, "Unexpected event"@),
    }
}

/// Ends the request with an unexpected error of the given cause.
fn fail(cause: String) -> (r: (PasswordState, PasswordAction))
    ensures
        password_failed(r.0, r.1, cause@),
{
    (
        PasswordState::Finished,
        PasswordAction::Finish(Err(ChangePasswordError::UnexpectedError(cause))),
    )
}

/// One step of changing a password. The caller starts in `Received` with the
/// event `Form`, does what each action asks, reports its outcome as the next
/// event, and stops at `Finish`.
///
/// Two different new passwords end the request at once. Otherwise the name
/// and the stored credentials of the user are fetched and the current
/// password is checked; where it is right, the new password is hashed under
/// a fresh salt and the hash is stored.
pub fn change_password(state: PasswordState, event: PasswordEvent) -> (r: (
    PasswordState,
    PasswordAction,
))
    ensures
        password_step_spec(state, event, r.0, r.1),
{
    match state {
        PasswordState::Received => match event {
            PasswordEvent::Form { user_id, form } => {
                if !same_text(form.new_password.as_str(), form.new_password_check.as_str()) {
                    (
                        PasswordState::Finished,
                        PasswordAction::Finish(Err(ChangePasswordError::DifferentNewPasswords)),
                    )
                } else {
                    (
                        PasswordState::FetchingUsername(user_id, form),
                        PasswordAction::FindUsername { user_id },
                    )
                }
            },
            _ => fail("Unexpected event".to_owned()),
        },
        PasswordState::FetchingUsername(user_id, form) => match event {
            PasswordEvent::Username(username) => (
                PasswordState::FetchingCredentials(user_id, form),
                PasswordAction::FindCredentials { username },
            ),
            _ => fail("Failed to perform a query to retrieve a username".to_owned()),
        },
        PasswordState::FetchingCredentials(user_id, form) => match event {
            PasswordEvent::Stored(stored) => {
                let credentials = Credentials {
                    username: String::new(),
                    password: form.current_password,
                };
                match validate_credentials(credentials, stored) {
                    Ok(_) => match new_credentials(user_id, form.new_password.as_str()) {
                        Ok(s) => (PasswordState::Updating, PasswordAction::UpdatePassword(s)),
                        Err(reason) => fail(reason),
                    },
                    Err(AuthError::InvalidCredentials(_)) => (
                        PasswordState::Finished,
                        PasswordAction::Finish(Err(ChangePasswordError::IncorrectPassword)),
                    ),
                    Err(AuthError::UnexpectedError(reason)) => fail(reason),
                }
            },
            _ => fail("Failed to fetch the stored credentials".to_owned()),
        },
        PasswordState::Updating => match event {
            PasswordEvent::Done => (PasswordState::Finished, PasswordAction::Finish(Ok(()))),
            _ => fail("Failed to change user's password in the database".to_owned()),
        },
        PasswordState::Finished => fail("Unexpected event".to_owned()),
    }
}

/// The answer to a change of password.
#[derive(Debug)]
pub enum PasswordReply {
    /// Back to the form, with a message.
    Redirect(Flash, Response),
    /// 500.
    Failed(HandlerResponse),
}

/// Answers a change of password: back to the form with a message of success,
/// or with the message of the error where the editor can mend it; 500
/// otherwise.
pub fn change_password_with_flash(result: Result<(), ChangePasswordError>) -> (r: PasswordReply)
    ensures
        match result {
            Ok(_) => r matches PasswordReply::Redirect(flash, response) && flash@ == (FlashView {
                level: Level::Success,
                message: "Your password has been changed"@,
            }) && response@ == redirect_view("/admin/password"@),
            Err(ChangePasswordError::UnexpectedError(_)) => r matches PasswordReply::Failed(
                response,
            ) && response.status_code == INTERNAL_SERVER_ERROR && response.message@
                == "Something went wrong"@,
            Err(e) => r matches PasswordReply::Redirect(flash, response) && flash@ == (FlashView {
                level: Level::Error,
                message: e.message(),
            }) && response@ == redirect_view("/admin/password"@),
        },
{
    match result {
        Ok(_) => PasswordReply::Redirect(
            Flash::success("Your password has been changed"),
            Response::redirect("/admin/password"),
        ),
        Err(e) => match e {
            ChangePasswordError::DifferentNewPasswords | ChangePasswordError::IncorrectPassword => {
                let message = e.to_string();
                PasswordReply::Redirect(
                    Flash::error(message.as_str()),
                    Response::redirect("/admin/password"),
                )
            },
            _ => PasswordReply::Failed(e.into_response()),
        },
    }
}

/// The form for changing the password, with the messages that the last
/// request left.
pub fn change_password_form(flashes: &Vec<Flash>) -> (r: Page)
    ensures
        r@ == (PageView {
            template: "admin/change_password.html"@,
            context: message_entry(
                message_of_level(rows(flashes@), Level::Success),
                message_of_level(rows(flashes@), Level::Error),
            ),
        }),
{
    let (success_msg, error_msg) = get_success_and_error_flash_message(flashes);
    admin_change_password_html(success_msg, error_msg)
}

/// The most steps that a change of password in the state `state` still
/// takes.
pub open spec fn password_steps_left(state: PasswordState) -> nat {
    match state {
        PasswordState::Received => 4,
        PasswordState::FetchingUsername(_, _) => 3,
        PasswordState::FetchingCredentials(_, _) => 2,
        PasswordState::Updating => 1,
        PasswordState::Finished => 0,
    }
}

/// Every change of password is answered: each step either ends the request
/// or leaves fewer steps to take, whatever the outside reports.
pub proof fn law_change_password_ends(
    pre: PasswordState,
    event: PasswordEvent,
    post: PasswordState,
    action: PasswordAction,
)
    requires
        password_step_spec(pre, event, post, action),
    ensures
        action is Finish <==> post is Finished,
        !(action is Finish) ==> password_steps_left(post) < password_steps_left(pre),
{
}

} // verus!
