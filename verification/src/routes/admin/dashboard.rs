//! The dashboard of an editor.

use crate::domain::name::name_is_valid;
use crate::domain::Name;
use crate::http::{redirect_view, Response, INTERNAL_SERVER_ERROR};
use crate::routes::handler_response::HandlerResponse;
use crate::text::trimmed;
use vstd::prelude::*;

verus! {

/// How showing the dashboard fails.
#[derive(Debug)]
pub enum AdminDashboardError {
    /// Something failed; the text says what, for the log.
    UnexpectedError(String),
}

impl AdminDashboardError {
    /// The message of the error: "Something went wrong".
    pub fn to_string(&self) -> (s: String)
        ensures
            s@ == "Something went wrong"@,
    {
        "Something went wrong".to_owned()
    }

    /// The answer to the client: 500.
    pub fn into_response(self) -> (r: HandlerResponse)
        ensures
            r.status_code == INTERNAL_SERVER_ERROR,
            r.message@ == "Something went wrong with admin dashboard"@,
    {
        HandlerResponse {
            status_code: INTERNAL_SERVER_ERROR,
            message: "Something went wrong with admin dashboard".to_owned(),
        }
    }
}

/// What the dashboard shows.
#[derive(Debug)]
pub enum DashboardPage {
    /// Nobody is logged in: to the login page.
    Redirect(Response),
    /// The dashboard of the editor with this name.
    Dashboard(Name),
}

/// Where the handling of one request for the dashboard stands.
#[derive(Debug)]
pub enum DashboardState {
    /// Nothing has happened yet.
    Received,
    /// The name of the user is being fetched.
    FetchingUsername,
    /// The request has been answered.
    Finished,
}

/// What the outside reports back after an action.
#[derive(Debug)]
pub enum DashboardEvent {
    /// The request arrived, with the user that the session names, if any, or
    /// with `Err` where the session could not be read.
    Session(Result<Option<u128>, String>),
    /// The name of the user.
    Username(String),
    /// The action failed.
    Failed,
}

/// What the outside is asked to do next.
#[derive(Debug)]
pub enum DashboardAction {
    /// Fetch the name of this user.
    FindUsername { user_id: u128 },
    /// Answer the request with this result; nothing follows.
    Finish(Result<DashboardPage, AdminDashboardError>),
}

/// The step ended the request with an error of this cause.
pub open spec fn dashboard_failed(
    post: DashboardState,
    action: DashboardAction,
    cause: Seq<char>,
) -> bool {
    &&& post is Finished
    &&& action matches DashboardAction::Finish(Err(AdminDashboardError::UnexpectedError(m)))
    &&& m@ == cause
}

/// What one step of showing the dashboard does.
pub open spec fn dashboard_step_spec(
    pre: DashboardState,
    event: DashboardEvent,
    post: DashboardState,
    action: DashboardAction,
) -> bool {
    match pre {
        DashboardState::Received => match event {
            DashboardEvent::Session(Ok(Some(id))) => {
                &&& post is FetchingUsername
                &&& action == (DashboardAction::FindUsername { user_id: id })
            },
            DashboardEvent::Session(Ok(None)) => {
                &&& post is Finished
                &&& action matches DashboardAction::Finish(Ok(DashboardPage::Redirect(response)))
                &&& response@ == redirect_view("/login"@)
            },
            DashboardEvent::Session(Err(reason)) => dashboard_failed(post, action, reason@),
            _ => dashboard_failed(post, action, "Unexpected event"@),
        },
        DashboardState::FetchingUsername => match event {
            DashboardEvent::Username(username) => if name_is_valid(trimmed(username@)) {
                &&& post is Finished
                &&& action matches DashboardAction::Finish(Ok(DashboardPage::Dashboard(name)))
                &&& name@ == trimmed(username@)
            } else {
                dashboard_failed(
                    post,
                    action,
                    username@ + crate::domain::name::name_error_suffix(),
                )
            },
            _ => dashboard_failed(
                post,
                action,
                "Failed to perform a query to retrieve a username"@,
            ),
        },
        DashboardState::Finished => dashboard_failed(post, action, "Unexpected event"@),
    }
}

/// Ends the request with an error of the given cause.
fn fail(cause: String) -> (r: (DashboardState, DashboardAction))
    ensures
        dashboard_failed(r.0, r.1, cause@),
{
    (
        DashboardState::Finished,
        DashboardAction::Finish(Err(AdminDashboardError::UnexpectedError(cause))),
    )
}

/// One step of showing the dashboard. The caller starts in `Received` with
/// the event `Session`, does what each action asks, reports its outcome as
/// the next event, and stops at `Finish`.
///
/// Without a user in the session the client is sent to `/login`. Otherwise
/// the name of the user is fetched, and the dashboard is shown for it where
/// it is a valid name.
pub fn admin_dashboard(state: DashboardState, event: DashboardEvent) -> (r: (
    DashboardState,
    DashboardAction,
))
    ensures
        dashboard_step_spec(state, event, r.0, r.1),
{
    match state {
        DashboardState::Received => match event {
            DashboardEvent::Session(Ok(Some(user_id))) => (
                DashboardState::FetchingUsername,
                DashboardAction::FindUsername { user_id },
            ),
            DashboardEvent::Session(Ok(None)) => (
                DashboardState::Finished,
                DashboardAction::Finish(Ok(DashboardPage::Redirect(Response::redirect("/login")))),
            ),
            DashboardEvent::Session(Err(reason)) => fail(reason),
            _ => fail("Unexpected event".to_owned()),
        },
        DashboardState::FetchingUsername => match event {
            DashboardEvent::Username(username) => match Name::parse(username.as_str()) {
                Ok(name) => (
                    DashboardState::Finished,
                    DashboardAction::Finish(Ok(DashboardPage::Dashboard(name))),
                ),
                Err(e) => fail(e.to_string()),
            },
            _ => fail("Failed to perform a query to retrieve a username".to_owned()),
        },
        DashboardState::Finished => fail("Unexpected event".to_owned()),
    }
}

/// Every request for the dashboard is answered after at most two steps.
pub proof fn law_dashboard_ends(
    pre: DashboardState,
    event: DashboardEvent,
    post: DashboardState,
    action: DashboardAction,
)
    requires
        dashboard_step_spec(pre, event, post, action),
    ensures
        action is Finish <==> post is Finished,
        !(action is Finish) ==> pre is Received && post is FetchingUsername,
{
}

} // verus!
