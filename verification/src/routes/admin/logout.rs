//! Logging out.

use crate::http::{redirect_view, Flash, FlashView, Level, Response, INTERNAL_SERVER_ERROR};
use crate::routes::handler_response::HandlerResponse;
use vstd::prelude::*;

verus! {

/// The answer to a request to log out.
#[derive(Debug)]
pub enum LogoutReply {
    /// The session could not be read: 500.
    Failed(HandlerResponse),
    /// Nobody was logged in: to the login page, and nothing else.
    Redirect(Response),
    /// The session is to be ended; then to the login page with the message.
    Logout(Flash, Response),
}

/// Answers a request to log out, for a session that names `user_id`, if any;
/// `Err` where the session could not be read.
pub fn admin_logout(user_id: Result<Option<u128>, String>) -> (r: LogoutReply)
    ensures
        match user_id {
            Err(_) => r matches LogoutReply::Failed(response) && response.status_code
                == INTERNAL_SERVER_ERROR && response.message@
                == "Something went wrong with logout"@,
            Ok(None) => r matches LogoutReply::Redirect(response) && response@ == redirect_view(
                "/login"@,
            ),
            Ok(Some(_)) => r matches LogoutReply::Logout(flash, response) && flash@ == (FlashView {
                level: Level::Success,
                message: "You have successfully logged out"@,
            }) && response@ == redirect_view("/login"@),
        },
{
    match user_id {
        Err(_) => LogoutReply::Failed(
            HandlerResponse {
                status_code: INTERNAL_SERVER_ERROR,
                message: "Something went wrong with logout".to_owned(),
            },
        ),
        Ok(None) => LogoutReply::Redirect(Response::redirect("/login")),
        Ok(Some(_)) => LogoutReply::Logout(
            Flash::success("You have successfully logged out"),
            Response::redirect("/login"),
        ),
    }
}

} // verus!
