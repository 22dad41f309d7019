//! The guard before the pages that only an editor may see.

use crate::http::{redirect_view, Response};
use vstd::prelude::*;

verus! {

/// The identifier of an editor who is logged in.
#[derive(Debug, Clone, Copy, PartialEq, Eq, Structural)]
pub struct UserId(pub u128);

/// Lets a request pass where its session names a user, as that user; sends
/// any other request to `/login`.
pub fn reject_anonymous_users(user_id: Option<u128>) -> (r: Result<UserId, Response>)
    ensures
        match user_id {
            Some(id) => r matches Ok(user) && user == UserId(id),
            None => r matches Err(response) && response@ == redirect_view("/login"@),
        },
{
    match user_id {
        Some(id) => Ok(UserId(id)),
        None => Err(Response::redirect("/login")),
    }
}

} // verus!
