//! The index page.

use crate::http::{Flash, Level};
use crate::store::rows;
use crate::template::{index_html, message_entry, uuid_text, Page, PageView};
use crate::utils::{get_success_and_error_flash_message, message_of_level};
use vstd::prelude::*;

verus! {

/// The user that a session names, where the session could be read and names
/// one.
pub open spec fn session_user(user_id: Result<Option<u128>, String>) -> Option<u128> {
    match user_id {
        Ok(user) => user,
        Err(_) => None,
    }
}

/// The index page for a session that names `user_id`, if any, with the
/// messages that the last request left. A session that cannot be read counts
/// as one that names nobody.
pub fn index(flashes: &Vec<Flash>, user_id: Result<Option<u128>, String>) -> (r: Page)
    ensures
        r@ == (PageView {
            template: "index.html"@,
            context: match session_user(user_id) {
                Some(id) => seq![("user_id"@, uuid_text(id))],
                None => Seq::empty(),
            } + message_entry(
                message_of_level(rows(flashes@), Level::Success),
                message_of_level(rows(flashes@), Level::Error),
            ),
        }),
{
    let (success_msg, error_msg) = get_success_and_error_flash_message(flashes);
    let user = match user_id {
        Ok(user) => user,
        Err(_) => None,
    };
    index_html(user, success_msg, error_msg)
}

} // verus!
