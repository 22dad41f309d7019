//! The pages and the emails: which template each one is rendered from, and
//! with which values. The rendering itself is done where the templates are.

use crate::domain::{Name, Url};
use crate::utils::opt_string;
use uuid::Uuid;
use vstd::prelude::*;

verus! {

/// The text that `uuid::Uuid`'s `to_string` gives the identifier `id`.
pub uninterp spec fn uuid_text(id: u128) -> Seq<char>;

/// `uuid::Uuid::from_u128`, then `to_string`: the identifier in hyphenated
/// form.
/// Trusted: the result is the one that the name `uuid_text` stands for.
#[verifier::external_body]
pub(crate) fn format_uuid(id: u128) -> (r: String)
    ensures
        r@ == uuid_text(id),
{
    Uuid::from_u128(id).to_string()
}

/// A template and the values that it is rendered with, each under its name.
#[derive(Debug)]
pub struct Page {
    pub template: String,
    pub context: Vec<(String, String)>,
}

/// A `Page` as mathematics.
pub struct PageView {
    pub template: Seq<char>,
    pub context: Seq<(Seq<char>, Seq<char>)>,
}

impl View for Page {
    type V = PageView;

    open spec fn view(&self) -> PageView {
        PageView {
            template: self.template@,
            context: Seq::new(
                self.context@.len(),
                |i: int| (self.context@[i].0@, self.context@[i].1@),
            ),
        }
    }
}

/// The one message that a page shows: the message of success where there is
/// one, else the message of failure where there is one.
pub open spec fn message_entry(
    success_msg: Option<Seq<char>>,
    error_msg: Option<Seq<char>>,
) -> Seq<(Seq<char>, Seq<char>)> {
    match success_msg {
        Some(msg) => seq![("success_msg"@, msg)],
        None => match error_msg {
            Some(msg) => seq![("error_msg"@, msg)],
            None => Seq::empty(),
        },
    }
}

/// Adds one value to a page.
fn insert(page: &mut Page, name: &str, value: String)
    ensures
        final(page)@ == (PageView {
            template: old(page)@.template,
            context: old(page)@.context.push((name@, value@)),
        }),
{
    page.context.push((name.to_owned(), value));
    assert(page@.context =~= old(page)@.context.push((name@, value@)));
}

/// Adds to a page the one message that it shows.
fn insert_message(page: &mut Page, success_msg: Option<String>, error_msg: Option<String>)
    ensures
        final(page)@ == (PageView {
            template: old(page)@.template,
            context: old(page)@.context + message_entry(
                opt_string(success_msg),
                opt_string(error_msg),
            ),
        }),
{
    if let Some(msg) = success_msg {
        insert(page, "success_msg", msg);
        assert(page@.context =~= old(page)@.context + seq![("success_msg"@, msg@)]);
    } else if let Some(msg) = error_msg {
        insert(page, "error_msg", msg);
        assert(page@.context =~= old(page)@.context + seq![("error_msg"@, msg@)]);
    } else {
        assert(page@.context =~= old(page)@.context + Seq::empty());
    }
}

/// A page of the template `template` with no values yet.
fn page(template: &str) -> (r: Page)
    ensures
        r@ == (PageView { template: template@, context: Seq::empty() }),
{
    let r = Page { template: template.to_owned(), context: Vec::new() };
    assert(r@.context =~= Seq::empty());
    r
}

/// The index page: for the user that is logged in, if any, with the message
/// of success or, where there is none, the message of failure.
pub fn index_html(user_id: Option<u128>, success_msg: Option<String>, error_msg: Option<String>) -> (r:
    Page)
    ensures
        r@ == (PageView {
            template: "index.html"@,
            context: match user_id {
                Some(id) => seq![("user_id"@, uuid_text(id))],
                None => Seq::empty(),
            } + message_entry(opt_string(success_msg), opt_string(error_msg)),
        }),
{
    let mut r = page("index.html");
    if let Some(id) = user_id {
        insert(&mut r, "user_id", format_uuid(id));
    }
    let ghost before = r@.context;
    assert(before =~= match user_id {
        Some(id) => seq![("user_id"@, uuid_text(id))],
        None => Seq::empty(),
    });
    insert_message(&mut r, success_msg, error_msg);
    r
}

/// The HTML body of the confirmation email for `name` with the link `link`.
pub fn confirmation_email_html(name: &Name, link: &Url) -> (r: Page)
    ensures
        r@ == (PageView {
            template: "confirmation_email.html"@,
            context: seq![("name"@, name@), ("confirmation_link"@, link@)],
        }),
{
    let mut r = page("confirmation_email.html");
    insert(&mut r, "name", name.as_str().to_owned());
    insert(&mut r, "confirmation_link", link.to_string());
    assert(r@.context =~= seq![("name"@, name@), ("confirmation_link"@, link@)]);
    r
}

/// The login page, with the message of success or, where there is none, the
/// message of failure.
pub fn login_html(success_msg: Option<String>, error_msg: Option<String>) -> (r: Page)
    ensures
        r@ == (PageView {
            template: "login.html"@,
            context: message_entry(opt_string(success_msg), opt_string(error_msg)),
        }),
{
    let mut r = page("login.html");
    insert_message(&mut r, success_msg, error_msg);
    assert(r@.context =~= message_entry(opt_string(success_msg), opt_string(error_msg)));
    r
}

/// The dashboard of the editor called `username`.
pub fn admin_dashboard_html(username: &Name) -> (r: Page)
    ensures
        r@ == (PageView {
            template: "admin/dashboard.html"@,
            context: seq![("username"@, username@)],
        }),
{
    let mut r = page("admin/dashboard.html");
    insert(&mut r, "username", username.as_str().to_owned());
    assert(r@.context =~= seq![("username"@, username@)]);
    r
}

/// The form for changing the password, with the message of success or,
/// where there is none, the message of failure.
pub fn admin_change_password_html(success_msg: Option<String>, error_msg: Option<String>) -> (r:
    Page)
    ensures
        r@ == (PageView {
            template: "admin/change_password.html"@,
            context: message_entry(opt_string(success_msg), opt_string(error_msg)),
        }),
{
    let mut r = page("admin/change_password.html");
    insert_message(&mut r, success_msg, error_msg);
    assert(r@.context =~= message_entry(opt_string(success_msg), opt_string(error_msg)));
    r
}

/// The form for publishing an issue under the key `idempotency_key`, with
/// the message of success or, where there is none, the message of failure.
pub fn admin_newsletter_html(
    success_msg: Option<String>,
    error_msg: Option<String>,
    idempotency_key: String,
) -> (r: Page)
    ensures
        r@ == (PageView {
            template: "admin/newsletter.html"@,
            context: seq![("idempotency_key"@, idempotency_key@)] + message_entry(
                opt_string(success_msg),
                opt_string(error_msg),
            ),
        }),
{
    let mut r = page("admin/newsletter.html");
    insert(&mut r, "idempotency_key", idempotency_key);
    assert(r@.context =~= seq![("idempotency_key"@, idempotency_key@)]);
    insert_message(&mut r, success_msg, error_msg);
    r
}

} // verus!
