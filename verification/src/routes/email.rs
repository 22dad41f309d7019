//! A stand-in for the email provider on a developer's machine: every email
//! that is posted to it is kept as a file.

use crate::email_client::{request_fields, SendEmailRequest, SendEmailRequestView};
use vstd::prelude::*;

verus! {

/// The decimal text that `u128`'s `to_string` gives the number `n`.
pub uninterp spec fn decimal_text(n: u128) -> Seq<char>;

/// `u128::to_string`: the number in decimal digits.
/// Trusted: the result is the one that the name `decimal_text` stands for.
#[verifier::external_body]
pub(crate) fn decimal(n: u128) -> (r: String)
    ensures
        r@ == decimal_text(n),
{
    n.to_string()
}

/// An email as it is posted to the provider.
#[derive(Debug)]
pub struct EmailRequest {
    pub from: String,
    pub to: String,
    pub subject: String,
    pub html_body: String,
    pub text_body: String,
}

impl View for EmailRequest {
    type V = SendEmailRequestView;

    open spec fn view(&self) -> SendEmailRequestView {
        SendEmailRequestView {
            from: self.from@,
            to: self.to@,
            subject: self.subject@,
            html_body: self.html_body@,
            text_body: self.text_body@,
        }
    }
}

/// The file in which an email is kept.
#[derive(Debug)]
pub struct FakeEmail {
    /// The directory of the file.
    pub directory: String,
    /// The name of the file.
    pub file_name: String,
    /// The fields of the JSON object that the file holds, in order.
    pub fields: Vec<(String, String)>,
}

/// The name of the file that keeps an email to `to` that arrived at
/// `unix_millis` milliseconds after the epoch.
pub open spec fn fake_email_name(unix_millis: u128, to: Seq<char>) -> Seq<char> {
    decimal_text(unix_millis) + "__"@ + to + ".json"@
}

/// The file that keeps `request`, which arrived at `unix_millis` milliseconds
/// after the epoch: in `.fake_emails`, named by the time and the recipient,
/// holding the fields of the request under the provider's names.
pub fn fake_email(request: &EmailRequest, unix_millis: u128) -> (r: FakeEmail)
    ensures
        r.directory@ == ".fake_emails"@,
        r.file_name@ == fake_email_name(unix_millis, request.to@),
        r.fields@.len() == 5,
        forall|i: int|
            0 <= i < 5 ==> (#[trigger] r.fields@[i]).0@ == request_fields(request@)[i].0
                && r.fields@[i].1@ == request_fields(request@)[i].1,
{
    let mut file_name = decimal(unix_millis);
    file_name.append("__");
    file_name.append(request.to.as_str());
    file_name.append(".json");
    let body = SendEmailRequest {
        from: request.from.clone(),
        to: request.to.clone(),
        subject: request.subject.clone(),
        html_body: request.html_body.clone(),
        text_body: request.text_body.clone(),
    };
    FakeEmail { directory: ".fake_emails".to_owned(), file_name, fields: body.fields() }
}

} // verus!
