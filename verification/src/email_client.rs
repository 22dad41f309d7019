//! The email provider: the request that sends one email, and what its reply
//! means.

use crate::configuration::EmailClientSettings;
use crate::domain::url::url_joined;
use crate::domain::{Email, ParseEmailError, ParseUrlError, Url};
use crate::http::is_success;
use vstd::prelude::*;

verus! {

/// What is posted to the provider for one email. The provider reads the
/// fields under the names `From`, `To`, `Subject`, `HtmlBody`, `TextBody`.
#[derive(Debug)]
pub struct SendEmailRequest {
    pub from: String,
    pub to: String,
    pub subject: String,
    pub html_body: String,
    pub text_body: String,
}

/// A `SendEmailRequest` as mathematics.
pub struct SendEmailRequestView {
    pub from: Seq<char>,
    pub to: Seq<char>,
    pub subject: Seq<char>,
    pub html_body: Seq<char>,
    pub text_body: Seq<char>,
}

impl View for SendEmailRequest {
    type V = SendEmailRequestView;

    open spec fn view(&self) -> SendEmailRequestView {
        SendEmailRequestView {
            from: self.from@,
            to: self.to@,
            subject: self.subject@,
            html_body: self.html_body@,
            text_body: self.text_body@,
        }
    }
}

/// The fields of a request under the provider's names, in the provider's
/// order.
pub open spec fn request_fields(r: SendEmailRequestView) -> Seq<(Seq<char>, Seq<char>)> {
    seq![
        ("From"@, r.from),
        ("To"@, r.to),
        ("Subject"@, r.subject),
        ("HtmlBody"@, r.html_body),
        ("TextBody"@, r.text_body),
    ]
}

impl SendEmailRequest {
    /// The fields of the JSON object that is posted: each name with its
    /// value.
    pub fn fields(&self) -> (r: Vec<(String, String)>)
        ensures
            r@.len() == 5,
            forall|i: int|
                0 <= i < 5 ==> (#[trigger] r@[i]).0@ == request_fields(self@)[i].0 && r@[i].1@
                    == request_fields(self@)[i].1,
    {
        let mut r: Vec<(String, String)> = Vec::new();
        r.push(("From".to_owned(), self.from.clone()));
        r.push(("To".to_owned(), self.to.clone()));
        r.push(("Subject".to_owned(), self.subject.clone()));
        r.push(("HtmlBody".to_owned(), self.html_body.clone()));
        r.push(("TextBody".to_owned(), self.text_body.clone()));
        r
    }
}

/// One HTTP request to the provider: a POST of `body` as JSON to `url`, with
/// the header `X-Postmark-Server-Token` set to `authorization_token`, given
/// up where no reply comes within `timeout_ms` milliseconds.
pub struct OutboundEmail {
    pub url: Url,
    pub authorization_token: String,
    pub body: SendEmailRequest,
    pub timeout_ms: u64,
}

/// An `OutboundEmail` as mathematics.
pub struct OutboundEmailView {
    pub url: Seq<char>,
    pub authorization_token: Seq<char>,
    pub body: SendEmailRequestView,
    pub timeout_ms: u64,
}

impl View for OutboundEmail {
    type V = OutboundEmailView;

    open spec fn view(&self) -> OutboundEmailView {
        OutboundEmailView {
            url: self.url@,
            authorization_token: self.authorization_token@,
            body: self.body@,
            timeout_ms: self.timeout_ms,
        }
    }
}

/// What came back from the provider.
#[derive(Debug, Clone, Copy, PartialEq, Eq, Structural)]
pub enum ProviderReply {
    /// A reply with this status code.
    Status(u16),
    /// No reply: the request could not be sent, or the time ran out.
    NoReply,
}

/// How sending an email fails.
#[derive(Debug)]
pub enum SendEmailError {
    /// The provider's URL takes no path, so there is nowhere to post to.
    Endpoint(ParseUrlError),
    /// No reply came.
    NoReply,
    /// The provider replied with a status other than success.
    Status(u16),
}

/// What a reply means: success exactly for a status from 200 to 299.
pub open spec fn reply_result(reply: ProviderReply) -> Result<(), SendEmailError> {
    match reply {
        ProviderReply::Status(code) => if is_success(code as int) {
            Ok(())
        } else {
            Err(SendEmailError::Status(code))
        },
        ProviderReply::NoReply => Err(SendEmailError::NoReply),
    }
}

/// The name of the header that carries the provider's token.
pub fn token_header() -> (name: &'static str)
    ensures
        name@ == "X-Postmark-Server-Token"@,
{
    "X-Postmark-Server-Token"
}

/// How a client cannot be made from its settings.
#[derive(Debug)]
pub enum EmailClientError {
    ParseEmail(ParseEmailError),
    ParseUrl(ParseUrlError),
}

/// The provider as the service knows it: who sends, where to post, the token
/// and the time allowed for one call. It cannot be printed, so that the token
/// reaches no log.
pub struct EmailClient {
    sender: Email,
    base_url: Url,
    authorization_token: String,
    timeout_ms: u64,
}

/// An `EmailClient` as mathematics.
pub struct EmailClientView {
    pub sender: Seq<char>,
    pub base_url: Seq<char>,
    pub authorization_token: Seq<char>,
    pub timeout_ms: u64,
}

impl View for EmailClient {
    type V = EmailClientView;

    closed spec fn view(&self) -> EmailClientView {
        EmailClientView {
            sender: self.sender@,
            base_url: self.base_url@,
            authorization_token: self.authorization_token@,
            timeout_ms: self.timeout_ms,
        }
    }
}

/// The request that `client` makes for one email: posted to the provider's
/// URL joined with `email`. An error where the URL takes no path.
pub open spec fn outbound_email(
    client: EmailClientView,
    recipient: Seq<char>,
    subject: Seq<char>,
    html_content: Seq<char>,
    text_content: Seq<char>,
) -> Result<OutboundEmailView, Seq<char>> {
    match url_joined(client.base_url, "email"@) {
        Ok(url) => Ok(
            OutboundEmailView {
                url,
                authorization_token: client.authorization_token,
                body: SendEmailRequestView {
                    from: client.sender,
                    to: recipient,
                    subject,
                    html_body: html_content,
                    text_body: text_content,
                },
                timeout_ms: client.timeout_ms,
            },
        ),
        Err(message) => Err(message),
    }
}

impl EmailClient {
    /// A client that sends as `sender` through the provider at `base_url`.
    pub fn new(base_url: Url, sender: Email, authorization_token: String, timeout_ms: u64) -> (r:
        Self)
        ensures
            r@ == (EmailClientView {
                sender: sender@,
                base_url: base_url@,
                authorization_token: authorization_token@,
                timeout_ms,
            }),
    {
        EmailClient { sender, base_url, authorization_token, timeout_ms }
    }

    /// The client that the settings describe; an error where the sender is no
    /// email address or the URL is no URL, the sender being looked at first.
    pub fn try_from(settings: EmailClientSettings) -> (r: Result<EmailClient, EmailClientError>)
        ensures
            r matches Ok(client) ==> crate::domain::email_is_valid(settings.sender_email@)
                && crate::domain::url::url_parsed(settings.base_url@)
                == crate::domain::url::parsed(client@.base_url) && client@.sender
                == settings.sender_email@ && client@.authorization_token
                == settings.authorization_token@ && client@.timeout_ms == settings.timeout_ms,
            r matches Err(e) ==> if crate::domain::email_is_valid(settings.sender_email@) {
                e is ParseUrl && crate::domain::url::url_parsed(settings.base_url@) is Err
            } else {
                e is ParseEmail
            },
    {
        let sender = match settings.sender() {
            Ok(sender) => sender,
            Err(e) => {
                return Err(EmailClientError::ParseEmail(e));
            },
        };
        let base_url = match settings.url() {
            Ok(url) => url,
            Err(e) => {
                return Err(EmailClientError::ParseUrl(e));
            },
        };
        let timeout = settings.timeout();
        Ok(EmailClient::new(base_url, sender, settings.authorization_token, timeout))
    }

    /// The one request that sends an email with the given subject and bodies
    /// to `recipient`. Nothing is sent here, and nothing is tried again: the
    /// caller posts the request once and hands the reply to `delivery_result`.
    pub fn send_email(
        &self,
        recipient: &Email,
        subject: &str,
        html_content: &str,
        text_content: &str,
    ) -> (r: Result<OutboundEmail, SendEmailError>)
        ensures
            r matches Ok(mail) ==> (outbound_email(
                self@,
                recipient@,
                subject@,
                html_content@,
                text_content@,
            ) matches Ok(request) && request == mail@),
            r matches Err(e) ==> e is Endpoint && outbound_email(
                self@,
                recipient@,
                subject@,
                html_content@,
                text_content@,
            ) is Err,
    {
        let url = match self.base_url.join("email") {
            Ok(url) => url,
            Err(e) => {
                return Err(SendEmailError::Endpoint(e));
            },
        };
        let body = SendEmailRequest {
            from: self.sender.to_string(),
            to: recipient.to_string(),
            subject: subject.to_owned(),
            html_body: html_content.to_owned(),
            text_body: text_content.to_owned(),
        };
        Ok(
            OutboundEmail {
                url,
                authorization_token: self.authorization_token.clone(),
                body,
                timeout_ms: self.timeout_ms,
            },
        )
    }
}

/// What a reply of the provider means for the email: sent exactly where the
/// status is from 200 to 299.
pub fn delivery_result(reply: ProviderReply) -> (r: Result<(), SendEmailError>)
    ensures
        r == reply_result(reply),
{
    match reply {
        ProviderReply::Status(code) => {
            if 200 <= code && code <= 299 {
                Ok(())
            } else {
                Err(SendEmailError::Status(code))
            }
        },
        ProviderReply::NoReply => Err(SendEmailError::NoReply),
    }
}

} // verus!
