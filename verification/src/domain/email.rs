//! Email addresses.

use crate::text::join_text;
use validator::ValidateEmail;
use vstd::prelude::*;

verus! {

/// Whether `validator::ValidateEmail::validate_email` accepts `s` as the text
/// of an email address (the rules of the HTML5 specification).
pub uninterp spec fn email_is_valid(s: Seq<char>) -> bool;

/// What follows the rejected input in the message of a `ParseEmailError`.
pub open spec fn email_error_suffix() -> Seq<char> {
    " is not a valid subscriber email."@
}

/// `validator::ValidateEmail::validate_email` on a `&str`.
/// Trusted: the result is the one that the name `email_is_valid` stands for,
/// and an accepted text is not empty and holds an `@`, the two tests that the
/// function makes before any other.
#[verifier::external_body]
pub(crate) fn validate_email(s: &str) -> (b: bool)
    ensures
        b == email_is_valid(s@),
        b ==> s@.len() > 0 && s@.contains('@'),
{
    s.validate_email()
}

/// Why a text is no email address: the message names the text.
#[derive(Debug)]
pub struct ParseEmailError(pub String);

impl View for ParseEmailError {
    type V = Seq<char>;

    open spec fn view(&self) -> Seq<char> {
        self.0@
    }
}

impl ParseEmailError {
    /// The message.
    pub fn as_str(&self) -> (s: &str)
        ensures
            s@ == self@,
    {
        self.0.as_str()
    }

    /// The message, as an owned text.
    pub fn to_string(&self) -> (s: String)
        ensures
            s@ == self@,
    {
        self.0.clone()
    }
}

/// An email address that the validator accepted.
#[derive(Debug)]
pub struct Email(String);

impl View for Email {
    type V = Seq<char>;

    closed spec fn view(&self) -> Seq<char> {
        self.0@
    }
}

impl Clone for Email {
    fn clone(&self) -> (r: Self)
        ensures
            r@ == self@,
            r.wf(),
    {
        proof {
            use_type_invariant(self);
        }
        Email(self.0.clone())
    }
}

impl Email {
    /// The address is one that the validator accepts. Holds of every `Email`
    /// that a program can hold.
    #[verifier::type_invariant]
    pub closed spec fn wf(&self) -> bool {
        email_is_valid(self.0@)
    }

    /// Parses `s`: an `Email` with the text of `s` where the validator
    /// accepts it, else an error whose message is `s` followed by
    /// " is not a valid subscriber email.".
    pub fn parse(s: &str) -> (r: Result<Email, ParseEmailError>)
        ensures
            r is Ok <==> email_is_valid(s@),
            r matches Ok(e) ==> e@ == s@ && e.wf(),
            r matches Err(e) ==> e@ == s@ + email_error_suffix(),
            s@.len() == 0 || !s@.contains('@') ==> r is Err,
    {
        if !validate_email(s) {
            Err(ParseEmailError(join_text(s, " is not a valid subscriber email.")))
        } else {
            Ok(Email(s.to_owned()))
        }
    }

    /// The address as text.
    pub fn as_str(&self) -> (s: &str)
        ensures
            s@ == self@,
            email_is_valid(s@),
            self.wf(),
    {
        proof {
            use_type_invariant(self);
        }
        self.0.as_str()
    }

    /// The address as an owned text.
    pub fn to_string(&self) -> (s: String)
        ensures
            s@ == self@,
            email_is_valid(s@),
    {
        proof {
            use_type_invariant(self);
        }
        self.0.clone()
    }
}

} // verus!
