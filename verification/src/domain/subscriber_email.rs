//! The address of a subscriber, parsed from an owned text.

use crate::domain::email::{email_error_suffix, email_is_valid, validate_email};
use crate::text::join_text;
use vstd::prelude::*;

verus! {

/// An email address of a subscriber that the validator accepted.
#[derive(Debug)]
pub struct SubscriberEmail(String);

impl View for SubscriberEmail {
    type V = Seq<char>;

    closed spec fn view(&self) -> Seq<char> {
        self.0@
    }
}

impl SubscriberEmail {
    /// The address is one that the validator accepts.
    #[verifier::type_invariant]
    pub closed spec fn wf(&self) -> bool {
        email_is_valid(self.0@)
    }

    /// Parses `s`: a `SubscriberEmail` with the text of `s` where the
    /// validator accepts it, else the message `s` followed by
    /// " is not a valid subscriber email.".
    pub fn parse(s: String) -> (r: Result<SubscriberEmail, String>)
        ensures
            r is Ok <==> email_is_valid(s@),
            r matches Ok(e) ==> e@ == s@ && e.wf(),
            r matches Err(e) ==> e@ == s@ + email_error_suffix(),
            s@.len() == 0 || !s@.contains('@') ==> r is Err,
    {
        if !validate_email(s.as_str()) {
            Err(join_text(s.as_str(), " is not a valid subscriber email."))
        } else {
            Ok(SubscriberEmail(s))
        }
    }

    /// The address as text.
    pub fn as_str(&self) -> (s: &str)
        ensures
            s@ == self@,
            email_is_valid(s@),
    {
        proof {
            use_type_invariant(self);
        }
        self.0.as_str()
    }
}

} // verus!
