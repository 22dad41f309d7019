//! Subscription states and confirmation tokens.

use crate::text::{chars_of, folded, join_text, push_char, same_text, to_lowercase};
use rand::Rng;
use vstd::prelude::*;

verus! {

/// Whether `char::is_alphanumeric` of the standard library holds of `c`.
pub uninterp spec fn is_alphanumeric(c: char) -> bool;

/// The letters `A` to `Z` and `a` to `z` and the digits `0` to `9`.
pub open spec fn is_ascii_alphanumeric(c: char) -> bool {
    ('A' <= c && c <= 'Z') || ('a' <= c && c <= 'z') || ('0' <= c && c <= '9')
}

/// The number of characters of a confirmation token.
pub const TOKEN_LENGTH: usize = 25;

/// Every character of `s` is alphanumeric.
pub open spec fn all_alphanumeric(s: Seq<char>) -> bool {
    forall|i: int| 0 <= i < s.len() ==> is_alphanumeric(#[trigger] s[i])
}

/// What makes a text a confirmation token: `TOKEN_LENGTH` characters, each
/// alphanumeric.
pub open spec fn token_is_valid(s: Seq<char>) -> bool {
    s.len() == TOKEN_LENGTH && all_alphanumeric(s)
}

/// The text of a status, as it is stored.
pub open spec fn status_text(status: SubscriptionStatus) -> Seq<char> {
    match status {
        SubscriptionStatus::PendingConfirmation => "pending_confirmation"@,
        SubscriptionStatus::Confirmed => "confirmed"@,
    }
}

/// The status that a stored text stands for, whatever its case.
pub open spec fn status_of_text(s: Seq<char>) -> Option<SubscriptionStatus> {
    if folded(s) == "pending_confirmation"@ {
        Some(SubscriptionStatus::PendingConfirmation)
    } else if folded(s) == "confirmed"@ {
        Some(SubscriptionStatus::Confirmed)
    } else {
        None
    }
}

/// What follows the rejected input in the message of a
/// `ParseSubscriptionStatusError`.
pub open spec fn status_error_suffix() -> Seq<char> {
    " is not a valid subscription status"@
}

/// `char::is_alphanumeric`: whether `c` is alphabetic or numeric in Unicode.
/// Trusted: the result is the one that the name `is_alphanumeric` stands for,
/// and it is true of the ASCII letters and digits.
#[verifier::external_body]
pub(crate) fn char_is_alphanumeric(c: char) -> (b: bool)
    ensures
        b == is_alphanumeric(c),
        is_ascii_alphanumeric(c) ==> b,
{
    c.is_alphanumeric()
}

/// `rand::Rng::sample` with `rand::distributions::Alphanumeric`, on the
/// generator of the current thread: one random character.
/// Trusted: whatever is drawn is an ASCII letter or digit.
#[verifier::external_body]
pub(crate) fn random_alphanumeric() -> (c: char)
    ensures
        is_ascii_alphanumeric(c),
{
    char::from(rand::thread_rng().sample(rand::distributions::Alphanumeric))
}

/// Why a text is no subscription status: the message names the text, in
/// lower case.
#[derive(Debug)]
pub struct ParseSubscriptionStatusError(pub String);

impl View for ParseSubscriptionStatusError {
    type V = Seq<char>;

    open spec fn view(&self) -> Seq<char> {
        self.0@
    }
}

impl ParseSubscriptionStatusError {
    /// The message.
    pub fn as_str(&self) -> (s: &str)
        ensures
            s@ == self@,
    {
        self.0.as_str()
    }

    /// The message, as an owned text.
    pub fn to_string(&self) -> (s: String)
        ensures
            s@ == self@,
    {
        self.0.clone()
    }
}

/// The state of a subscription. It only ever advances from
/// `PendingConfirmation` to `Confirmed`.
#[derive(Debug, Clone, Copy, PartialEq, Eq, Structural)]
pub enum SubscriptionStatus {
    PendingConfirmation,
    Confirmed,
}

impl SubscriptionStatus {
    /// The text under which the status is stored.
    pub fn as_str(&self) -> (s: &'static str)
        ensures
            s@ == status_text(*self),
    {
        match self {
            SubscriptionStatus::PendingConfirmation => "pending_confirmation",
            SubscriptionStatus::Confirmed => "confirmed",
        }
    }

    /// The text under which the status is stored, as an owned text.
    pub fn to_string(&self) -> (s: String)
        ensures
            s@ == status_text(*self),
    {
        self.as_str().to_owned()
    }

    /// Reads a stored status, whatever its case; any other text is an error
    /// whose message is the text in lower case followed by
    /// " is not a valid subscription status".
    pub fn try_from(s: String) -> (r: Result<SubscriptionStatus, ParseSubscriptionStatusError>)
        ensures
            r matches Ok(status) ==> status_of_text(s@) == Some(status),
            r matches Err(e) ==> status_of_text(s@) is None && e@ == folded(s@)
                + status_error_suffix(),
    {
        let lower = to_lowercase(s.as_str());
        if same_text(lower.as_str(), "pending_confirmation") {
            Ok(SubscriptionStatus::PendingConfirmation)
        } else if same_text(lower.as_str(), "confirmed") {
            Ok(SubscriptionStatus::Confirmed)
        } else {
            Err(
                ParseSubscriptionStatusError(
                    join_text(lower.as_str(), " is not a valid subscription status"),
                ),
            )
        }
    }
}

/// Why a text is no confirmation token.
#[derive(Debug, Clone, Copy, PartialEq, Eq, Structural)]
pub enum ParseSubscriptionTokenError {
    /// The text has the wrong number of characters.
    InvalidLength,
    /// Some character of the text is not alphanumeric.
    NotAlphanumeric,
}

impl ParseSubscriptionTokenError {
    /// The message of the error.
    pub fn to_string(&self) -> (s: String)
        ensures
            s@ == match *self {
                ParseSubscriptionTokenError::InvalidLength => "invalid token length"@,
                ParseSubscriptionTokenError::NotAlphanumeric => "token not alphanumeric"@,
            },
    {
        match self {
            ParseSubscriptionTokenError::InvalidLength => "invalid token length".to_owned(),
            ParseSubscriptionTokenError::NotAlphanumeric => "token not alphanumeric".to_owned(),
        }
    }
}

/// A confirmation token: `TOKEN_LENGTH` alphanumeric characters.
#[derive(Debug)]
pub struct SubscriptionToken(String);

impl View for SubscriptionToken {
    type V = Seq<char>;

    closed spec fn view(&self) -> Seq<char> {
        self.0@
    }
}

impl Clone for SubscriptionToken {
    fn clone(&self) -> (r: Self)
        ensures
            r@ == self@,
            r.wf(),
    {
        proof {
            use_type_invariant(self);
        }
        SubscriptionToken(self.0.clone())
    }
}

impl SubscriptionToken {
    /// The text is a valid token. Holds of every `SubscriptionToken` that a
    /// program can hold.
    #[verifier::type_invariant]
    pub closed spec fn wf(&self) -> bool {
        token_is_valid(self.0@)
    }

    /// Parses `s`. A character that is not alphanumeric gives
    /// `NotAlphanumeric`, whatever the length; otherwise a length other than
    /// `TOKEN_LENGTH` gives `InvalidLength`; otherwise the token has the text
    /// of `s`.
    pub fn parse(s: &str) -> (r: Result<SubscriptionToken, ParseSubscriptionTokenError>)
        ensures
            r is Ok <==> token_is_valid(s@),
            r matches Ok(t) ==> t@ == s@ && t.wf(),
            r matches Err(e) ==> (e == ParseSubscriptionTokenError::NotAlphanumeric
                <==> !all_alphanumeric(s@)),
    {
        let chars = chars_of(s);
        let mut i: usize = 0;
        while i < chars.len()
            invariant
                i <= chars.len(),
                chars@ == s@,
                forall|j: int| 0 <= j < i ==> is_alphanumeric(#[trigger] s@[j]),
            decreases chars.len() - i,
        {
            if !char_is_alphanumeric(chars[i]) {
                return Err(ParseSubscriptionTokenError::NotAlphanumeric);
            }
            i += 1;
        }
        if chars.len() != TOKEN_LENGTH {
            return Err(ParseSubscriptionTokenError::InvalidLength);
        }
        Ok(SubscriptionToken(s.to_owned()))
    }

    /// A fresh random token: `TOKEN_LENGTH` characters, each an ASCII letter
    /// or digit drawn from the generator of the current thread.
    pub fn generate() -> (t: SubscriptionToken)
        ensures
            t.wf(),
            token_is_valid(t@),
            forall|i: int| 0 <= i < t@.len() ==> is_ascii_alphanumeric(#[trigger] t@[i]),
    {
        let mut s = String::new();
        let mut i: usize = 0;
        while i < TOKEN_LENGTH
            invariant
                i <= TOKEN_LENGTH,
                s@.len() == i,
                forall|j: int|
                    0 <= j < i ==> is_ascii_alphanumeric(#[trigger] s@[j]) && is_alphanumeric(
                        s@[j],
                    ),
            decreases TOKEN_LENGTH - i,
        {
            let c = random_alphanumeric();
            // an ASCII letter or digit is alphanumeric: the test cannot fail
            let alphanumeric = char_is_alphanumeric(c);
            assert(alphanumeric);
            push_char(&mut s, c);
            i += 1;
        }
        SubscriptionToken(s)
    }

    /// The token as text.
    pub fn as_str(&self) -> (s: &str)
        ensures
            s@ == self@,
            token_is_valid(s@),
            self.wf(),
    {
        proof {
            use_type_invariant(self);
        }
        self.0.as_str()
    }
}

/// A status is read back from its stored text.
pub proof fn lemma_status_text_is_read_back(status: SubscriptionStatus)
    ensures
        status_of_text(status_text(status)) == Some(status),
        status_text(SubscriptionStatus::PendingConfirmation) != status_text(
            SubscriptionStatus::Confirmed,
        ),
{
    reveal_strlit("pending_confirmation");
    reveal_strlit("confirmed");
    crate::text::lemma_folded_plain("pending_confirmation"@);
    crate::text::lemma_folded_plain("confirmed"@);
    assert("pending_confirmation"@.len() != "confirmed"@.len());
}

} // verus!
