//! Idempotency keys.

use vstd::prelude::*;
use vstd::string::StrSliceExecFns;

verus! {

/// The most characters that a key may have.
pub const MAX_KEY_LENGTH: usize = 50;

/// What makes a text a key: it is not empty and has at most `MAX_KEY_LENGTH`
/// characters.
pub open spec fn key_is_valid(s: Seq<char>) -> bool {
    0 < s.len() <= MAX_KEY_LENGTH
}

/// The message with which a text is refused as a key.
pub open spec fn key_error(s: Seq<char>) -> Seq<char> {
    if s.len() == 0 {
        "The idempotency key cannot be empty"@
    } else {
        "The idempotency key must be at most 50 characters long"@
    }
}

/// A key that a client chose to name one request: an opaque text, not empty,
/// of at most `MAX_KEY_LENGTH` characters.
#[derive(Debug)]
pub struct IdempotencyKey(String);

impl View for IdempotencyKey {
    type V = Seq<char>;

    closed spec fn view(&self) -> Seq<char> {
        self.0@
    }
}

impl Clone for IdempotencyKey {
    fn clone(&self) -> (r: Self)
        ensures
            r@ == self@,
            r.wf(),
    {
        proof {
            use_type_invariant(self);
        }
        IdempotencyKey(self.0.clone())
    }
}

impl IdempotencyKey {
    /// The text is a valid key. Holds of every `IdempotencyKey` that a
    /// program can hold.
    #[verifier::type_invariant]
    pub closed spec fn wf(&self) -> bool {
        key_is_valid(self.0@)
    }

    /// Takes `s` as a key where it is valid, else refuses it with a message.
    pub fn try_from(s: String) -> (r: Result<IdempotencyKey, String>)
        ensures
            r is Ok <==> key_is_valid(s@),
            r matches Ok(key) ==> key@ == s@ && key.wf(),
            r matches Err(e) ==> e@ == key_error(s@),
    {
        let n = s.as_str().unicode_len();
        if n == 0 {
            return Err("The idempotency key cannot be empty".to_owned());
        }
        if n > MAX_KEY_LENGTH {
            return Err("The idempotency key must be at most 50 characters long".to_owned());
        }
        Ok(IdempotencyKey(s))
    }

    /// The key as text.
    pub fn as_str(&self) -> (s: &str)
        ensures
            s@ == self@,
            key_is_valid(s@),
            self.wf(),
    {
        proof {
            use_type_invariant(self);
        }
        self.0.as_str()
    }
}

} // verus!
