//! Display names of subscribers.

use crate::text::{chars_of, is_blank, join_text, lemma_trimmed, text_of, trim_bounds, trimmed};
use unicode_segmentation::UnicodeSegmentation;
use vstd::prelude::*;

verus! {

/// The number of extended grapheme clusters that
/// `unicode_segmentation::UnicodeSegmentation::graphemes` finds in `s`.
pub uninterp spec fn grapheme_count(s: Seq<char>) -> nat;

/// The most grapheme clusters that a name may have.
pub const MAX_LENGTH: usize = 256;

/// The characters that no name may hold.
pub open spec fn is_forbidden(c: char) -> bool {
    c == '/' || c == '(' || c == ')' || c == '"' || c == '<' || c == '>' || c == '\\' || c == '{'
        || c == '}'
}

/// What makes a trimmed text a name: it is not empty, has at most
/// `MAX_LENGTH` grapheme clusters, and holds no forbidden character.
pub open spec fn name_is_valid(t: Seq<char>) -> bool {
    &&& t.len() > 0
    &&& grapheme_count(t) <= MAX_LENGTH
    &&& forall|i: int| 0 <= i < t.len() ==> !is_forbidden(#[trigger] t[i])
}

/// What follows the rejected input in the message of a `ParseNameError`.
pub open spec fn name_error_suffix() -> Seq<char> {
    " is not a valid subscriber name."@
}

/// `UnicodeSegmentation::graphemes(s, true).count()`.
/// Trusted: the result is the one that the name `grapheme_count` stands for.
#[verifier::external_body]
pub(crate) fn count_graphemes(s: &str) -> (n: usize)
    ensures
        n == grapheme_count(s@),
{
    s.graphemes(true).count()
}

/// Why a text is no name: the message names the text.
#[derive(Debug)]
pub struct ParseNameError(pub String);

impl View for ParseNameError {
    type V = Seq<char>;

    open spec fn view(&self) -> Seq<char> {
        self.0@
    }
}

impl ParseNameError {
    /// The message.
    pub fn as_str(&self) -> (s: &str)
        ensures
            s@ == self@,
    {
        self.0.as_str()
    }

    /// The message, as an owned text.
    pub fn to_string(&self) -> (s: String)
        ensures
            s@ == self@,
    {
        self.0.clone()
    }
}

/// The display name of a subscriber: trimmed, not empty, at most
/// `MAX_LENGTH` grapheme clusters, no forbidden character.
#[derive(Debug)]
pub struct Name(String);

impl View for Name {
    type V = Seq<char>;

    closed spec fn view(&self) -> Seq<char> {
        self.0@
    }
}

impl Clone for Name {
    fn clone(&self) -> (r: Self)
        ensures
            r@ == self@,
            r.wf(),
    {
        proof {
            use_type_invariant(self);
        }
        Name(self.0.clone())
    }
}

/// Whether `c` is one of the forbidden characters.
pub fn forbidden(c: char) -> (b: bool)
    ensures
        b == is_forbidden(c),
{
    c == '/' || c == '(' || c == ')' || c == '"' || c == '<' || c == '>' || c == '\\' || c == '{'
        || c == '}'
}

/// Whether `v[from..to]` holds a forbidden character.
fn holds_forbidden(v: &Vec<char>, from: usize, to: usize) -> (b: bool)
    requires
        from <= to <= v.len(),
    ensures
        b == exists|i: int| from <= i < to && is_forbidden(#[trigger] v@[i]),
{
    let mut i: usize = from;
    while i < to
        invariant
            from <= i <= to <= v.len(),
            forall|j: int| from <= j < i ==> !is_forbidden(#[trigger] v@[j]),
        decreases to - i,
    {
        if forbidden(v[i]) {
            return true;
        }
        i += 1;
    }
    false
}

impl Name {
    /// The name is trimmed and meets `name_is_valid`. Holds of every `Name`
    /// that a program can hold.
    #[verifier::type_invariant]
    pub closed spec fn wf(&self) -> bool {
        name_is_valid(self.0@) && trimmed(self.0@) == self.0@
    }

    /// Parses `s`: trims it, and gives a `Name` with the trimmed text where
    /// that is a valid name, else an error whose message is `s` followed by
    /// " is not a valid subscriber name.".
    pub fn parse(s: &str) -> (r: Result<Name, ParseNameError>)
        ensures
            r is Ok <==> name_is_valid(trimmed(s@)),
            r matches Ok(n) ==> n@ == trimmed(s@) && n.wf(),
            r matches Err(e) ==> e@ == s@ + name_error_suffix(),
            is_blank(s@) ==> r is Err,
    {
        let chars = chars_of(s);
        let (a, b) = trim_bounds(&chars);
        proof {
            lemma_trimmed(s@);
            lemma_trimmed(trimmed(s@));
        }
        if a == b {
            return Err(ParseNameError(join_text(s, " is not a valid subscriber name.")));
        }
        let t = text_of(&chars, a, b);
        let is_too_long = count_graphemes(t.as_str()) > MAX_LENGTH;
        let contains_forbidden_characters = holds_forbidden(&chars, a, b);
        if is_too_long || contains_forbidden_characters {
            proof {
                if contains_forbidden_characters {
                    let i = choose|i: int| a <= i < b && is_forbidden(#[trigger] chars@[i]);
                    assert(is_forbidden(trimmed(s@)[i - a]));
                }
            }
            Err(ParseNameError(join_text(s, " is not a valid subscriber name.")))
        } else {
            proof {
                assert forall|i: int| 0 <= i < t@.len() implies !is_forbidden(#[trigger] t@[i]) by {
                    assert(t@[i] == chars@[a + i]);
                }
                lemma_trim_of_inked(t@);
            }
            Ok(Name(t))
        }
    }

    /// The name as text.
    pub fn as_str(&self) -> (s: &str)
        ensures
            s@ == self@,
            name_is_valid(s@),
            trimmed(s@) == s@,
            self.wf(),
    {
        proof {
            use_type_invariant(self);
        }
        self.0.as_str()
    }
}

/// A text that begins and ends with ink is its own trimmed form.
pub proof fn lemma_trim_of_inked(t: Seq<char>)
    requires
        t.len() > 0,
        !crate::text::is_whitespace(t.first()),
        !crate::text::is_whitespace(t.last()),
    ensures
        trimmed(t) == t,
{
    assert(crate::text::first_ink(t, 0) == 0);
    assert(crate::text::ink_end(t, t.len() as int) == t.len());
    assert(t.subrange(0, t.len() as int) =~= t);
}

} // verus!
