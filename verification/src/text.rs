//! Helpers on text: the characters of a string, white space and trimming,
//! comparison and lower case.

use vstd::prelude::*;

verus! {

/// Whether `char::is_whitespace` of the standard library holds of `c`.
pub uninterp spec fn is_whitespace(c: char) -> bool;

/// The lower-case form that `str::to_lowercase` of the standard library gives `s`.
pub uninterp spec fn lowercase(s: Seq<char>) -> Seq<char>;

/// Every character of `s` is ASCII.
pub open spec fn all_ascii(s: Seq<char>) -> bool {
    forall|i: int| 0 <= i < s.len() ==> (#[trigger] s[i]) as u32 <= 127
}

/// `c` in lower case, where `c` is ASCII.
pub open spec fn ascii_lower(c: char) -> char {
    if 'A' <= c && c <= 'Z' {
        ((c as u32 + 32) as u8) as char
    } else {
        c
    }
}

/// `s` in lower case: where `s` is ASCII, each letter from `A` to `Z`
/// replaced by its small letter; otherwise what the standard library makes of
/// it.
pub open spec fn folded(s: Seq<char>) -> Seq<char> {
    if all_ascii(s) {
        Seq::new(s.len(), |i: int| ascii_lower(s[i]))
    } else {
        lowercase(s)
    }
}

/// A text of small ASCII letters, digits and other ASCII characters that are
/// no capital letters is its own lower-case form.
pub proof fn lemma_folded_plain(s: Seq<char>)
    requires
        all_ascii(s),
        forall|i: int| 0 <= i < s.len() ==> !('A' <= #[trigger] s[i] && s[i] <= 'Z'),
    ensures
        folded(s) == s,
{
    assert(folded(s) =~= s);
}

/// Index of the first character at or after `from` that is not white space;
/// the length of `s` where there is none.
pub open spec fn first_ink(s: Seq<char>, from: int) -> int
    decreases s.len() - from,
{
    if from < 0 || from >= s.len() {
        s.len() as int
    } else if !is_whitespace(s[from]) {
        from
    } else {
        first_ink(s, from + 1)
    }
}

/// One past the last character before `to` that is not white space; 0 where
/// there is none.
pub open spec fn ink_end(s: Seq<char>, to: int) -> int
    decreases to,
{
    if to <= 0 || to > s.len() {
        0
    } else if !is_whitespace(s[to - 1]) {
        to
    } else {
        ink_end(s, to - 1)
    }
}

/// `s` without its leading and trailing white space.
pub open spec fn trimmed(s: Seq<char>) -> Seq<char> {
    let a = first_ink(s, 0);
    let b = ink_end(s, s.len() as int);
    if a < b {
        s.subrange(a, b)
    } else {
        Seq::empty()
    }
}

/// Every character of `s` is white space (so also: `s` is empty).
pub open spec fn is_blank(s: Seq<char>) -> bool {
    forall|i: int| 0 <= i < s.len() ==> is_whitespace(#[trigger] s[i])
}

/// `first_ink` stays within `from ..= len`, everything it skips is white
/// space, and where it stops short of the end it stops on ink.
pub proof fn lemma_first_ink(s: Seq<char>, from: int)
    requires
        0 <= from <= s.len(),
    ensures
        from <= first_ink(s, from) <= s.len(),
        forall|i: int| from <= i < first_ink(s, from) ==> is_whitespace(#[trigger] s[i]),
        first_ink(s, from) < s.len() ==> !is_whitespace(s[first_ink(s, from)]),
    decreases s.len() - from,
{
    if from < s.len() && is_whitespace(s[from]) {
        lemma_first_ink(s, from + 1);
    }
}

/// `ink_end` stays within `0 ..= to`, everything after it is white space, and
/// where it is not 0 the character before it is ink.
pub proof fn lemma_ink_end(s: Seq<char>, to: int)
    requires
        0 <= to <= s.len(),
    ensures
        0 <= ink_end(s, to) <= to,
        forall|i: int| ink_end(s, to) <= i < to ==> is_whitespace(#[trigger] s[i]),
        ink_end(s, to) > 0 ==> !is_whitespace(s[ink_end(s, to) - 1]),
    decreases to,
{
    if to > 0 && is_whitespace(s[to - 1]) {
        lemma_ink_end(s, to - 1);
    }
}

/// Trimming leaves nothing exactly of a blank text, and what it leaves
/// begins and ends with ink.
pub proof fn lemma_trimmed(s: Seq<char>)
    ensures
        trimmed(s).len() == 0 <==> is_blank(s),
        trimmed(s).len() <= s.len(),
        trimmed(s).len() > 0 ==> !is_whitespace(trimmed(s).first()) && !is_whitespace(
            trimmed(s).last(),
        ),
        trimmed(s).len() > 0 ==> first_ink(s, 0) < ink_end(s, s.len() as int) && trimmed(s)
            == s.subrange(first_ink(s, 0), ink_end(s, s.len() as int)),
{
    lemma_first_ink(s, 0);
    lemma_ink_end(s, s.len() as int);
    let a = first_ink(s, 0);
    let b = ink_end(s, s.len() as int);
    if a < b {
        assert(!is_blank(s)) by {
            assert(!is_whitespace(s[a]));
        }
    } else {
        assert(is_blank(s)) by {
            assert forall|i: int| 0 <= i < s.len() implies is_whitespace(#[trigger] s[i]) by {
                if i < a {
                } else {
                    assert(b <= i);
                }
            }
        }
    }
}

/// `char::is_whitespace`: whether `c` has the Unicode property White_Space.
/// Trusted: the result is the one that the name `is_whitespace` stands for.
#[verifier::external_body]
pub(crate) fn char_is_whitespace(c: char) -> (b: bool)
    ensures
        b == is_whitespace(c),
{
    c.is_whitespace()
}

/// `str::to_lowercase`: the lower-case form of `s`.
/// Trusted: of an ASCII text, the result is the text with each letter from
/// `A` to `Z` replaced by its small letter; of any other text, it is the one
/// that the name `lowercase` stands for.
#[verifier::external_body]
pub(crate) fn to_lowercase(s: &str) -> (r: String)
    ensures
        r@ == if all_ascii(s@) {
            folded(s@)
        } else {
            lowercase(s@)
        },
{
    s.to_lowercase()
}

/// `String::push`: appends one character.
/// Trusted: the text afterwards is the text before with `c` at its end.
#[verifier::external_body]
pub(crate) fn push_char(s: &mut String, c: char)
    ensures
        final(s)@ == old(s)@.push(c),
{
    s.push(c)
}

/// The characters of `s`, in order.
pub fn chars_of(s: &str) -> (v: Vec<char>)
    ensures
        v@ == s@,
{
    let mut v: Vec<char> = Vec::new();
    for c in it: s.chars()
        invariant
            v@ == it.seq().take(it.index() as int),
    {
        v.push(c);
    }
    v
}

/// The text made of the characters `v[from..to]`.
pub(crate) fn text_of(v: &Vec<char>, from: usize, to: usize) -> (s: String)
    requires
        from <= to <= v.len(),
    ensures
        s@ == v@.subrange(from as int, to as int),
{
    let mut s = String::new();
    let mut i: usize = from;
    while i < to
        invariant
            from <= i <= to <= v.len(),
            s@ == v@.subrange(from as int, i as int),
        decreases to - i,
    {
        push_char(&mut s, v[i]);
        i += 1;
        assert(v@.subrange(from as int, i as int) == v@.subrange(from as int, i - 1).push(
            v@[i - 1],
        ));
    }
    s
}

/// Whether two texts hold the same characters.
pub fn same_text(a: &str, b: &str) -> (r: bool)
    ensures
        r == (a@ == b@),
{
    let x = chars_of(a);
    let y = chars_of(b);
    if x.len() != y.len() {
        return false;
    }
    let mut i: usize = 0;
    while i < x.len()
        invariant
            i <= x.len() == y.len(),
            x@ == a@,
            y@ == b@,
            forall|j: int| 0 <= j < i ==> x@[j] == y@[j],
        decreases x.len() - i,
    {
        if x[i] != y[i] {
            return false;
        }
        i += 1;
    }
    assert(x@ =~= y@);
    true
}

/// `a` followed by `b`.
pub fn join_text(a: &str, b: &str) -> (r: String)
    ensures
        r@ == a@ + b@,
{
    let mut r = a.to_owned();
    r.append(b);
    r
}

/// The bounds `(a, b)` of what trimming leaves of `v`: `v[a..b]` is the
/// trimmed text, and `a == b` where `v` is blank.
pub fn trim_bounds(v: &Vec<char>) -> (r: (usize, usize))
    ensures
        r.0 <= r.1 <= v.len(),
        v@.subrange(r.0 as int, r.1 as int) == trimmed(v@),
        r.0 == r.1 <==> is_blank(v@),
{
    let n = v.len();
    let mut a: usize = 0;
    while a < n && char_is_whitespace(v[a])
        invariant
            a <= n == v.len(),
            first_ink(v@, 0) == first_ink(v@, a as int),
        decreases n - a,
    {
        a += 1;
    }
    let mut b: usize = n;
    while b > a && char_is_whitespace(v[b - 1])
        invariant
            a <= b <= n == v.len(),
            a < n ==> a < b && !is_whitespace(v@[a as int]),
            ink_end(v@, n as int) == ink_end(v@, b as int),
        decreases b,
    {
        b -= 1;
    }
    proof {
        lemma_first_ink(v@, 0);
        lemma_ink_end(v@, n as int);
        lemma_trimmed(v@);
        if a < n {
            assert(first_ink(v@, a as int) == a);
        } else {
            assert(first_ink(v@, a as int) == n);
        }
        if b > a {
            assert(ink_end(v@, b as int) == b);
        }
        if a == b {
            assert(v@.subrange(a as int, b as int) =~= Seq::<char>::empty());
        }
    }
    (a, b)
}

} // verus!
