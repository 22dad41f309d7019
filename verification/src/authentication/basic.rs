//! The `Basic` scheme of HTTP authentication: reading the credentials from
//! the `Authorization` header, and asking for them.

use crate::authentication::credentials::Credentials;
use crate::http::{headers_view, HeaderPair, HeaderPairView};
use crate::text::{chars_of, same_text, text_of};
use base64::Engine;
use vstd::prelude::*;
use vstd::string::StrSliceExecFns;

verus! {

/// The bytes that `base64::Engine::decode` of the standard engine makes of
/// `s`, or `None` where it refuses `s`.
pub uninterp spec fn base64_decoded(s: Seq<char>) -> Option<Seq<u8>>;

/// `base64::Engine::decode` on `base64::engine::general_purpose::STANDARD`.
/// Trusted: the result is the one that the name `base64_decoded` stands for.
#[verifier::external_body]
pub(crate) fn decode_base64(s: &str) -> (r: Option<Vec<u8>>)
    ensures
        r matches Some(bytes) ==> base64_decoded(s@) == Some(bytes@),
        r is None ==> base64_decoded(s@) is None,
{
    base64::engine::general_purpose::STANDARD.decode(s).ok()
}

/// `String::from_utf8`: the text that the bytes encode.
/// Trusted: it succeeds exactly where the bytes are valid UTF-8, and the text
/// is then the one that they encode.
#[verifier::external_body]
pub(crate) fn string_from_utf8(bytes: Vec<u8>) -> (r: Option<String>)
    ensures
        r is Some <==> vstd::utf8::valid_utf8(bytes@),
        r matches Some(s) ==> s@ == vstd::utf8::decode_utf8(bytes@),
{
    String::from_utf8(bytes).ok()
}

/// The `Authorization` header of a request, as far as it can be read.
#[derive(Debug)]
pub enum AuthorizationHeader {
    /// There is no such header.
    Missing,
    /// The value of the header is no text.
    NotText,
    /// The value of the header.
    Value(String),
}

/// Why a request carries no usable credentials.
#[derive(Debug, Clone, Copy, PartialEq, Eq, Structural)]
pub enum BasicAuthError {
    MissingHeader,
    HeaderNotText,
    NotBasic,
    NotBase64,
    NotUtf8,
    MissingPassword,
}

impl BasicAuthError {
    /// The message of the error.
    pub fn to_string(&self) -> (s: String)
        ensures
            s@ == match *self {
                BasicAuthError::MissingHeader => "The 'Authorization' header was missing"@,
                BasicAuthError::HeaderNotText =>
                    "The 'Authorization' header was not a valid UTF-8 string"@,
                BasicAuthError::NotBasic => "The authorization scheme was not 'Basic'"@,
                BasicAuthError::NotBase64 => "Failed to decode base64 'Basic' credentials"@,
                BasicAuthError::NotUtf8 => "The decoded credential string is not valid UTF-8"@,
                BasicAuthError::MissingPassword => "A password must be provided in 'Basic' auth."@,
            },
    {
        match self {
            BasicAuthError::MissingHeader => "The 'Authorization' header was missing".to_owned(),
            BasicAuthError::HeaderNotText => "The 'Authorization' header was not a valid UTF-8 string".to_owned(),
            BasicAuthError::NotBasic => "The authorization scheme was not 'Basic'".to_owned(),
            BasicAuthError::NotBase64 => "Failed to decode base64 'Basic' credentials".to_owned(),
            BasicAuthError::NotUtf8 => "The decoded credential string is not valid UTF-8".to_owned(),
            BasicAuthError::MissingPassword => "A password must be provided in 'Basic' auth.".to_owned(),
        }
    }
}

/// Index of the first `:` of `s` at or after `from`; the length of `s` where
/// there is none.
pub open spec fn first_colon(s: Seq<char>, from: int) -> int
    decreases s.len() - from,
{
    if from < 0 || from >= s.len() {
        s.len() as int
    } else if s[from] == ':' {
        from
    } else {
        first_colon(s, from + 1)
    }
}

/// The credentials that a header carries: the value is `Basic `, then the
/// base64 encoding of a UTF-8 text; the user name is what stands before the
/// first `:` of that text, the password what stands after it.
pub open spec fn basic_credentials(header: AuthorizationHeader) -> Result<
    (Seq<char>, Seq<char>),
    BasicAuthError,
> {
    match header {
        AuthorizationHeader::Missing => Err(BasicAuthError::MissingHeader),
        AuthorizationHeader::NotText => Err(BasicAuthError::HeaderNotText),
        AuthorizationHeader::Value(value) => if !(value@.len() >= 6 && value@.subrange(0, 6)
            == "Basic "@) {
            Err(BasicAuthError::NotBasic)
        } else {
            match base64_decoded(value@.subrange(6, value@.len() as int)) {
                None => Err(BasicAuthError::NotBase64),
                Some(bytes) => if !vstd::utf8::valid_utf8(bytes) {
                    Err(BasicAuthError::NotUtf8)
                } else {
                    let text = vstd::utf8::decode_utf8(bytes);
                    let colon = first_colon(text, 0);
                    if colon >= text.len() {
                        Err(BasicAuthError::MissingPassword)
                    } else {
                        Ok((text.subrange(0, colon), text.subrange(colon + 1, text.len() as int)))
                    }
                },
            }
        },
    }
}

/// Reads the credentials from the `Authorization` header of a request.
pub fn retrieve_basic_auth(header: AuthorizationHeader) -> (r: Result<Credentials, BasicAuthError>)
    ensures
        match basic_credentials(header) {
            Ok(pair) => r matches Ok(c) && c.username@ == pair.0 && c.password@ == pair.1,
            Err(e) => r matches Err(refused) && refused == e,
        },
{
    let value = match header {
        AuthorizationHeader::Missing => {
            return Err(BasicAuthError::MissingHeader);
        },
        AuthorizationHeader::NotText => {
            return Err(BasicAuthError::HeaderNotText);
        },
        AuthorizationHeader::Value(value) => value,
    };
    let chars = chars_of(value.as_str());
    if chars.len() < 6 {
        return Err(BasicAuthError::NotBasic);
    }
    let scheme = text_of(&chars, 0, 6);
    if !same_text(scheme.as_str(), "Basic ") {
        return Err(BasicAuthError::NotBasic);
    }
    let base64_segment = text_of(&chars, 6, chars.len());
    let decoded_bytes = match decode_base64(base64_segment.as_str()) {
        Some(bytes) => bytes,
        None => {
            return Err(BasicAuthError::NotBase64);
        },
    };
    let decoded_credentials = match string_from_utf8(decoded_bytes) {
        Some(text) => text,
        None => {
            return Err(BasicAuthError::NotUtf8);
        },
    };
    let text = chars_of(decoded_credentials.as_str());
    let mut colon: usize = 0;
    while colon < text.len() && text[colon] != ':'
        invariant
            colon <= text.len(),
            first_colon(text@, 0) == first_colon(text@, colon as int),
        decreases text.len() - colon,
    {
        colon += 1;
    }
    if colon >= text.len() {
        return Err(BasicAuthError::MissingPassword);
    }
    let username = text_of(&text, 0, colon);
    let password = text_of(&text, colon + 1, text.len());
    Ok(Credentials { username, password })
}

/// The headers `h` without those named `name`.
pub open spec fn without_header(h: Seq<HeaderPairView>, name: Seq<char>) -> Seq<HeaderPairView>
    decreases h.len(),
{
    if h.len() == 0 {
        Seq::empty()
    } else if h.last().name == name {
        without_header(h.drop_last(), name)
    } else {
        without_header(h.drop_last(), name).push(h.last())
    }
}

/// The header that asks a client for `Basic` credentials.
pub open spec fn challenge() -> HeaderPairView {
    HeaderPairView {
        name: "www-authenticate"@,
        value: vstd::utf8::encode_utf8("Basic realm=\"publish\""@),
    }
}

/// Sets the header `www-authenticate` to `Basic realm="publish"`: whatever
/// stood under that name is replaced.
pub fn add_basic_auth_header(headers: &mut Vec<HeaderPair>)
    ensures
        headers_view(final(headers)@) == without_header(
            headers_view(old(headers)@),
            "www-authenticate"@,
        ).push(challenge()),
{
    let ghost before = headers_view(headers@);
    let mut kept: Vec<HeaderPair> = Vec::new();
    let mut i: usize = 0;
    assert(before.take(0) =~= Seq::empty());
    assert(headers_view(kept@) =~= Seq::<HeaderPairView>::empty());
    while i < headers.len()
        invariant
            i <= headers.len(),
            headers_view(headers@) == before,
            headers_view(kept@) == without_header(before.take(i as int), "www-authenticate"@),
        decreases headers.len() - i,
    {
        proof {
            let next = before.take(i + 1);
            assert(next.drop_last() =~= before.take(i as int));
            assert(next.last() == before[i as int]);
            assert(before[i as int] == headers@[i as int]@);
        }
        if !same_text(headers[i].name.as_str(), "www-authenticate") {
            let header = headers[i].clone();
            assert(headers_view(kept@.push(header)) =~= headers_view(kept@).push(header@));
            kept.push(header);
        }
        i += 1;
    }
    assert(before.take(i as int) =~= before);
    let header = HeaderPair {
        name: "www-authenticate".to_owned(),
        value: "Basic realm=\"publish\"".as_bytes_vec(),
    };
    assert(headers_view(kept@.push(header)) =~= headers_view(kept@).push(header@));
    kept.push(header);
    *headers = kept;
}

} // verus!
