//! Responses as plain values: a status code, headers as pairs of a name and
//! raw bytes, and a body.

use vstd::prelude::*;
use vstd::string::StrSliceExecFns;

verus! {

pub const OK: u16 = 200;

pub const SEE_OTHER: u16 = 303;

pub const UNAUTHORIZED: u16 = 401;

pub const CONFLICT: u16 = 409;

pub const UNPROCESSABLE_ENTITY: u16 = 422;

pub const INTERNAL_SERVER_ERROR: u16 = 500;

/// The codes that are HTTP status codes: 100 to 999.
pub open spec fn is_status_code(code: int) -> bool {
    100 <= code <= 999
}

/// The codes that report success: 200 to 299.
pub open spec fn is_success(code: int) -> bool {
    200 <= code <= 299
}

/// A header of a response: its name, and its value as raw bytes, so that a
/// value that is not UTF-8 is kept as it is.
#[derive(Debug)]
pub struct HeaderPair {
    pub name: String,
    pub value: Vec<u8>,
}

/// A `HeaderPair` as mathematics.
pub struct HeaderPairView {
    pub name: Seq<char>,
    pub value: Seq<u8>,
}

impl View for HeaderPair {
    type V = HeaderPairView;

    open spec fn view(&self) -> HeaderPairView {
        HeaderPairView { name: self.name@, value: self.value@ }
    }
}

impl Clone for HeaderPair {
    fn clone(&self) -> (r: Self)
        ensures
            r@ == self@,
    {
        HeaderPair { name: self.name.clone(), value: copy_bytes(&self.value) }
    }
}

/// The headers `h` as mathematics.
pub open spec fn headers_view(h: Seq<HeaderPair>) -> Seq<HeaderPairView> {
    Seq::new(h.len(), |i: int| h[i]@)
}

/// A copy of `v`.
pub fn copy_bytes(v: &Vec<u8>) -> (r: Vec<u8>)
    ensures
        r@ == v@,
{
    let mut r: Vec<u8> = Vec::new();
    let mut i: usize = 0;
    while i < v.len()
        invariant
            i <= v.len(),
            r@ == v@.take(i as int),
        decreases v.len() - i,
    {
        r.push(v[i]);
        i += 1;
        assert(v@.take(i as int) == v@.take(i - 1).push(v@[i - 1]));
    }
    r
}

/// A copy of the headers `h`.
pub fn copy_headers(h: &Vec<HeaderPair>) -> (r: Vec<HeaderPair>)
    ensures
        headers_view(r@) == headers_view(h@),
{
    let mut r: Vec<HeaderPair> = Vec::new();
    let mut i: usize = 0;
    while i < h.len()
        invariant
            i <= h.len(),
            r@.len() == i,
            forall|j: int| 0 <= j < i ==> (#[trigger] r@[j])@ == h@[j]@,
        decreases h.len() - i,
    {
        r.push(h[i].clone());
        i += 1;
    }
    assert(headers_view(r@) =~= headers_view(h@));
    r
}

/// A response: status code, headers, body.
#[derive(Debug)]
pub struct Response {
    pub status: u16,
    pub headers: Vec<HeaderPair>,
    pub body: Vec<u8>,
}

/// A `Response` as mathematics.
pub struct ResponseView {
    pub status: u16,
    pub headers: Seq<HeaderPairView>,
    pub body: Seq<u8>,
}

impl View for Response {
    type V = ResponseView;

    open spec fn view(&self) -> ResponseView {
        ResponseView {
            status: self.status,
            headers: headers_view(self.headers@),
            body: self.body@,
        }
    }
}

impl Clone for Response {
    fn clone(&self) -> (r: Self)
        ensures
            r@ == self@,
    {
        Response {
            status: self.status,
            headers: copy_headers(&self.headers),
            body: copy_bytes(&self.body),
        }
    }
}

/// A response whose code is a status code.
pub open spec fn response_valid(r: ResponseView) -> bool {
    is_status_code(r.status as int)
}

/// The response that sends the client to `location`: 303, one header
/// `location`, no body.
pub open spec fn redirect_view(location: Seq<char>) -> ResponseView {
    ResponseView {
        status: SEE_OTHER,
        headers: seq![
            HeaderPairView { name: "location"@, value: vstd::utf8::encode_utf8(location) },
        ],
        body: Seq::empty(),
    }
}

impl Response {
    /// The response that sends the client to `location` with "303 See Other".
    pub fn redirect(location: &str) -> (r: Response)
        ensures
            r@ == redirect_view(location@),
    {
        let mut headers: Vec<HeaderPair> = Vec::new();
        headers.push(HeaderPair { name: "location".to_owned(), value: location.as_bytes_vec() });
        let r = Response { status: SEE_OTHER, headers, body: Vec::new() };
        assert(r@.headers =~= redirect_view(location@).headers);
        r
    }

    /// The `location` that a redirect names: the value of the first header
    /// called `location`, where there is one.
    pub fn location(&self) -> (r: Option<Vec<u8>>)
        ensures
            r matches Some(v) ==> exists|i: int|
                {
                    &&& 0 <= i < self@.headers.len()
                    &&& (#[trigger] self@.headers[i]).name == "location"@
                    &&& self@.headers[i].value == v@
                    &&& forall|j: int|
                        0 <= j < i ==> (#[trigger] self@.headers[j]).name != "location"@
                },
            r is None ==> forall|i: int|
                0 <= i < self@.headers.len() ==> (#[trigger] self@.headers[i]).name != "location"@,
    {
        let mut i: usize = 0;
        while i < self.headers.len()
            invariant
                i <= self.headers.len(),
                forall|j: int| 0 <= j < i ==> (#[trigger] self@.headers[j]).name != "location"@,
            decreases self.headers.len() - i,
        {
            if crate::text::same_text(self.headers[i].name.as_str(), "location") {
                let v = copy_bytes(&self.headers[i].value);
                assert(self@.headers[i as int].value == v@);
                return Some(v);
            }
            i += 1;
        }
        None
    }
}

/// Whether `code` is a status code.
pub fn status_is_valid(code: u16) -> (b: bool)
    ensures
        b == is_status_code(code as int),
{
    100 <= code && code <= 999
}

/// The two kinds of message that one request leaves for the next page.
#[derive(Debug, Clone, Copy, PartialEq, Eq, Structural)]
pub enum Level {
    Success,
    Error,
}

/// A message that one request leaves for the next page.
#[derive(Debug)]
pub struct Flash {
    pub level: Level,
    pub message: String,
}

/// A `Flash` as mathematics.
pub struct FlashView {
    pub level: Level,
    pub message: Seq<char>,
}

impl View for Flash {
    type V = FlashView;

    open spec fn view(&self) -> FlashView {
        FlashView { level: self.level, message: self.message@ }
    }
}

impl Flash {
    /// A message of success.
    pub fn success(message: &str) -> (f: Flash)
        ensures
            f@ == (FlashView { level: Level::Success, message: message@ }),
    {
        Flash { level: Level::Success, message: message.to_owned() }
    }

    /// A message of failure.
    pub fn error(message: &str) -> (f: Flash)
        ensures
            f@ == (FlashView { level: Level::Error, message: message@ }),
    {
        Flash { level: Level::Error, message: message.to_owned() }
    }
}

} // verus!
