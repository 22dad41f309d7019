//! URLs. A `Url` holds the text that `reqwest::Url` gives a parsed URL; what
//! only that type can tell of a URL is asked of it, on the text, which it
//! parses again.

use vstd::prelude::*;

verus! {

/// What `reqwest::Url::parse` makes of `s`: the text of the URL (its
/// serialization), or the message of the error.
pub uninterp spec fn url_parsed(s: Seq<char>) -> Result<Seq<char>, Seq<char>>;

/// What `reqwest::Url::join` makes of `input` on the URL that is parsed from
/// `base`: the text of the resulting URL, or the message of the error.
pub uninterp spec fn url_joined(base: Seq<char>, input: Seq<char>) -> Result<
    Seq<char>,
    Seq<char>,
>;

/// The text of the URL that is parsed from `url` after
/// `reqwest::Url::set_query` with `query`.
pub uninterp spec fn url_with_query(url: Seq<char>, query: Option<Seq<char>>) -> Seq<char>;

/// What `reqwest::Url::host_str` gives for the URL that is parsed from `url`.
pub uninterp spec fn url_host(url: Seq<char>) -> Option<Seq<char>>;

/// What `reqwest::Url::path` gives for the URL that is parsed from `url`.
pub uninterp spec fn url_path(url: Seq<char>) -> Seq<char>;

/// The pairs of name and value that `reqwest::Url::query_pairs` yields for the
/// URL that is parsed from `url`, in order.
pub uninterp spec fn url_query_pairs(url: Seq<char>) -> Seq<(Seq<char>, Seq<char>)>;

/// The outcome of a parse that gave the URL with the text `t`.
pub open spec fn parsed(t: Seq<char>) -> Result<Seq<char>, Seq<char>> {
    Ok(t)
}

/// The outcome of a parse that failed with the message `e`.
pub open spec fn refused(e: Seq<char>) -> Result<Seq<char>, Seq<char>> {
    Err(e)
}

/// The view of an optional text.
pub open spec fn opt_text(t: Option<&str>) -> Option<Seq<char>> {
    match t {
        Some(t) => Some(t@),
        None => None,
    }
}

/// `reqwest::Url::parse`, then the URL's text or the error's message.
/// Trusted: the result is the one that the name `url_parsed` stands for.
#[verifier::external_body]
pub(crate) fn parse_url(s: &str) -> (r: Result<String, String>)
    ensures
        r matches Ok(t) ==> url_parsed(s@) == parsed(t@),
        r matches Err(e) ==> url_parsed(s@) == refused(e@),
{
    match reqwest::Url::parse(s) {
        Ok(url) => Ok(String::from(url)),
        Err(e) => Err(e.to_string()),
    }
}

/// `reqwest::Url::join` on the URL that is parsed from `base`, then the new
/// URL's text or the error's message; where `base` is no URL, the message of
/// that error.
/// Trusted: the result is the one that the name `url_joined` stands for.
#[verifier::external_body]
pub(crate) fn join_url(base: &str, input: &str) -> (r: Result<String, String>)
    ensures
        r matches Ok(t) ==> url_joined(base@, input@) == parsed(t@),
        r matches Err(e) ==> url_joined(base@, input@) == refused(e@),
{
    match reqwest::Url::parse(base) {
        Ok(base) => match base.join(input) {
            Ok(url) => Ok(String::from(url)),
            Err(e) => Err(e.to_string()),
        },
        Err(e) => Err(e.to_string()),
    }
}

/// `reqwest::Url::set_query` on the URL that is parsed from `url`, then its
/// text; where `url` is no URL, `url` as it is.
/// Trusted: the result is the one that the name `url_with_query` stands for.
#[verifier::external_body]
pub(crate) fn set_url_query(url: &str, query: Option<&str>) -> (r: String)
    ensures
        r@ == url_with_query(url@, opt_text(query)),
{
    match reqwest::Url::parse(url) {
        Ok(mut parsed) => {
            parsed.set_query(query);
            String::from(parsed)
        },
        Err(_) => url.to_owned(),
    }
}

/// `reqwest::Url::host_str` on the URL that is parsed from `url`; `None`
/// where `url` is no URL.
/// Trusted: the result is the one that the name `url_host` stands for.
#[verifier::external_body]
pub(crate) fn host_of_url(url: &str) -> (r: Option<String>)
    ensures
        r matches Some(h) ==> url_host(url@) == Some(h@),
        r is None ==> url_host(url@) is None,
{
    match reqwest::Url::parse(url) {
        Ok(parsed) => parsed.host_str().map(String::from),
        Err(_) => None,
    }
}

/// `reqwest::Url::path` on the URL that is parsed from `url`; the empty text
/// where `url` is no URL.
/// Trusted: the result is the one that the name `url_path` stands for.
#[verifier::external_body]
pub(crate) fn path_of_url(url: &str) -> (r: String)
    ensures
        r@ == url_path(url@),
{
    match reqwest::Url::parse(url) {
        Ok(parsed) => String::from(parsed.path()),
        Err(_) => String::new(),
    }
}

/// `reqwest::Url::query_pairs` on the URL that is parsed from `url`, each
/// pair as two owned texts; no pair where `url` is no URL.
/// Trusted: the result is the one that the name `url_query_pairs` stands for.
#[verifier::external_body]
pub(crate) fn query_pairs_of_url(url: &str) -> (r: Vec<(String, String)>)
    ensures
        r@.len() == url_query_pairs(url@).len(),
        forall|i: int|
            0 <= i < r@.len() ==> (#[trigger] r@[i]).0@ == url_query_pairs(url@)[i].0 && r@[i].1@
                == url_query_pairs(url@)[i].1,
{
    match reqwest::Url::parse(url) {
        Ok(parsed) => parsed.query_pairs().map(|(k, v)| (k.to_string(), v.to_string())).collect(),
        Err(_) => Vec::new(),
    }
}

/// Why a text is no URL: the message of the parser.
#[derive(Debug)]
pub struct ParseUrlError(pub String);

impl View for ParseUrlError {
    type V = Seq<char>;

    open spec fn view(&self) -> Seq<char> {
        self.0@
    }
}

impl ParseUrlError {
    /// The message.
    pub fn as_str(&self) -> (s: &str)
        ensures
            s@ == self@,
    {
        self.0.as_str()
    }

    /// The message, as an owned text.
    pub fn to_string(&self) -> (s: String)
        ensures
            s@ == self@,
    {
        self.0.clone()
    }
}

/// A URL, held as its text: the text that the parser gave it when it was
/// made, by `parse`, `join` or `set_query`.
#[derive(Debug)]
pub struct Url(String);

impl View for Url {
    type V = Seq<char>;

    closed spec fn view(&self) -> Seq<char> {
        self.0@
    }
}

impl Clone for Url {
    fn clone(&self) -> (r: Self)
        ensures
            r@ == self@,
    {
        Url(self.0.clone())
    }
}

impl Url {
    /// Parses `s`: the URL that the parser makes of it, or an error with the
    /// parser's message.
    pub fn parse(s: &str) -> (r: Result<Url, ParseUrlError>)
        ensures
            r matches Ok(u) ==> url_parsed(s@) == parsed(u@),
            r matches Err(e) ==> url_parsed(s@) == refused(e@),
    {
        match parse_url(s) {
            Ok(t) => Ok(Url(t)),
            Err(e) => Err(ParseUrlError(e)),
        }
    }

    /// Resolves `s` against this URL as its base: the resulting URL, or an
    /// error with the parser's message.
    pub fn join(&self, s: &str) -> (r: Result<Url, ParseUrlError>)
        ensures
            r matches Ok(u) ==> url_joined(self@, s@) == parsed(u@),
            r matches Err(e) ==> url_joined(self@, s@) == refused(e@),
    {
        match join_url(self.0.as_str(), s) {
            Ok(t) => Ok(Url(t)),
            Err(e) => Err(ParseUrlError(e)),
        }
    }

    /// Replaces the query of this URL by `query`, or removes it where `query`
    /// is `None`.
    pub fn set_query(&mut self, query: Option<&str>)
        ensures
            final(self)@ == url_with_query(old(self)@, opt_text(query)),
    {
        let t = set_url_query(self.0.as_str(), query);
        self.0 = t;
    }

    /// The URL as text.
    pub fn as_str(&self) -> (s: &str)
        ensures
            s@ == self@,
    {
        self.0.as_str()
    }

    /// The URL as an owned text.
    pub fn to_string(&self) -> (s: String)
        ensures
            s@ == self@,
    {
        self.0.clone()
    }

    /// The host of the URL, where it has one.
    pub fn host_str(&self) -> (r: Option<String>)
        ensures
            r matches Some(h) ==> url_host(self@) == Some(h@),
            r is None ==> url_host(self@) is None,
    {
        host_of_url(self.0.as_str())
    }

    /// The path of the URL.
    pub fn path(&self) -> (r: String)
        ensures
            r@ == url_path(self@),
    {
        path_of_url(self.0.as_str())
    }

    /// The pairs of name and value in the query of the URL, in order.
    pub fn query_params(&self) -> (r: Vec<(String, String)>)
        ensures
            r@.len() == url_query_pairs(self@).len(),
            forall|i: int|
                0 <= i < r@.len() ==> (#[trigger] r@[i]).0@ == url_query_pairs(self@)[i].0
                    && r@[i].1@ == url_query_pairs(self@)[i].1,
    {
        query_pairs_of_url(self.0.as_str())
    }
}

} // verus!
