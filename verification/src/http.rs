//! A plain-value description of one HTTP exchange with the Obsidian Local
//! REST API: the request the library decides to send and the reply it is
//! handed back. Sending is done by the caller.
use vstd::prelude::*;

verus! {

/// HTTP method of a request.
#[derive(Debug, Clone, Copy, PartialEq, Eq, Structural)]
pub enum Method {
    Get,
    Put,
    Post,
    Patch,
    Delete,
}

/// One name/value pair (a header, or a URL query parameter).
#[derive(Debug, Clone)]
pub struct Header {
    pub name: String,
    pub value: String,
}

impl View for Header {
    type V = (Seq<char>, Seq<char>);

    open spec fn view(&self) -> (Seq<char>, Seq<char>) {
        (self.name@, self.value@)
    }
}

/// Builds a name/value pair.
pub fn header(name: &str, value: &str) -> (h: Header)
    ensures
        h@ == (name@, value@),
{
    Header { name: String::from_str(name), value: String::from_str(value) }
}

/// The views of a list of pairs.
pub open spec fn pairs_view(v: Seq<Header>) -> Seq<(Seq<char>, Seq<char>)> {
    v.map_values(|h: Header| h@)
}

/// Appends the pair `(name, value)` to a list of pairs.
pub fn push_pair(v: &mut Vec<Header>, name: &str, value: &str)
    ensures
        pairs_view(final(v)@) == pairs_view(old(v)@).push((name@, value@)),
{
    v.push(header(name, value));
    assert(pairs_view(v@) =~= pairs_view(old(v)@).push((name@, value@)));
}

/// An empty list of pairs.
pub fn no_pairs() -> (v: Vec<Header>)
    ensures
        pairs_view(v@) == Seq::<(Seq<char>, Seq<char>)>::empty(),
{
    let v: Vec<Header> = Vec::new();
    assert(pairs_view(v@) =~= Seq::<(Seq<char>, Seq<char>)>::empty());
    v
}

/// A request to send: method, absolute URL, URL query pairs, headers in the
/// order they are set, and an optional body.
#[derive(Debug, Clone)]
pub struct HttpRequest {
    pub method: Method,
    pub url: String,
    pub query: Vec<Header>,
    pub headers: Vec<Header>,
    pub body: Option<String>,
}

/// The mathematical value of an [`HttpRequest`].
#[verifier::ext_equal]
pub struct RequestView {
    pub method: Method,
    pub url: Seq<char>,
    pub query: Seq<(Seq<char>, Seq<char>)>,
    pub headers: Seq<(Seq<char>, Seq<char>)>,
    pub body: Option<Seq<char>>,
}

impl View for HttpRequest {
    type V = RequestView;

    open spec fn view(&self) -> RequestView {
        RequestView {
            method: self.method,
            url: self.url@,
            query: pairs_view(self.query@),
            headers: pairs_view(self.headers@),
            body: match self.body {
                Some(b) => Some(b@),
                None => None,
            },
        }
    }
}

/// The reply to a request: its status code and its body text, or the
/// message of the failure that stopped the body from being read.
#[derive(Debug)]
pub struct HttpResponse {
    pub status: u16,
    pub body: Result<String, String>,
}

/// The mathematical value of an [`HttpResponse`].
pub struct ResponseView {
    pub status: u16,
    pub body: Result<Seq<char>, Seq<char>>,
}

impl View for HttpResponse {
    type V = ResponseView;

    open spec fn view(&self) -> ResponseView {
        ResponseView {
            status: self.status,
            body: match self.body {
                Ok(b) => Ok(b@),
                Err(e) => Err(e@),
            },
        }
    }
}

/// A status in the 2xx range, as `http::StatusCode::is_success` defines it.
pub open spec fn is_success(status: u16) -> bool {
    200 <= status < 300
}

/// Tests a status code for success.
pub fn status_is_success(status: u16) -> (r: bool)
    ensures
        r == is_success(status),
{
    200 <= status && status < 300
}

} // verus!
