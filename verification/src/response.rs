//! Responses as plain values: a status, headers in order, and a body that is empty,
//! a text, or a file to stream with what is sent after it.

use vstd::prelude::*;
use vstd::string::*;
use vstd::utf8::*;
use crate::text::{decimal, to_decimal};

verus! {

pub const OK: u16 = 200;

pub const FOUND: u16 = 302;

pub const NOT_FOUND: u16 = 404;

pub const METHOD_NOT_ALLOWED: u16 = 405;

pub const INTERNAL_SERVER_ERROR: u16 = 500;

/// One header of a response. Names are written in lower case.
#[derive(Clone, Debug, PartialEq, Eq)]
pub struct Header {
    pub name: String,
    pub value: String,
}

impl View for Header {
    type V = (Seq<char>, Seq<char>);

    open spec fn view(&self) -> (Seq<char>, Seq<char>) {
        (self.name@, self.value@)
    }
}

/// The headers of a response as pairs of name and value, in order.
pub open spec fn headers_view(headers: Seq<Header>) -> Seq<(Seq<char>, Seq<char>)> {
    Seq::new(headers.len(), |i: int| headers[i]@)
}

/// A body that is produced while it is sent: the bytes of the file at `path`, in file
/// order, and after all of them the bytes of `trailer`.
#[derive(Clone, Debug, PartialEq, Eq)]
pub struct StreamedBody {
    pub path: String,
    pub file_len: u64,
    pub trailer: String,
}

/// The body of a response.
#[derive(Clone, Debug, PartialEq, Eq)]
pub enum Body {
    Empty,
    Text(String),
    File(StreamedBody),
}

/// A `Body` as a mathematical value.
pub enum BodyView {
    Empty,
    Text(Seq<char>),
    File { path: Seq<char>, file_len: nat, trailer: Seq<char> },
}

impl BodyView {
    /// The number of bytes that the body puts on the wire.
    pub open spec fn byte_len(self) -> nat {
        match self {
            BodyView::Empty => 0,
            BodyView::Text(t) => encode_utf8(t).len(),
            BodyView::File { path, file_len, trailer } => file_len + encode_utf8(trailer).len(),
        }
    }
}

impl View for Body {
    type V = BodyView;

    open spec fn view(&self) -> BodyView {
        match self {
            Body::Empty => BodyView::Empty,
            Body::Text(t) => BodyView::Text(t@),
            Body::File(f) => BodyView::File {
                path: f.path@,
                file_len: f.file_len as nat,
                trailer: f.trailer@,
            },
        }
    }
}

/// A response: exactly one is given for each request.
#[derive(Clone, Debug, PartialEq, Eq)]
pub struct Response {
    pub status: u16,
    pub headers: Vec<Header>,
    pub body: Body,
}

/// A `Response` as a mathematical value.
pub struct ResponseView {
    pub status: u16,
    pub headers: Seq<(Seq<char>, Seq<char>)>,
    pub body: BodyView,
}

impl View for Response {
    type V = ResponseView;

    open spec fn view(&self) -> ResponseView {
        ResponseView {
            status: self.status,
            headers: headers_view(self.headers@),
            body: self.body@,
        }
    }
}

impl ResponseView {
    /// The value of the first header called `name`, if there is one.
    pub open spec fn header(self, name: Seq<char>) -> Option<Seq<char>> {
        if exists|i: int| 0 <= i < self.headers.len() && self.headers[i].0 == name {
            let i = choose|i: int|
                0 <= i < self.headers.len() && self.headers[i].0 == name && forall|j: int|
                    0 <= j < i ==> self.headers[j].0 != name;
            Some(self.headers[i].1)
        } else {
            None
        }
    }
}

/// A header that no header of the same name precedes is the one that `header` finds.
pub proof fn lemma_header_found(r: ResponseView, name: Seq<char>, i: int)
    requires
        0 <= i < r.headers.len(),
        r.headers[i].0 == name,
        forall|j: int| 0 <= j < i ==> r.headers[j].0 != name,
    ensures
        r.header(name) == Some(r.headers[i].1),
{
    let k = choose|k: int|
        0 <= k < r.headers.len() && r.headers[k].0 == name && forall|j: int|
            0 <= j < k ==> r.headers[j].0 != name;
}

impl Response {
    /// The value of the first header called `name`, if there is one. Names are compared
    /// as they are written.
    pub fn header(&self, name: &str) -> (r: Option<&str>)
        ensures
            match r {
                Some(value) => self@.header(name@) == Some(value@),
                None => self@.header(name@) is None,
            },
    {
        let needle = String::from_str(name);
        let n = self.headers.len();
        let mut i: usize = 0;
        while i < n
            invariant
                n == self.headers.len(),
                i <= n,
                needle@ == name@,
                forall|j: int| 0 <= j < i ==> self@.headers[j].0 != name@,
            decreases n - i,
        {
            if self.headers[i].name == needle {
                proof {
                    lemma_header_found(self@, name@, i as int);
                }
                return Some(self.headers[i].value.as_str());
            }
            i += 1;
        }
        None
    }
}

/// A header with the given name and value.
pub fn header(name: &str, value: String) -> (h: Header)
    ensures
        h@ == (name@, value@),
{
    Header { name: String::from_str(name), value }
}

/// The number of bytes of the UTF-8 encoding of `s`.
pub fn byte_len(s: &str) -> (n: usize)
    ensures
        n == encode_utf8(s@).len(),
{
    s.as_bytes().len()
}

/// The response that carries an HTML page: the given status, the given headers, then
/// `content-length` with the page's length in bytes and `content-type: text/html`.
pub open spec fn html_response(
    body: Seq<char>,
    status: u16,
    headers: Seq<(Seq<char>, Seq<char>)>,
) -> ResponseView {
    ResponseView {
        status,
        headers: headers + seq![
            ("content-length"@, decimal(encode_utf8(body).len())),
            ("content-type"@, "text/html"@),
        ],
        body: BodyView::Text(body),
    }
}

/// Makes a response from an HTML page, a status and headers.
///
/// The given headers come first; `content-length`, the page's length in bytes, and
/// `content-type: text/html` follow them.
pub fn html_str_to_response_with_headers(body: String, status: u16, headers: Vec<Header>) -> (r:
    Response)
    ensures
        r@ == html_response(body@, status, headers_view(headers@)),
{
    let mut all = headers;
    let len = byte_len(body.as_str());
    all.push(header("content-length", to_decimal(len as u128)));
    all.push(header("content-type", String::from_str("text/html")));
    let r = Response { status, headers: all, body: Body::Text(body) };
    assert(r@.headers =~= html_response(body@, status, headers_view(headers@)).headers);
    r
}

} // verus!
