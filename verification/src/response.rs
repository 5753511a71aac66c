//! Response descriptors: a status code, a list of headers and a body.

use vstd::prelude::*;
use vstd::string::*;

verus! {

pub const STATUS_OK: u16 = 200;

pub const STATUS_CREATED: u16 = 201;

pub const STATUS_PERMANENT_REDIRECT: u16 = 308;

pub const STATUS_BAD_REQUEST: u16 = 400;

pub const STATUS_NOT_FOUND: u16 = 404;

pub const STATUS_METHOD_NOT_ALLOWED: u16 = 405;

pub const CONTENT_TYPE: &'static str = "Content-Type";

pub const TEXT_PLAIN: &'static str = "text/plain; charset=utf-8";

pub const TEXT_HTML: &'static str = "text/html; charset=utf-8";

/// A header as a pair of name and value.
pub type HeaderView = (Seq<char>, Seq<char>);

/// One header of a response.
#[derive(Clone, Debug, PartialEq, Eq)]
pub struct Header {
    pub name: String,
    pub value: String,
}

impl View for Header {
    type V = HeaderView;

    open spec fn view(&self) -> HeaderView {
        (self.name@, self.value@)
    }
}

/// What a response is, as plain mathematical values.
pub struct ResponseView {
    pub status: u16,
    pub headers: Seq<HeaderView>,
    pub body: Seq<char>,
}

/// A fully formed response, built anew for each request.
#[derive(Clone, Debug, PartialEq, Eq)]
pub struct Response {
    pub status: u16,
    pub headers: Vec<Header>,
    pub body: String,
}

impl View for Response {
    type V = ResponseView;

    open spec fn view(&self) -> ResponseView {
        ResponseView {
            status: self.status,
            headers: Seq::new(self.headers@.len(), |i: int| self.headers@[i]@),
            body: self.body@,
        }
    }
}

/// The value of the first header called `name`, if there is one.
pub open spec fn header_value(headers: Seq<HeaderView>, name: Seq<char>) -> Option<Seq<char>>
    decreases headers.len(),
{
    if headers.len() == 0 {
        None
    } else if headers[0].0 == name {
        Some(headers[0].1)
    } else {
        header_value(headers.skip(1), name)
    }
}

/// No header name occurs twice.
pub open spec fn names_distinct(headers: Seq<HeaderView>) -> bool {
    forall|i: int, j: int| 0 <= i < j < headers.len() ==> headers[i].0 != headers[j].0
}

impl Response {
    /// A response with the given status, no header and an empty body.
    pub fn from_status(status: u16) -> (response: Response)
        ensures
            response@ == (ResponseView { status, headers: Seq::empty(), body: Seq::empty() }),
    {
        let response = Response { status, headers: Vec::new(), body: String::new() };
        assert(response@.headers =~= Seq::empty());
        response
    }

    /// Appends a header after those already present.
    pub fn with_header(self, name: &str, value: &str) -> (response: Response)
        ensures
            response@ == (ResponseView {
                headers: self@.headers.push((name@, value@)),
                ..self@
            }),
    {
        let mut headers = self.headers;
        headers.push(Header { name: String::from_str(name), value: String::from_str(value) });
        let response = Response { status: self.status, headers, body: self.body };
        assert(response@.headers =~= self@.headers.push((name@, value@)));
        response
    }

    /// Replaces the body.
    pub fn with_body(self, body: &str) -> (response: Response)
        ensures
            response@ == (ResponseView { body: body@, ..self@ }),
    {
        let response = Response {
            status: self.status,
            headers: self.headers,
            body: String::from_str(body),
        };
        assert(response@.headers =~= self@.headers);
        response
    }

    /// Looks a header up by its exact name.
    pub fn header(&self, name: &str) -> (value: Option<&str>)
        ensures
            value is Some <==> header_value(self@.headers, name@) is Some,
            value is Some ==> value->Some_0@ == header_value(self@.headers, name@)->Some_0,
    {
        let wanted = String::from_str(name);
        let mut i: usize = 0;
        assert(self@.headers.skip(0) =~= self@.headers);
        while i < self.headers.len()
            invariant
                i <= self.headers.len(),
                wanted@ == name@,
                header_value(self@.headers, name@) == header_value(
                    self@.headers.skip(i as int),
                    name@,
                ),
            decreases self.headers.len() - i,
        {
            let ghost rest = self@.headers.skip(i as int);
            assert(rest[0] == self.headers@[i as int]@);
            assert(rest.skip(1) =~= self@.headers.skip(i + 1));
            if self.headers[i].name == wanted {
                return Some(self.headers[i].value.as_str());
            }
            i += 1;
        }
        None
    }
}

} // verus!
