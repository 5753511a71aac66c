//! Parsed requests: a method, a path and what is known of the body.

use vstd::prelude::*;

verus! {

/// The request methods the service tells apart. Every method that has no
/// variant of its own is `Other`.
#[derive(Clone, Copy, Debug, PartialEq, Eq, Structural)]
pub enum Method {
    Get,
    Head,
    Put,
    Post,
    Patch,
    Delete,
    Other,
}

/// The body of a write request: a single field, the destination to store.
#[derive(Clone, Debug, PartialEq, Eq)]
pub struct AddRedirectRequest {
    pub path: String,
}

impl View for AddRedirectRequest {
    type V = Seq<char>;

    open spec fn view(&self) -> Seq<char> {
        self.path@
    }
}

/// What the transport found in place of a request body.
#[derive(Clone, Debug, PartialEq, Eq)]
pub enum Body {
    /// The request carried no body.
    Absent,
    /// There was a body, but it is no object with a string field `path`.
    Malformed,
    /// A well-formed write request.
    Redirect(AddRedirectRequest),
}

/// A body as plain mathematical values.
pub enum BodyView {
    Absent,
    Malformed,
    Redirect(Seq<char>),
}

impl View for Body {
    type V = BodyView;

    open spec fn view(&self) -> BodyView {
        match self {
            Body::Absent => BodyView::Absent,
            Body::Malformed => BodyView::Malformed,
            Body::Redirect(request) => BodyView::Redirect(request@),
        }
    }
}

/// One parsed request.
#[derive(Clone, Debug, PartialEq, Eq)]
pub struct Request {
    pub method: Method,
    pub path: String,
    pub body: Body,
}

/// A request as plain mathematical values.
pub struct RequestView {
    pub method: Method,
    pub path: Seq<char>,
    pub body: BodyView,
}

impl View for Request {
    type V = RequestView;

    open spec fn view(&self) -> RequestView {
        RequestView { method: self.method, path: self.path@, body: self.body@ }
    }
}

} // verus!
