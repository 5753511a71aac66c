//! The dispatcher: the method decides, before the path is looked at.

use vstd::prelude::*;
use crate::key::is_key;
use crate::reply;
use crate::request::{Method, Request, RequestView};
use crate::resolver::{read_path, write_path, Action, ActionView, Resolver};
use crate::response::Response;

verus! {

/// The methods that are turned away whatever the path and the body.
pub open spec fn is_refused(method: Method) -> bool {
    method == Method::Post || method == Method::Patch || method == Method::Delete
}

/// What is done for a request. `PUT` takes the write path, the refused
/// methods are turned away, and every other method takes the read path.
/// `HEAD` is no exception: it is answered as `GET` is, body included, and it
/// is for the transport to leave the body off the wire.
pub open spec fn dispatch(document: Seq<char>, req: RequestView) -> ActionView {
    if req.method == Method::Put {
        write_path(req.path, req.body)
    } else if is_refused(req.method) {
        ActionView::Respond(reply::method_not_allowed())
    } else {
        read_path(document, req.path)
    }
}

/// Classifies a request by its method and hands it to the resolver.
pub fn handler(resolver: &Resolver, req: &Request) -> (action: Action)
    ensures
        action@ == dispatch(resolver.document(), req@),
        action@ is Insert ==> is_key(action@->Insert_0),
        action@ is Lookup ==> is_key(action@->Lookup_0),
{
    match req.method {
        Method::Put => resolver.handle_put(req),
        Method::Post | Method::Patch | Method::Delete => Action::Respond(
            Response::method_not_allowed(),
        ),
        _ => resolver.handle_get(req),
    }
}

} // verus!
