//! The service as a whole, over a store that works: what every request is
//! answered with, and what it leaves in the store.

use vstd::prelude::*;
use vstd::string::*;
use crate::dispatcher::{dispatch, is_refused};
use crate::key::{is_key, is_key_path, lemma_path_of_key, path_of_key};
use crate::reply;
use crate::request::{BodyView, Method, RequestView};
use crate::resolver::{insert_result, lookup_result, root_path, ActionView};
use crate::response::{
    header_value, names_distinct, ResponseView, CONTENT_TYPE, STATUS_BAD_REQUEST,
    STATUS_METHOD_NOT_ALLOWED, STATUS_NOT_FOUND, STATUS_OK, STATUS_PERMANENT_REDIRECT, TEXT_HTML,
    TEXT_PLAIN,
};
use crate::store::{
    decoded, encoded, lemma_codec_round_trip, InsertOutcome, LookupView, ServiceError,
};

verus! {

/// The contents of a store: the bytes held under each key that was written.
pub type StoreView = Map<Seq<char>, Seq<u8>>;

/// A point read of a working store.
pub open spec fn lookup(store: StoreView, key: Seq<char>) -> LookupView {
    if store.contains_key(key) {
        LookupView::Found(store[key])
    } else {
        LookupView::Absent
    }
}

/// A point write to a working store: the new value replaces what was there.
pub open spec fn insert(store: StoreView, key: Seq<char>, bytes: Seq<u8>) -> StoreView {
    store.insert(key, bytes)
}

/// One request served against a working store: the store afterwards, and the
/// answer. At most one store operation takes place.
pub open spec fn serve(document: Seq<char>, store: StoreView, req: RequestView) -> (
    StoreView,
    Result<ResponseView, ServiceError>,
) {
    match dispatch(document, req) {
        ActionView::Respond(response) => (store, Ok(response)),
        ActionView::Lookup(key) => (store, lookup_result(lookup(store, key))),
        ActionView::Insert(key, bytes) => (
            insert(store, key, bytes),
            insert_result(key, InsertOutcome::Stored),
        ),
    }
}

/// The methods that take the read path: all but `PUT` and the refused ones.
pub open spec fn is_read(method: Method) -> bool {
    method != Method::Put && !is_refused(method)
}

/// The write request that stores `target` under `key`.
pub open spec fn put_request(key: Seq<char>, target: Seq<char>) -> RequestView {
    RequestView { method: Method::Put, path: path_of_key(key), body: BodyView::Redirect(target) }
}

/// The headers of a redirect: the destination verbatim, the three headers
/// that defeat caching, and the content type, each under its own name.
pub proof fn lemma_redirect_headers(target: Seq<char>)
    ensures
        reply::redirected(target).status == STATUS_PERMANENT_REDIRECT,
        reply::redirected(target).body == reply::REDIRECTED_MESSAGE@,
        header_value(reply::redirected(target).headers, reply::LOCATION@) == Some(target),
        header_value(reply::redirected(target).headers, reply::CACHE_CONTROL@) == Some(
            reply::NO_CACHE_POLICY@,
        ),
        header_value(reply::redirected(target).headers, reply::PRAGMA@) == Some(reply::NO_CACHE@),
        header_value(reply::redirected(target).headers, reply::EXPIRES@) == Some(reply::EXPIRED@),
        header_value(reply::redirected(target).headers, CONTENT_TYPE@) == Some(TEXT_PLAIN@),
        names_distinct(reply::redirected(target).headers),
{
    reveal_strlit("Location");
    reveal_strlit("Cache-Control");
    reveal_strlit("Pragma");
    reveal_strlit("Expires");
    reveal_strlit("Content-Type");
    let headers = reply::redirected(target).headers;
    assert(headers.len() == 5);
    assert(headers[0].0 == reply::LOCATION@);
    assert(headers[1].0 == reply::CACHE_CONTROL@);
    assert(headers[2].0 == reply::PRAGMA@);
    assert(headers[3].0 == reply::EXPIRES@);
    assert(headers[4].0 == CONTENT_TYPE@);
    reveal_with_fuel(header_value, 6);
    assert(headers.skip(1)[0] == headers[1]);
    assert(headers.skip(1).skip(1)[0] == headers[2]);
    assert(headers.skip(1).skip(1).skip(1)[0] == headers[3]);
    assert(headers.skip(1).skip(1).skip(1).skip(1)[0] == headers[4]);
}

/// Once a destination has been put under a key, a read of that key's path
/// redirects to it, whatever the method and the body of the read.
pub proof fn lemma_put_then_get(
    document: Seq<char>,
    store: StoreView,
    key: Seq<char>,
    target: Seq<char>,
    read: RequestView,
)
    requires
        is_key(key),
        is_read(read.method),
        read.path == path_of_key(key),
    ensures
        serve(document, insert(store, key, encoded(target)), read).1 == Ok::<
            ResponseView,
            ServiceError,
        >(reply::redirected(target)),
        serve(document, store, put_request(key, target)) == (
            insert(store, key, encoded(target)),
            Ok::<ResponseView, ServiceError>(reply::stored(key)),
        ),
{
    lemma_path_of_key(key);
    lemma_codec_round_trip(target);
    assert(path_of_key(key).len() != root_path().len());
}

/// A read of a path that is neither the root nor a key path is answered with
/// 404, and nothing is asked of the store.
pub proof fn lemma_unknown_path_not_found(document: Seq<char>, req: RequestView)
    requires
        is_read(req.method),
        !is_key_path(req.path),
        req.path != root_path(),
    ensures
        dispatch(document, req) == ActionView::Respond(reply::not_found()),
        reply::not_found().status == STATUS_NOT_FOUND,
{
}

/// The refused methods are answered with 405 and the list of allowed
/// methods, whatever the path and the body.
pub proof fn lemma_refused_methods(document: Seq<char>, req: RequestView)
    requires
        is_refused(req.method),
    ensures
        dispatch(document, req) == ActionView::Respond(reply::method_not_allowed()),
        reply::method_not_allowed().status == STATUS_METHOD_NOT_ALLOWED,
        header_value(reply::method_not_allowed().headers, reply::ALLOW@) == Some(
            reply::ALLOWED_METHODS@,
        ),
        reply::method_not_allowed().body == reply::METHOD_NOT_ALLOWED_MESSAGE@,
{
    assert(reply::method_not_allowed().headers[0].0 == reply::ALLOW@);
}

/// A read of the root is answered with the welcome document, as HTML.
pub proof fn lemma_root_is_welcome(document: Seq<char>, store: StoreView, req: RequestView)
    requires
        is_read(req.method),
        req.path == root_path(),
    ensures
        serve(document, store, req) == (
            store,
            Ok::<ResponseView, ServiceError>(reply::welcome(document)),
        ),
        reply::welcome(document).status == STATUS_OK,
        reply::welcome(document).body == document,
        header_value(reply::welcome(document).headers, CONTENT_TYPE@) == Some(TEXT_HTML@),
{
    assert(reply::welcome(document).headers[0].0 == CONTENT_TYPE@);
}

/// A write request without a body is answered with 400, whatever its path.
pub proof fn lemma_put_without_body(document: Seq<char>, req: RequestView)
    requires
        req.method == Method::Put,
        req.body == BodyView::Absent,
    ensures
        dispatch(document, req) == ActionView::Respond(reply::missing_body()),
        reply::missing_body().status == STATUS_BAD_REQUEST,
        reply::missing_body().body == reply::MISSING_BODY_MESSAGE@,
{
}

/// A well-formed write request to a path that holds no short key is answered
/// with 400, and nothing is written.
pub proof fn lemma_put_invalid_key(document: Seq<char>, store: StoreView, req: RequestView)
    requires
        req.method == Method::Put,
        req.body is Redirect,
        !is_key_path(req.path),
    ensures
        serve(document, store, req) == (
            store,
            Ok::<ResponseView, ServiceError>(reply::invalid_key()),
        ),
        reply::invalid_key().status == STATUS_BAD_REQUEST,
        reply::invalid_key().body == reply::INVALID_KEY_MESSAGE@,
{
}

/// Only a write request whose path is a key path and whose body is
/// well-formed changes the store; every other request leaves it as it was.
pub proof fn lemma_store_changes_only_on_put(
    document: Seq<char>,
    store: StoreView,
    req: RequestView,
)
    ensures
        serve(document, store, req).0 != store ==> req.method == Method::Put && is_key_path(
            req.path,
        ) && req.body is Redirect,
{
}

/// No response carries two headers of one name, whichever request and
/// whichever outcome of a store operation it answers.
pub proof fn lemma_headers_set_once(
    document: Seq<char>,
    req: RequestView,
    read: LookupView,
    key: Seq<char>,
    written: InsertOutcome,
)
    ensures
        dispatch(document, req) is Respond ==> names_distinct(
            dispatch(document, req)->Respond_0.headers,
        ),
        lookup_result(read) is Ok ==> names_distinct(lookup_result(read)->Ok_0.headers),
        insert_result(key, written) is Ok ==> names_distinct(
            insert_result(key, written)->Ok_0.headers,
        ),
{
    reveal_strlit("Allow");
    reveal_strlit("Content-Type");
    assert(reply::method_not_allowed().headers.len() == 2);
    assert(reply::method_not_allowed().headers[0].0 == reply::ALLOW@);
    assert(reply::method_not_allowed().headers[1].0 == CONTENT_TYPE@);
    assert(reply::welcome(document).headers.len() == 1);
    assert forall|status: u16, message: Seq<char>|
        names_distinct(
            (#[trigger] reply::plain_text(status, Seq::empty(), message)).headers,
        ) by {
        assert(reply::plain_text(status, Seq::empty(), message).headers.len() == 1);
    }
    if let LookupView::Found(bytes) = read {
        if let Some(target) = decoded(bytes) {
            lemma_redirect_headers(target);
        }
    }
}

/// The last write wins: after two writes under one key, a read of the key
/// redirects to the destination written second.
pub proof fn lemma_last_write_wins(
    document: Seq<char>,
    store: StoreView,
    key: Seq<char>,
    first: Seq<char>,
    second: Seq<char>,
    read: RequestView,
)
    requires
        is_key(key),
        is_read(read.method),
        read.path == path_of_key(key),
    ensures
        ({
            let once = serve(document, store, put_request(key, first)).0;
            let twice = serve(document, once, put_request(key, second)).0;
            serve(document, twice, read).1 == Ok::<ResponseView, ServiceError>(
                reply::redirected(second),
            )
        }),
{
    let once = serve(document, store, put_request(key, first)).0;
    lemma_put_then_get(document, store, key, first, read);
    lemma_put_then_get(document, once, key, second, read);
}

/// A read of a key that was never written is answered with 404; it is no
/// failure, and it leaves the store as it was.
pub proof fn lemma_unwritten_key_not_found(
    document: Seq<char>,
    store: StoreView,
    key: Seq<char>,
    read: RequestView,
)
    requires
        is_key(key),
        !store.contains_key(key),
        is_read(read.method),
        read.path == path_of_key(key),
    ensures
        serve(document, store, read) == (
            store,
            Ok::<ResponseView, ServiceError>(reply::no_redirect()),
        ),
        reply::no_redirect().status == STATUS_NOT_FOUND,
{
    lemma_path_of_key(key);
    assert(path_of_key(key).len() != root_path().len());
}

} // verus!
