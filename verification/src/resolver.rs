//! The redirect resolver: key validation, the store operation a request needs,
//! and the response that each outcome of that operation calls for.

use vstd::prelude::*;
use vstd::string::*;
use crate::key::{is_key, is_key_path, ShortKey};
use crate::reply;
use crate::request::{Body, BodyView, Request};
use crate::response::{Response, ResponseView};
use crate::store::{
    decode_target, decoded, encode_target, encoded, InsertOutcome, LookupOutcome, LookupView,
    ServiceError,
};

verus! {

/// The path of the welcome page: a single slash.
pub open spec fn root_path() -> Seq<char> {
    seq!['/']
}

/// What is to be done for a request: answer at once, or ask the store first.
#[derive(Clone, Debug, PartialEq, Eq)]
pub enum Action {
    /// The response is final.
    Respond(Response),
    /// Read the entry under the key, then call [`Resolver::redirect`].
    Lookup(ShortKey),
    /// Write the bytes under the key, then call [`Resolver::stored`].
    Insert(ShortKey, Vec<u8>),
}

/// An action as plain mathematical values.
pub enum ActionView {
    Respond(ResponseView),
    Lookup(Seq<char>),
    Insert(Seq<char>, Seq<u8>),
}

impl View for Action {
    type V = ActionView;

    open spec fn view(&self) -> ActionView {
        match self {
            Action::Respond(response) => ActionView::Respond(response@),
            Action::Lookup(key) => ActionView::Lookup(key@),
            Action::Insert(key, bytes) => ActionView::Insert(key@, bytes@),
        }
    }
}

/// The write path. A body must be present and well-formed, then the path must
/// be a key path; only then is the destination written under the key.
pub open spec fn write_path(path: Seq<char>, body: BodyView) -> ActionView {
    match body {
        BodyView::Absent => ActionView::Respond(reply::missing_body()),
        BodyView::Malformed => ActionView::Respond(reply::malformed_body()),
        BodyView::Redirect(target) => if is_key_path(path) {
            ActionView::Insert(path.skip(1), encoded(target))
        } else {
            ActionView::Respond(reply::invalid_key())
        },
    }
}

/// The read path. The root is the welcome page, a key path is looked up, and
/// there is nothing under any other path.
pub open spec fn read_path(document: Seq<char>, path: Seq<char>) -> ActionView {
    if path == root_path() {
        ActionView::Respond(reply::welcome(document))
    } else if is_key_path(path) {
        ActionView::Lookup(path.skip(1))
    } else {
        ActionView::Respond(reply::not_found())
    }
}

/// What a read of the store means for the client. Bytes that decode are the
/// destination of a redirect; an absent entry is a plain miss; anything else
/// fails the request.
pub open spec fn lookup_result(outcome: LookupView) -> Result<ResponseView, ServiceError> {
    match outcome {
        LookupView::Found(bytes) => match decoded(bytes) {
            Some(target) => Ok(reply::redirected(target)),
            None => Err(ServiceError::Encoding),
        },
        LookupView::Absent => Ok(reply::no_redirect()),
        LookupView::Failed => Err(ServiceError::Store),
    }
}

/// What a write to the store means for the client.
pub open spec fn insert_result(key: Seq<char>, outcome: InsertOutcome) -> Result<
    ResponseView,
    ServiceError,
> {
    match outcome {
        InsertOutcome::Stored => Ok(reply::stored(key)),
        InsertOutcome::Failed => Err(ServiceError::Store),
    }
}

/// The answer to a request, with the response taken by its view.
pub open spec fn answer_view(result: Result<Response, ServiceError>) -> Result<
    ResponseView,
    ServiceError,
> {
    match result {
        Ok(response) => Ok(response@),
        Err(error) => Err(error),
    }
}

/// The resolver, made once with the welcome document and used for every
/// request. The document is never empty.
pub struct Resolver {
    welcome: String,
}

impl Resolver {
    #[verifier::type_invariant]
    spec fn well_formed(&self) -> bool {
        self.welcome@.len() > 0
    }

    /// The welcome document.
    pub closed spec fn document(&self) -> Seq<char> {
        self.welcome@
    }

    /// Makes a resolver that serves `welcome` at the root. An empty document
    /// is refused.
    pub fn new(welcome: String) -> (resolver: Option<Resolver>)
        ensures
            resolver is Some <==> welcome@.len() > 0,
            resolver is Some ==> resolver->Some_0.document() == welcome@,
    {
        if welcome.as_str().unicode_len() == 0 {
            None
        } else {
            Some(Resolver { welcome })
        }
    }

    /// The welcome document.
    pub fn welcome(&self) -> (document: &str)
        ensures
            document@ == self.document(),
            document@.len() > 0,
    {
        proof {
            use_type_invariant(self);
        }
        self.welcome.as_str()
    }

    /// Handles a write request up to the point where the store is needed.
    pub fn handle_put(&self, req: &Request) -> (action: Action)
        ensures
            action@ == write_path(req.path@, req.body@),
            action@ is Insert ==> is_key(action@->Insert_0),
    {
        match &req.body {
            Body::Absent => Action::Respond(Response::missing_body()),
            Body::Malformed => Action::Respond(Response::malformed_body()),
            Body::Redirect(body) => match ShortKey::from_path(req.path.as_str()) {
                Some(key) => {
                    let bytes = encode_target(body.path.as_str());
                    Action::Insert(key, bytes)
                },
                None => Action::Respond(Response::invalid_key()),
            },
        }
    }

    /// Handles a read request up to the point where the store is needed.
    pub fn handle_get(&self, req: &Request) -> (action: Action)
        ensures
            action@ == read_path(self.document(), req.path@),
            self.document().len() > 0,
    {
        proof {
            use_type_invariant(self);
        }
        let root = String::from_str("/");
        proof {
            reveal_strlit("/");
            assert(root@ =~= root_path());
        }
        if req.path == root {
            Action::Respond(Response::welcome(self.welcome()))
        } else {
            match ShortKey::from_path(req.path.as_str()) {
                Some(key) => Action::Lookup(key),
                None => Action::Respond(Response::not_found()),
            }
        }
    }

    /// Turns the outcome of a lookup into the answer to the read request.
    pub fn redirect(&self, outcome: LookupOutcome) -> (result: Result<
        Response,
        ServiceError,
    >)
        ensures
            answer_view(result) == lookup_result(outcome@),
    {
        match outcome {
            LookupOutcome::Found(bytes) => match decode_target(bytes) {
                Some(target) => Ok(Response::redirected(target.as_str())),
                None => Err(ServiceError::Encoding),
            },
            LookupOutcome::Absent => Ok(Response::no_redirect()),
            LookupOutcome::Failed => Err(ServiceError::Store),
        }
    }

    /// Turns the outcome of an insert into the answer to the write request.
    pub fn stored(&self, key: &ShortKey, outcome: InsertOutcome) -> (result: Result<
        Response,
        ServiceError,
    >)
        ensures
            answer_view(result) == insert_result(key@, outcome),
    {
        match outcome {
            InsertOutcome::Stored => Ok(Response::stored(key)),
            InsertOutcome::Failed => Err(ServiceError::Store),
        }
    }
}

} // verus!
