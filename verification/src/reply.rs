//! The responses the service gives, each stated once as a value and built once.

use vstd::prelude::*;
use vstd::string::*;
use crate::key::ShortKey;
use crate::response::{
    HeaderView, Response, ResponseView, CONTENT_TYPE, STATUS_BAD_REQUEST, STATUS_CREATED,
    STATUS_METHOD_NOT_ALLOWED, STATUS_NOT_FOUND, STATUS_OK, STATUS_PERMANENT_REDIRECT, TEXT_HTML,
    TEXT_PLAIN,
};

verus! {

pub const ALLOW: &'static str = "Allow";

pub const ALLOWED_METHODS: &'static str = "GET, HEAD, PURGE";

pub const LOCATION: &'static str = "Location";

pub const CACHE_CONTROL: &'static str = "Cache-Control";

pub const NO_CACHE_POLICY: &'static str = "no-cache, no-store, max-age=0, must-revalidate";

pub const PRAGMA: &'static str = "Pragma";

pub const NO_CACHE: &'static str = "no-cache";

pub const EXPIRES: &'static str = "Expires";

pub const EXPIRED: &'static str = "0";

pub const METHOD_NOT_ALLOWED_MESSAGE: &'static str = "This method is not allowed\n";

pub const MISSING_BODY_MESSAGE: &'static str = "PUT requests must have a body\n";

pub const MALFORMED_BODY_MESSAGE: &'static str =
    "Invalid request body. Use {\"path\": \"<destination>\"}\n";

pub const INVALID_KEY_MESSAGE: &'static str =
    "Invalid key format. Use /<6 alphanumeric characters>\n";

pub const STORED_PREFIX: &'static str = "Stored value for key: ";

pub const LINE_END: &'static str = "\n";

pub const NOT_FOUND_MESSAGE: &'static str = "The page you requested could not be found\n";

pub const NO_REDIRECT_MESSAGE: &'static str = "No redirect found for this key\n";

pub const REDIRECTED_MESSAGE: &'static str = "You have been redirected.\n";

/// A plain-text response: the given headers, then the content type.
pub open spec fn plain_text(status: u16, headers: Seq<HeaderView>, message: Seq<char>)
    -> ResponseView {
    ResponseView { status, headers: headers.push((CONTENT_TYPE@, TEXT_PLAIN@)), body: message }
}

/// Answer to a method that the service refuses.
pub open spec fn method_not_allowed() -> ResponseView {
    plain_text(
        STATUS_METHOD_NOT_ALLOWED,
        seq![(ALLOW@, ALLOWED_METHODS@)],
        METHOD_NOT_ALLOWED_MESSAGE@,
    )
}

/// Answer to a write request without a body.
pub open spec fn missing_body() -> ResponseView {
    plain_text(STATUS_BAD_REQUEST, Seq::empty(), MISSING_BODY_MESSAGE@)
}

/// Answer to a write request whose body cannot be read as one.
pub open spec fn malformed_body() -> ResponseView {
    plain_text(STATUS_BAD_REQUEST, Seq::empty(), MALFORMED_BODY_MESSAGE@)
}

/// Answer to a write request whose path holds no short key.
pub open spec fn invalid_key() -> ResponseView {
    plain_text(STATUS_BAD_REQUEST, Seq::empty(), INVALID_KEY_MESSAGE@)
}

/// Answer to a write that the store has taken.
pub open spec fn stored(key: Seq<char>) -> ResponseView {
    plain_text(STATUS_CREATED, Seq::empty(), STORED_PREFIX@ + key + LINE_END@)
}

/// The welcome page.
pub open spec fn welcome(document: Seq<char>) -> ResponseView {
    ResponseView { status: STATUS_OK, headers: seq![(CONTENT_TYPE@, TEXT_HTML@)], body: document }
}

/// Answer to a path that is neither the root nor a key path.
pub open spec fn not_found() -> ResponseView {
    plain_text(STATUS_NOT_FOUND, Seq::empty(), NOT_FOUND_MESSAGE@)
}

/// Answer to a key under which nothing is stored.
pub open spec fn no_redirect() -> ResponseView {
    plain_text(STATUS_NOT_FOUND, Seq::empty(), NO_REDIRECT_MESSAGE@)
}

/// The headers that keep every cache from holding on to a redirect.
pub open spec fn cache_defeating_headers() -> Seq<HeaderView> {
    seq![(CACHE_CONTROL@, NO_CACHE_POLICY@), (PRAGMA@, NO_CACHE@), (EXPIRES@, EXPIRED@)]
}

/// The redirect to a destination, which is handed on verbatim.
pub open spec fn redirected(target: Seq<char>) -> ResponseView {
    plain_text(
        STATUS_PERMANENT_REDIRECT,
        seq![(LOCATION@, target)] + cache_defeating_headers(),
        REDIRECTED_MESSAGE@,
    )
}

impl Response {
    /// Sets the body and marks it as plain text.
    pub fn with_body_text_plain(self, body: &str) -> (response: Response)
        ensures
            response@ == plain_text(self@.status, self@.headers, body@),
    {
        self.with_header(CONTENT_TYPE, TEXT_PLAIN).with_body(body)
    }

    /// Builds the answer to a method that the service refuses.
    pub fn method_not_allowed() -> (response: Response)
        ensures
            response@ == method_not_allowed(),
    {
        let response = Response::from_status(STATUS_METHOD_NOT_ALLOWED).with_header(
            ALLOW,
            ALLOWED_METHODS,
        );
        assert(response@.headers =~= seq![(ALLOW@, ALLOWED_METHODS@)]);
        response.with_body_text_plain(METHOD_NOT_ALLOWED_MESSAGE)
    }

    /// Builds the answer to a write request without a body.
    pub fn missing_body() -> (response: Response)
        ensures
            response@ == missing_body(),
    {
        Response::from_status(STATUS_BAD_REQUEST).with_body_text_plain(MISSING_BODY_MESSAGE)
    }

    /// Builds the answer to a write request whose body cannot be read as one.
    pub fn malformed_body() -> (response: Response)
        ensures
            response@ == malformed_body(),
    {
        Response::from_status(STATUS_BAD_REQUEST).with_body_text_plain(MALFORMED_BODY_MESSAGE)
    }

    /// Builds the answer to a write request whose path holds no short key.
    pub fn invalid_key() -> (response: Response)
        ensures
            response@ == invalid_key(),
    {
        Response::from_status(STATUS_BAD_REQUEST).with_body_text_plain(INVALID_KEY_MESSAGE)
    }

    /// Builds the answer to a write that the store has taken.
    pub fn stored(key: &ShortKey) -> (response: Response)
        ensures
            response@ == stored(key@),
    {
        let mut message = String::from_str(STORED_PREFIX);
        message.append(key.as_str());
        message.append(LINE_END);
        Response::from_status(STATUS_CREATED).with_body_text_plain(message.as_str())
    }

    /// Builds the welcome page from its document.
    pub fn welcome(document: &str) -> (response: Response)
        ensures
            response@ == welcome(document@),
    {
        let response = Response::from_status(STATUS_OK).with_header(CONTENT_TYPE, TEXT_HTML);
        assert(response@.headers =~= seq![(CONTENT_TYPE@, TEXT_HTML@)]);
        response.with_body(document)
    }

    /// Builds the answer to a path that is neither the root nor a key path.
    pub fn not_found() -> (response: Response)
        ensures
            response@ == not_found(),
    {
        Response::from_status(STATUS_NOT_FOUND).with_body_text_plain(NOT_FOUND_MESSAGE)
    }

    /// Builds the answer to a key under which nothing is stored.
    pub fn no_redirect() -> (response: Response)
        ensures
            response@ == no_redirect(),
    {
        Response::from_status(STATUS_NOT_FOUND).with_body_text_plain(NO_REDIRECT_MESSAGE)
    }

    /// Builds the redirect to a destination.
    pub fn redirected(target: &str) -> (response: Response)
        ensures
            response@ == redirected(target@),
    {
        let response = Response::from_status(STATUS_PERMANENT_REDIRECT).with_header(
            LOCATION,
            target,
        ).with_header(CACHE_CONTROL, NO_CACHE_POLICY).with_header(PRAGMA, NO_CACHE).with_header(
            EXPIRES,
            EXPIRED,
        );
        assert(response@.headers =~= seq![(LOCATION@, target@)] + cache_defeating_headers());
        response.with_body_text_plain(REDIRECTED_MESSAGE)
    }
}

} // verus!
