//! Core of a short-link redirect service.
//!
//! A request is classified by method and path, a six-character key is parsed
//! from the path, and the answer is built as a plain response descriptor. The
//! key/value store that holds the links is never called from here: where a
//! request needs it, the library names the store operation to perform and
//! later turns the outcome of that operation into the response.

pub mod dispatcher;
pub mod key;
pub mod memory;
pub mod model;
pub mod reply;
pub mod request;
pub mod resolver;
pub mod response;
pub mod store;
