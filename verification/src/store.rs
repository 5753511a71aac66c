//! The boundary to the key/value store.
//!
//! The store is an outside service. The library decides which operation a
//! request needs and what its outcome means; performing the operation is left
//! to the caller. Stored values are opaque bytes: a destination is written as
//! its UTF-8 encoding and read back by decoding it.

use vstd::prelude::*;
use vstd::string::*;
use vstd::utf8::*;

verus! {

/// Name under which the store of short links is opened.
pub const STORE_NAME: &'static str = "shortner";

/// How a request can fail for reasons that are not the client's.
#[derive(Clone, Copy, Debug, PartialEq, Eq, Structural)]
pub enum ServiceError {
    /// The store could not be opened, or the operation on it failed.
    Store,
    /// The value found under a key is not the encoding of any text.
    Encoding,
}

/// Outcome of a point read.
#[derive(Clone, Debug, PartialEq, Eq)]
pub enum LookupOutcome {
    /// The key holds these bytes.
    Found(Vec<u8>),
    /// The store has no entry under the key.
    Absent,
    /// The store could not answer.
    Failed,
}

/// Outcome of a point read, as plain mathematical values.
pub enum LookupView {
    Found(Seq<u8>),
    Absent,
    Failed,
}

impl View for LookupOutcome {
    type V = LookupView;

    open spec fn view(&self) -> LookupView {
        match self {
            LookupOutcome::Found(bytes) => LookupView::Found(bytes@),
            LookupOutcome::Absent => LookupView::Absent,
            LookupOutcome::Failed => LookupView::Failed,
        }
    }
}

/// Outcome of a point write.
#[derive(Clone, Copy, Debug, PartialEq, Eq, Structural)]
pub enum InsertOutcome {
    /// The entry now holds the value that was written.
    Stored,
    /// The store could not take the value.
    Failed,
}

/// The bytes under which a destination is stored.
pub open spec fn encoded(target: Seq<char>) -> Seq<u8> {
    encode_utf8(target)
}

/// The destination that stored bytes stand for, where they stand for one.
pub open spec fn decoded(bytes: Seq<u8>) -> Option<Seq<char>> {
    if valid_utf8(bytes) {
        Some(decode_utf8(bytes))
    } else {
        None
    }
}

/// Encodes a destination for storage.
pub fn encode_target(target: &str) -> (bytes: Vec<u8>)
    ensures
        bytes@ == encoded(target@),
{
    target.as_bytes_vec()
}

/// `String::from_utf8` of the standard library: the bytes are accepted exactly
/// when they are well-formed UTF-8, and the text returned is then the sequence
/// of characters that they encode.
#[verifier::external_body]
fn string_from_utf8(bytes: Vec<u8>) -> (text: Option<String>)
    ensures
        text is Some <==> valid_utf8(bytes@),
        text is Some ==> text->Some_0@ == decode_utf8(bytes@),
{
    match String::from_utf8(bytes) {
        Ok(text) => Some(text),
        Err(_) => None,
    }
}

/// Decodes stored bytes. Fails exactly on bytes that are not UTF-8.
pub fn decode_target(bytes: Vec<u8>) -> (target: Option<String>)
    ensures
        target is Some <==> decoded(bytes@) is Some,
        target is Some ==> target->Some_0@ == decoded(bytes@)->Some_0,
{
    string_from_utf8(bytes)
}

/// Whatever is encoded decodes to itself: a destination survives storage.
pub proof fn lemma_codec_round_trip(target: Seq<char>)
    ensures
        decoded(encoded(target)) == Some(target),
{
    encode_utf8_valid_utf8(target);
    encode_utf8_decode_utf8(target);
}

} // verus!
