//! Short keys and the request paths that carry them.

use vstd::prelude::*;
use vstd::string::*;

verus! {

/// Number of characters in a short key.
pub const KEY_LENGTH: usize = 6;

/// The characters a short key is made of: ASCII digits and ASCII letters.
pub open spec fn is_key_char(c: char) -> bool {
    ('0' <= c && c <= '9') || ('A' <= c && c <= 'Z') || ('a' <= c && c <= 'z')
}

/// A short key is exactly six key characters.
pub open spec fn is_key(s: Seq<char>) -> bool {
    &&& s.len() == KEY_LENGTH
    &&& forall|i: int| 0 <= i < s.len() ==> is_key_char(#[trigger] s[i])
}

/// A key path is a slash followed by a short key, and nothing else.
pub open spec fn is_key_path(path: Seq<char>) -> bool {
    &&& path.len() == KEY_LENGTH + 1
    &&& path[0] == '/'
    &&& is_key(path.skip(1))
}

/// The path under which a key is addressed.
pub open spec fn path_of_key(key: Seq<char>) -> Seq<char> {
    seq!['/'] + key
}

/// Decides whether a character may occur in a short key.
pub fn key_char(c: char) -> (ok: bool)
    ensures
        ok == is_key_char(c),
{
    ('0' <= c && c <= '9') || ('A' <= c && c <= 'Z') || ('a' <= c && c <= 'z')
}

/// A validated short key. Every value of this type holds exactly six ASCII
/// alphanumeric characters; it is made from a request path and never changed.
#[derive(Debug, PartialEq, Eq)]
pub struct ShortKey {
    text: String,
}

impl View for ShortKey {
    type V = Seq<char>;

    closed spec fn view(&self) -> Seq<char> {
        self.text@
    }
}

impl Clone for ShortKey {
    fn clone(&self) -> (copy: ShortKey)
        ensures
            copy@ == self@,
    {
        proof {
            use_type_invariant(self);
        }
        ShortKey { text: self.text.clone() }
    }
}

impl ShortKey {
    #[verifier::type_invariant]
    spec fn well_formed(&self) -> bool {
        is_key(self.text@)
    }

    /// Parses the key out of a request path. Succeeds exactly on key paths,
    /// and then yields the six characters after the slash.
    pub fn from_path(path: &str) -> (parsed: Option<ShortKey>)
        ensures
            parsed is Some <==> is_key_path(path@),
            parsed is Some ==> parsed->Some_0@ == path@.skip(1),
    {
        if path.unicode_len() != KEY_LENGTH + 1 {
            return None;
        }
        if path.get_char(0) != '/' {
            return None;
        }
        let mut i: usize = 1;
        while i <= KEY_LENGTH
            invariant
                path@.len() == KEY_LENGTH + 1,
                1 <= i <= KEY_LENGTH + 1,
                forall|j: int| 1 <= j < i ==> is_key_char(#[trigger] path@[j]),
            decreases KEY_LENGTH + 1 - i,
        {
            if !key_char(path.get_char(i)) {
                proof {
                    assert(path@.skip(1)[i - 1] == path@[i as int]);
                }
                return None;
            }
            i += 1;
        }
        let text = String::from_str(path.substring_char(1, KEY_LENGTH + 1));
        proof {
            assert(text@ =~= path@.skip(1));
            assert forall|j: int| 0 <= j < text@.len() implies is_key_char(#[trigger] text@[j]) by {
                assert(text@[j] == path@[j + 1]);
            }
        }
        Some(ShortKey { text })
    }

    /// The six characters of the key.
    pub fn as_str(&self) -> (text: &str)
        ensures
            text@ == self@,
            is_key(text@),
    {
        proof {
            use_type_invariant(self);
        }
        self.text.as_str()
    }
}

/// The path of a key is a key path, and parsing it gives the key back.
pub proof fn lemma_path_of_key(key: Seq<char>)
    requires
        is_key(key),
    ensures
        is_key_path(path_of_key(key)),
        path_of_key(key).skip(1) == key,
{
    assert(path_of_key(key).skip(1) =~= key);
}

} // verus!
