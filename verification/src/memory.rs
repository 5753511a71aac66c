//! A store held in memory, and the service run against it from request to
//! response.

use vstd::prelude::*;
use vstd::string::*;
use crate::dispatcher::handler;
use crate::key::ShortKey;
use crate::model;
use crate::model::StoreView;
use crate::request::Request;
use crate::resolver::{answer_view, Action, Resolver};
use crate::response::Response;
use crate::store::{InsertOutcome, LookupOutcome, ServiceError};

verus! {

#[derive(Clone, Debug, PartialEq, Eq)]
struct Entry {
    key: String,
    value: Vec<u8>,
}

/// A key/value store in memory. It never fails, holds at most one entry for
/// each key, and a write replaces what the key held before.
#[derive(Debug, PartialEq, Eq)]
pub struct MemoryStore {
    entries: Vec<Entry>,
}

impl View for MemoryStore {
    type V = StoreView;

    closed spec fn view(&self) -> StoreView {
        Map::new(
            |key: Seq<char>| exists|i: int| self.holds(key, i),
            |key: Seq<char>| self.entries@[choose|i: int| self.holds(key, i)].value@,
        )
    }
}

impl MemoryStore {
    spec fn holds(&self, key: Seq<char>, i: int) -> bool {
        0 <= i < self.entries@.len() && self.entries@[i].key@ == key
    }

    #[verifier::type_invariant]
    spec fn well_formed(&self) -> bool {
        forall|i: int, j: int|
            0 <= i < j < self.entries@.len() ==> self.entries@[i].key@ != self.entries@[j].key@
    }

    /// A store without entries.
    pub fn new() -> (store: MemoryStore)
        ensures
            store@ == Map::<Seq<char>, Seq<u8>>::empty(),
    {
        let store = MemoryStore { entries: Vec::new() };
        assert(store@ =~= Map::<Seq<char>, Seq<u8>>::empty());
        store
    }

    fn position(&self, key: &ShortKey) -> (found: Option<usize>)
        ensures
            found is Some ==> self.holds(key@, found->Some_0 as int),
            found is None ==> forall|i: int| !self.holds(key@, i),
    {
        let wanted = String::from_str(key.as_str());
        let mut i: usize = 0;
        while i < self.entries.len()
            invariant
                i <= self.entries.len(),
                wanted@ == key@,
                forall|j: int| 0 <= j < i ==> !self.holds(key@, j),
            decreases self.entries.len() - i,
        {
            if self.entries[i].key == wanted {
                return Some(i);
            }
            i += 1;
        }
        None
    }

    /// Reads the entry under a key.
    pub fn lookup(&self, key: &ShortKey) -> (outcome: LookupOutcome)
        ensures
            outcome@ == model::lookup(self@, key@),
    {
        proof {
            use_type_invariant(self);
        }
        match self.position(key) {
            Some(i) => {
                let bytes = self.entries[i].value.clone();
                proof {
                    assert(bytes@ =~= self.entries@[i as int].value@);
                    let chosen = choose|j: int| self.holds(key@, j);
                    assert(self.holds(key@, chosen));
                    assert(chosen == i);
                }
                LookupOutcome::Found(bytes)
            },
            None => LookupOutcome::Absent,
        }
    }

    /// Writes the bytes under a key, in place of what it held.
    pub fn insert(&mut self, key: &ShortKey, bytes: Vec<u8>) -> (outcome: InsertOutcome)
        ensures
            outcome == InsertOutcome::Stored,
            final(self)@ == model::insert(old(self)@, key@, bytes@),
    {
        proof {
            use_type_invariant(&*self);
        }
        let entry = Entry { key: String::from_str(key.as_str()), value: bytes };
        let found = self.position(key);
        let ghost before = self.entries@;
        let mut entries: Vec<Entry> = Vec::new();
        std::mem::swap(&mut self.entries, &mut entries);
        let ghost at: int;
        match found {
            Some(i) => {
                entries.set(i, entry);
                proof {
                    at = i as int;
                }
            },
            None => {
                entries.push(entry);
                proof {
                    at = before.len() as int;
                }
            },
        }
        proof {
            assert(old(self).holds(key@, at) || forall|i: int| !old(self).holds(key@, i));
            assert(entries@.len() > at >= 0 && entries@[at].key@ == key@ && entries@[at].value@
                == bytes@);
            assert forall|i: int| 0 <= i < entries@.len() && i != at implies entries@[i]
                == before[i] && before[i].key@ != key@ by {
                assert(!old(self).holds(key@, i) || old(self).holds(key@, at));
            }
        }
        std::mem::swap(&mut self.entries, &mut entries);
        proof {
            let after = *final(self);
            let expected = model::insert(old(self)@, key@, bytes@);
            assert(after.holds(key@, at));
            assert forall|k: Seq<char>| after@.contains_key(k) <==> expected.contains_key(
                k,
            ) by {
                if after@.contains_key(k) && k != key@ {
                    let i = choose|i: int| after.holds(k, i);
                    assert(after.holds(k, i));
                    assert(old(self).holds(k, i));
                }
                if expected.contains_key(k) && k != key@ {
                    let i = choose|i: int| old(self).holds(k, i);
                    assert(old(self).holds(k, i));
                    assert(after.holds(k, i));
                }
            }
            assert forall|k: Seq<char>| after@.contains_key(k) implies after@[k] == expected[k] by {
                let i = choose|i: int| after.holds(k, i);
                assert(after.holds(k, i));
                if k != key@ {
                    assert(old(self).holds(k, i));
                    let j = choose|j: int| old(self).holds(k, j);
                    assert(old(self).holds(k, j));
                    assert(i == j);
                } else {
                    assert(i == at);
                }
            }
            assert(after@ =~= expected);
        }
        InsertOutcome::Stored
    }
}

/// Serves one request against a store in memory: decides what the request
/// needs, performs the store operation where it needs one, and answers.
pub fn serve(resolver: &Resolver, store: &mut MemoryStore, req: &Request) -> (result: Result<
    Response,
    ServiceError,
>)
    ensures
        (final(store)@, answer_view(result)) == model::serve(
            resolver.document(),
            old(store)@,
            req@,
        ),
{
    match handler(resolver, req) {
        Action::Respond(response) => Ok(response),
        Action::Lookup(key) => {
            let outcome = store.lookup(&key);
            resolver.redirect(outcome)
        },
        Action::Insert(key, bytes) => {
            let outcome = store.insert(&key, bytes);
            resolver.stored(&key, outcome)
        },
    }
}

} // verus!
