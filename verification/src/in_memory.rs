//! A Key ID Manager that keeps its mappings in memory.

use vstd::prelude::*;

use crate::key_id_managers::{mapped, KeyTriple, KeyTripleView, ManageKeyIDs, Mappings};

verus! {

/// `entries` hold a mapping of `triple`.
spec fn holds(entries: Seq<(KeyTriple, Vec<u8>)>, triple: KeyTripleView) -> bool {
    exists|i: int| 0 <= i < entries.len() && #[trigger] entries[i].0@ == triple
}

/// The place of the mapping of `triple` in `entries`.
spec fn place(entries: Seq<(KeyTriple, Vec<u8>)>, triple: KeyTripleView) -> int {
    choose|i: int| 0 <= i < entries.len() && #[trigger] entries[i].0@ == triple
}

/// Every triple occurs once at most.
spec fn distinct(entries: Seq<(KeyTriple, Vec<u8>)>) -> bool {
    forall|i: int, j: int|
        0 <= i < entries.len() && 0 <= j < entries.len() && #[trigger] entries[i].0@
            == #[trigger] entries[j].0@ ==> i == j
}

/// The mappings that `entries` stand for.
spec fn mappings_of(entries: Seq<(KeyTriple, Vec<u8>)>) -> Mappings {
    Map::new(
        |triple: KeyTripleView| holds(entries, triple),
        |triple: KeyTripleView| entries[place(entries, triple)].1@,
    )
}

/// Removing an entry removes the mapping of its triple.
proof fn lemma_remove(entries: Seq<(KeyTriple, Vec<u8>)>, i: int)
    requires
        distinct(entries),
        0 <= i < entries.len(),
    ensures
        distinct(entries.remove(i)),
        mapped(mappings_of(entries), entries[i].0@) == Some(entries[i].1@),
        mappings_of(entries.remove(i)) == mappings_of(entries).remove(entries[i].0@),
{
    let rest = entries.remove(i);
    let triple = entries[i].0@;
    assert(forall|j: int|
        0 <= j < rest.len() ==> #[trigger] rest[j] == entries[if j < i {
            j
        } else {
            j + 1
        }]);
    assert forall|t: KeyTripleView| holds(rest, t) <==> holds(entries, t) && t != triple by {
        if holds(entries, t) && t != triple {
            let j = place(entries, t);
            assert(rest[if j < i {
                j
            } else {
                j - 1
            }] == entries[j]);
        }
        if holds(rest, t) {
            let j = place(rest, t);
            assert(rest[j].0@ == t);
        }
    }
    assert(mappings_of(rest) =~= mappings_of(entries).remove(triple));
}

/// A Key ID Manager that keeps its mappings in memory, and never fails.
pub struct InMemoryKeyIDManager {
    entries: Vec<(KeyTriple, Vec<u8>)>,
}

impl InMemoryKeyIDManager {
    #[verifier::type_invariant]
    spec fn wf(self) -> bool {
        distinct(self.entries@)
    }

    /// A Key ID Manager that holds no mapping.
    pub fn new() -> (r: InMemoryKeyIDManager)
        ensures
            r.mappings() == Map::<KeyTripleView, Seq<u8>>::empty(),
    {
        let r = InMemoryKeyIDManager { entries: Vec::new() };
        assert(r.mappings() =~= Map::empty());
        r
    }

    /// The place of the mapping of `key_triple`, if there is one.
    fn find(&self, key_triple: &KeyTriple) -> (r: Option<usize>)
        ensures
            match r {
                Some(i) => i < self.entries@.len() && self.entries@[i as int].0@ == key_triple@,
                None => !holds(self.entries@, key_triple@),
            },
    {
        for i in 0..self.entries.len()
            invariant
                forall|j: int| 0 <= j < i ==> #[trigger] self.entries@[j].0@ != key_triple@,
        {
            let triple = &self.entries[i].0;
            if triple.app_name.name == key_triple.app_name.name && triple.provider_id
                == key_triple.provider_id && triple.key_name == key_triple.key_name {
                return Some(i);
            }
        }
        None
    }
}

impl ManageKeyIDs for InMemoryKeyIDManager {
    closed spec fn mappings(&self) -> Mappings {
        mappings_of(self.entries@)
    }

    open spec fn may_fail(&self) -> bool {
        false
    }

    open spec fn may_leave(&self, after: Mappings) -> bool {
        after == self.mappings()
    }

    fn get(&self, key_triple: &KeyTriple) -> (r: core::result::Result<Option<&[u8]>, String>)
    {
        proof {
            use_type_invariant(self);
        }
        match self.find(key_triple) {
            Some(i) => Ok(Some(self.entries[i].1.as_slice())),
            None => Ok(None),
        }
    }

    fn insert(&mut self, key_triple: KeyTriple, key_id: Vec<u8>) -> (r: core::result::Result<
        Option<Vec<u8>>,
        String,
    >)
    {
        let removed = self.remove(&key_triple);
        proof {
            use_type_invariant(&*self);
        }
        let ghost before = self.entries@;
        let mut entries: Vec<(KeyTriple, Vec<u8>)> = Vec::new();
        std::mem::swap(&mut entries, &mut self.entries);
        let ghost triple = key_triple@;
        let ghost id = key_id@;
        entries.push((key_triple, key_id));
        assert(distinct(entries@)) by {
            assert(!mappings_of(before).contains_key(triple));
        }
        assert(mappings_of(entries@) =~= mappings_of(before).insert(triple, id)) by {
            assert forall|t: KeyTripleView| holds(entries@, t) <==> t == triple || holds(before, t) by {
                if holds(before, t) {
                    assert(entries@[place(before, t)].0@ == t);
                }
                assert(entries@[before.len() as int].0@ == triple);
                if holds(entries@, t) && t != triple {
                    assert(before[place(entries@, t)].0@ == t);
                }
            }
        }
        self.entries = entries;
        removed
    }

    fn remove(&mut self, key_triple: &KeyTriple) -> (r: core::result::Result<
        Option<Vec<u8>>,
        String,
    >)
    {
        proof {
            use_type_invariant(&*self);
        }
        match self.find(key_triple) {
            None => {
                assert(self.mappings() =~= self.mappings().remove(key_triple@));
                Ok(None)
            },
            Some(i) => {
                let ghost before = self.entries@;
                let mut entries: Vec<(KeyTriple, Vec<u8>)> = Vec::new();
                std::mem::swap(&mut entries, &mut self.entries);
                let (triple, key_id) = entries.remove(i);
                proof {
                    lemma_remove(before, i as int);
                }
                self.entries = entries;
                Ok(Some(key_id))
            },
        }
    }
}

} // verus!
