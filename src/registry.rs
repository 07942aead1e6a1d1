//! The cache of global functions resolved by name, so that each name is looked up in
//! the runtime at most once.

use vstd::prelude::*;

use crate::function::Function;
use crate::ty::same_text;

verus! {

/// The handle cached under `name` in `entries`: the first entry with that name.
pub open spec fn find(entries: Seq<(Seq<char>, u64)>, name: Seq<char>) -> Option<u64>
    decreases entries.len(),
{
    if entries.len() == 0 {
        None
    } else if entries[0].0 == name {
        Some(entries[0].1)
    } else {
        find(entries.drop_first(), name)
    }
}

/// No name appears twice.
pub open spec fn names_unique(entries: Seq<(Seq<char>, u64)>) -> bool {
    forall|i: int, j: int|
        0 <= i < j < entries.len() ==> (#[trigger] entries[i]).0 != (#[trigger] entries[j]).0
}

/// A name that `find` does not find is the name of no entry.
proof fn lemma_find_none(entries: Seq<(Seq<char>, u64)>, name: Seq<char>)
    requires
        find(entries, name) is None,
    ensures
        forall|i: int| 0 <= i < entries.len() ==> (#[trigger] entries[i]).0 != name,
    decreases entries.len(),
{
    if entries.len() > 0 {
        lemma_find_none(entries.drop_first(), name);
        assert forall|i: int| 0 <= i < entries.len() implies (#[trigger] entries[i]).0 != name by {
            if i > 0 {
                assert(entries[i] == entries.drop_first()[i - 1]);
            }
        }
    }
}

/// Global functions resolved so far, by name, each name once. The first resolution of
/// a name is kept.
#[derive(Debug)]
pub struct HandleRegistry {
    entries: Vec<(String, u64)>,
}

/// `new` is `old` after recording `handle` for `name`: the name gets the handle unless
/// it had one already, and every other name keeps what it had.
pub open spec fn records(old: &HandleRegistry, name: Seq<char>, handle: u64, new: &HandleRegistry) -> bool {
    forall|k: Seq<char>|
        #[trigger] new.cached(k) == if k == name && old.cached(k) is None {
            Some(handle)
        } else {
            old.cached(k)
        }
}

impl HandleRegistry {
    pub closed spec fn spec_entries(&self) -> Seq<(Seq<char>, u64)> {
        self.entries@.map_values(|e: (String, u64)| (e.0@, e.1))
    }

    /// Each name is cached once.
    #[verifier::type_invariant]
    closed spec fn inv(&self) -> bool {
        names_unique(self.spec_entries())
    }

    /// The handle resolved for `name`, if it was resolved.
    pub open spec fn cached(&self, name: Seq<char>) -> Option<u64> {
        find(self.spec_entries(), name)
    }

    /// A registry with no name resolved.
    pub fn new() -> (r: HandleRegistry)
        ensures
            forall|k: Seq<char>| #[trigger] r.cached(k) is None,
    {
        let r = HandleRegistry { entries: Vec::new() };
        assert(r.spec_entries() =~= Seq::<(Seq<char>, u64)>::empty());
        r
    }

    /// The handle resolved for `name`, if any.
    pub fn lookup(&self, name: &str) -> (r: Option<u64>)
        ensures
            r == self.cached(name@),
    {
        let n = self.entries.len();
        let ghost all = self.spec_entries();
        let mut i: usize = 0;
        assert(all.subrange(0, n as int) =~= all);
        while i < n
            invariant
                n == self.entries@.len(),
                all == self.spec_entries(),
                i <= n,
                find(all, name@) == find(all.subrange(i as int, n as int), name@),
            decreases n - i,
        {
            assert(all.subrange(i as int, n as int).drop_first() =~= all.subrange(
                i + 1,
                n as int,
            ));
            if same_text(self.entries[i].0.as_str(), name) {
                return Some(self.entries[i].1);
            }
            i = i + 1;
        }
        None
    }

    /// The global function resolved for `name`, if it was resolved: such a function
    /// belongs to the runtime and is never freed here.
    pub fn get(&self, name: &str) -> (r: Option<Function>)
        ensures
            r is Some <==> self.cached(name@) is Some,
            r matches Some(f) ==> f.spec_handle() == self.cached(name@).unwrap()
                && f.spec_is_global() && !f.spec_slot().spec_released(),
    {
        match self.lookup(name) {
            Some(h) => Some(Function::new(h, true, false)),
            None => None,
        }
    }

    /// Records `handle`, just resolved by the runtime, for `name`, and returns the global
    /// function now cached under it: the one resolved first.
    pub fn set(&mut self, name: &str, handle: u64) -> (r: Function)
        ensures
            records(old(self), name@, handle, final(self)),
            final(self).cached(name@) == Some(r.spec_handle()),
            r.spec_is_global(),
            !r.spec_slot().spec_released(),
    {
        match self.lookup(name) {
            Some(h) => Function::new(h, true, false),
            None => {
                proof {
                    use_type_invariant(&*self);
                    lemma_find_none(self.spec_entries(), name@);
                }
                let ghost before = self.spec_entries();
                let n = self.entries.len();
                let mut entries: Vec<(String, u64)> = Vec::with_capacity(n);
                entries.push((name.to_owned(), handle));
                let mut i: usize = 0;
                while i < n
                    invariant
                        n == self.entries@.len(),
                        before == self.spec_entries(),
                        i <= n,
                        entries@.len() == i + 1,
                        entries@[0].0@ == name@,
                        entries@[0].1 == handle,
                        forall|j: int|
                            0 <= j < i ==> (#[trigger] entries@[j + 1]).0@ == before[j].0
                                && entries@[j + 1].1 == before[j].1,
                    decreases n - i,
                {
                    let e = &self.entries[i];
                    entries.push((e.0.clone(), e.1));
                    i = i + 1;
                }
                let ghost after = entries@.map_values(|e: (String, u64)| (e.0@, e.1));
                assert(after.drop_first() =~= before);
                assert(after[0] == (name@, handle));
                assert(names_unique(after)) by {
                    assert forall|a: int, b: int| 0 <= a < b < after.len() implies (
                    #[trigger] after[a]).0 != (#[trigger] after[b]).0 by {
                        if a == 0 {
                            assert(after[b] == before[b - 1]);
                        } else {
                            assert(after[a] == before[a - 1]);
                            assert(after[b] == before[b - 1]);
                        }
                    }
                }
                self.entries = entries;
                assert(self.spec_entries().drop_first() =~= before);
                Function::new(handle, true, false)
            },
        }
    }
}

/// Idempotent resolution: once a name has been recorded, it stays cached, so the
/// runtime is not asked for it again, and recording it a second time, whatever handle
/// that second lookup gave, changes nothing; both resolutions give the same handle.
pub proof fn lemma_resolution_idempotent(
    r0: &HandleRegistry,
    r1: &HandleRegistry,
    r2: &HandleRegistry,
    name: Seq<char>,
    first: u64,
    second: u64,
)
    requires
        records(r0, name, first, r1),
        records(r1, name, second, r2),
    ensures
        r1.cached(name) is Some,
        r2.cached(name) == r1.cached(name),
        r0.cached(name) is None ==> r1.cached(name) == Some(first),
        forall|k: Seq<char>| #[trigger] r2.cached(k) == r1.cached(k),
{
    assert(r1.cached(name) == (if r0.cached(name) is None {
        Some(first)
    } else {
        r0.cached(name)
    }));
    assert forall|k: Seq<char>| #[trigger] r2.cached(k) == r1.cached(k) by {
        if k == name {
            assert(r1.cached(name) is Some);
        }
    }
}

/// `name` is among `names`.
pub open spec fn listed(names: Seq<String>, name: Seq<char>) -> bool {
    exists|i: int| 0 <= i < names.len() && (#[trigger] names[i])@ == name
}

/// Whether `name` is among the names of global functions that the runtime listed.
pub fn is_listed(names: &Vec<String>, name: &str) -> (r: bool)
    ensures
        r == listed(names@, name@),
{
    let mut i: usize = 0;
    while i < names.len()
        invariant
            i <= names@.len(),
            forall|j: int| 0 <= j < i ==> (#[trigger] names@[j])@ != name@,
        decreases names@.len() - i,
    {
        if same_text(names[i].as_str(), name) {
            return true;
        }
        i = i + 1;
    }
    false
}

} // verus!
