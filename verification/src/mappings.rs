//! The per-mode mapping table.
//!
//! A mapping binds a key sequence, within one mode, to an action string.
//! The table is modeled as a map from `(mode, key sequence)` pairs to
//! action texts; within one mode each key sequence maps to at most one
//! action, inserting overwrites, and unmapping removes silently when the
//! binding is absent.

use vstd::prelude::*;

use crate::keys::{is_prefix_of, keys_eq, keys_prefix, Key};
use crate::modes::Mode;

verus! {

/// One binding: a key sequence in a mode, bound to an action string.
pub struct Mapping {
    pub mode: Mode,
    pub keys: Vec<Key>,
    pub action: String,
}

/// The table key of a binding.
pub open spec fn binding_key(m: Mapping) -> (Mode, Seq<Key>) {
    (m.mode, m.keys@)
}

/// The map denoted by a list of bindings; a later binding overwrites an
/// earlier one with the same key.
pub open spec fn bindings_map(s: Seq<Mapping>) -> Map<(Mode, Seq<Key>), Seq<char>>
    decreases s.len(),
{
    if s.len() == 0 {
        Map::empty()
    } else {
        bindings_map(s.drop_last()).insert(binding_key(s.last()), s.last().action@)
    }
}

/// Whether some binding in the list has this table key.
pub open spec fn has_binding(s: Seq<Mapping>, k: (Mode, Seq<Key>)) -> bool {
    exists|i: int| 0 <= i < s.len() && binding_key(#[trigger] s[i]) == k
}

/// The mapping table: the per-mode key-sequence bindings.
pub struct MappingTable {
    pub entries: Vec<Mapping>,
}

proof fn lemma_bindings_map_contains(s: Seq<Mapping>)
    ensures
        forall|k: (Mode, Seq<Key>)| #[trigger] bindings_map(s).contains_key(k) <==> has_binding(s, k),
    decreases s.len(),
{
    if s.len() > 0 {
        lemma_bindings_map_contains(s.drop_last());
        assert forall|k: (Mode, Seq<Key>)| #[trigger] bindings_map(s).contains_key(k) implies has_binding(s, k) by {
            if k == binding_key(s.last()) {
                assert(binding_key(s[s.len() - 1]) == k);
            } else {
                assert(bindings_map(s.drop_last()).contains_key(k));
                let i = choose|i: int| 0 <= i < s.drop_last().len() && binding_key(#[trigger] s.drop_last()[i]) == k;
                assert(binding_key(s[i]) == k);
            }
        }
        assert forall|k: (Mode, Seq<Key>)| has_binding(s, k) implies #[trigger] bindings_map(s).contains_key(k) by {
            let i = choose|i: int| 0 <= i < s.len() && binding_key(#[trigger] s[i]) == k;
            if i < s.len() - 1 {
                assert(binding_key(s.drop_last()[i]) == k);
                assert(has_binding(s.drop_last(), k));
                assert(bindings_map(s.drop_last()).contains_key(k));
            } else {
                assert(k == binding_key(s.last()));
            }
        }
    }
}

proof fn lemma_bindings_map_value(s: Seq<Mapping>, i: int)
    requires
        0 <= i < s.len(),
        forall|j: int| i < j < s.len() ==> binding_key(#[trigger] s[j]) != binding_key(s[i]),
    ensures
        bindings_map(s).contains_key(binding_key(s[i])),
        bindings_map(s)[binding_key(s[i])] == s[i].action@,
    decreases s.len(),
{
    if i == s.len() - 1 {
    } else {
        assert(binding_key(s.last()) != binding_key(s[i]));
        assert(forall|j: int| i < j < s.drop_last().len() ==> binding_key(#[trigger] s.drop_last()[j]) != binding_key(s.drop_last()[i]));
        lemma_bindings_map_value(s.drop_last(), i);
    }
}

proof fn lemma_bindings_map_remove(s: Seq<Mapping>, i: int)
    requires
        0 <= i < s.len(),
        forall|a: int, b: int|
            0 <= a < b < s.len() ==> binding_key(#[trigger] s[a]) != binding_key(#[trigger] s[b]),
    ensures
        bindings_map(s.remove(i)) == bindings_map(s).remove(binding_key(s[i])),
    decreases s.len(),
{
    let k = binding_key(s[i]);
    if i == s.len() - 1 {
        assert(s.remove(i) =~= s.drop_last());
        lemma_bindings_map_contains(s.drop_last());
        assert(!has_binding(s.drop_last(), k)) by {
            if has_binding(s.drop_last(), k) {
                let j = choose|j: int| 0 <= j < s.drop_last().len() && binding_key(#[trigger] s.drop_last()[j]) == k;
                assert(binding_key(s[j]) == binding_key(s[i]));
            }
        }
        assert(bindings_map(s.drop_last()).insert(k, s.last().action@).remove(k) =~= bindings_map(s.drop_last()));
    } else {
        let dl = s.drop_last();
        assert(s.remove(i).drop_last() =~= dl.remove(i));
        assert(s.remove(i).last() == s.last());
        assert(s.remove(i).len() == s.len() - 1);
        lemma_bindings_map_remove(dl, i);
        assert(binding_key(s.last()) != k);
        assert(bindings_map(s.remove(i)) == bindings_map(dl.remove(i)).insert(binding_key(s.last()), s.last().action@));
        assert(bindings_map(dl).remove(k).insert(binding_key(s.last()), s.last().action@)
            =~= bindings_map(dl).insert(binding_key(s.last()), s.last().action@).remove(k));
    }
}

impl MappingTable {
    /// The map this table denotes.
    pub open spec fn as_map(self) -> Map<(Mode, Seq<Key>), Seq<char>> {
        bindings_map(self.entries@)
    }

    /// Within one mode, each key sequence is bound at most once.
    pub open spec fn wf(self) -> bool {
        forall|a: int, b: int|
            0 <= a < b < self.entries@.len()
                ==> binding_key(#[trigger] self.entries@[a]) != binding_key(#[trigger] self.entries@[b])
    }

    /// An empty table.
    pub fn new() -> (r: MappingTable)
        ensures
            r.wf(),
            r.as_map() == Map::<(Mode, Seq<Key>), Seq<char>>::empty(),
            r.entries@.len() == 0,
    {
        MappingTable { entries: Vec::new() }
    }

    /// Look up the action bound to this key sequence in this mode.
    pub fn lookup(&self, mode: Mode, keys: &[Key]) -> (r: Option<&String>)
        requires
            self.wf(),
        ensures
            match r {
                Some(a) => self.as_map().contains_key((mode, keys@))
                    && a@ == self.as_map()[(mode, keys@)],
                None => !self.as_map().contains_key((mode, keys@)),
            },
    {
        let mut i: usize = 0;
        while i < self.entries.len()
            invariant
                i <= self.entries@.len(),
                self.wf(),
                forall|j: int| 0 <= j < i ==> binding_key(#[trigger] self.entries@[j]) != (mode, keys@),
            decreases self.entries@.len() - i,
        {
            if self.entries[i].mode == mode && keys_eq(self.entries[i].keys.as_slice(), keys) {
                proof {
                    lemma_bindings_map_value(self.entries@, i as int);
                }
                return Some(&self.entries[i].action);
            }
            i += 1;
        }
        proof {
            lemma_bindings_map_contains(self.entries@);
        }
        None
    }

    /// Remove the binding for this key sequence in this mode; removing an
    /// absent binding leaves the table untouched.
    pub fn remove(&mut self, mode: Mode, keys: &[Key])
        requires
            old(self).wf(),
        ensures
            final(self).wf(),
            final(self).as_map() == old(self).as_map().remove((mode, keys@)),
            !old(self).as_map().contains_key((mode, keys@)) ==> final(self).entries@ == old(self).entries@,
    {
        let ghost s0 = self.entries@;
        let mut i: usize = 0;
        while i < self.entries.len()
            invariant
                self.entries@ == s0,
                s0 == old(self).entries@,
                i <= s0.len(),
                old(self).wf(),
                forall|j: int| 0 <= j < i ==> binding_key(#[trigger] s0[j]) != (mode, keys@),
            decreases s0.len() - i,
        {
            if self.entries[i].mode == mode && keys_eq(self.entries[i].keys.as_slice(), keys) {
                proof {
                    lemma_bindings_map_remove(s0, i as int);
                    lemma_bindings_map_contains(s0);
                    assert(binding_key(s0[i as int]) == (mode, keys@));
                    assert(has_binding(s0, (mode, keys@)));
                }
                self.entries.remove(i);
                proof {
                    assert forall|a: int, b: int|
                        0 <= a < b < self.entries@.len() implies binding_key(#[trigger] self.entries@[a])
                        != binding_key(#[trigger] self.entries@[b]) by {
                        let a0 = if a < i { a } else { a + 1 };
                        let b0 = if b < i { b } else { b + 1 };
                        assert(self.entries@[a] == s0[a0]);
                        assert(self.entries@[b] == s0[b0]);
                    }
                }
                return;
            }
            i += 1;
        }
        proof {
            lemma_bindings_map_contains(s0);
            assert(!self.as_map().contains_key((mode, keys@)));
            assert(self.as_map().remove((mode, keys@)) =~= self.as_map());
        }
    }

    /// Bind this key sequence to an action in this mode, overwriting any
    /// earlier binding for the same sequence.
    pub fn insert(&mut self, mode: Mode, keys: Vec<Key>, action: String)
        requires
            old(self).wf(),
        ensures
            final(self).wf(),
            final(self).as_map() == old(self).as_map().insert((mode, keys@), action@),
    {
        self.remove(mode, keys.as_slice());
        let ghost mid = self.entries@;
        self.entries.push(Mapping { mode, keys, action });
        proof {
            assert(self.entries@.drop_last() =~= mid);
            assert(self.entries@.last() == (Mapping { mode, keys, action }));
            lemma_bindings_map_contains(mid);
            assert forall|a: int, b: int|
                0 <= a < b < self.entries@.len() implies binding_key(#[trigger] self.entries@[a])
                != binding_key(#[trigger] self.entries@[b]) by {
                if b == self.entries@.len() - 1 {
                    if binding_key(mid[a]) == (mode, keys@) {
                        assert(bindings_map(mid).contains_key((mode, keys@)));
                    }
                }
            }
            assert(final(self).as_map() =~= old(self).as_map().insert((mode, keys@), action@));
        }
    }

    /// Whether some binding in this mode extends the given key sequence
    /// (the sequence is a prefix, possibly the whole bound sequence).
    pub fn any_prefixed(&self, mode: Mode, keys: &[Key]) -> (r: bool)
        requires
            self.wf(),
        ensures
            r == exists|k: (Mode, Seq<Key>)|
                #[trigger] self.as_map().contains_key(k) && k.0 == mode && is_prefix_of(keys@, k.1),
    {
        proof {
            lemma_bindings_map_contains(self.entries@);
        }
        let mut i: usize = 0;
        while i < self.entries.len()
            invariant
                i <= self.entries@.len(),
                self.wf(),
                forall|k: (Mode, Seq<Key>)| #[trigger] bindings_map(self.entries@).contains_key(k) <==> has_binding(self.entries@, k),
                forall|j: int| 0 <= j < i
                    ==> !((#[trigger] self.entries@[j]).mode == mode && is_prefix_of(keys@, self.entries@[j].keys@)),
            decreases self.entries@.len() - i,
        {
            if self.entries[i].mode == mode && keys_prefix(keys, self.entries[i].keys.as_slice()) {
                proof {
                    let k = binding_key(self.entries@[i as int]);
                    assert(has_binding(self.entries@, k));
                    assert(self.as_map().contains_key(k) && k.0 == mode && is_prefix_of(keys@, k.1));
                }
                return true;
            }
            i += 1;
        }
        proof {
            if exists|k: (Mode, Seq<Key>)|
                #[trigger] self.as_map().contains_key(k) && k.0 == mode && is_prefix_of(keys@, k.1) {
                let k = choose|k: (Mode, Seq<Key>)|
                    #[trigger] self.as_map().contains_key(k) && k.0 == mode && is_prefix_of(keys@, k.1);
                let j = choose|j: int| 0 <= j < self.entries@.len() && binding_key(#[trigger] self.entries@[j]) == k;
                assert(self.entries@[j].mode == mode && is_prefix_of(keys@, self.entries@[j].keys@));
            }
        }
        false
    }
}

/// Unmapping a key sequence that was never mapped is a no-op: the mapping
/// table it denotes is unchanged.
pub proof fn lemma_unmap_absent(m: Map<(Mode, Seq<Key>), Seq<char>>, k: (Mode, Seq<Key>))
    requires
        !m.contains_key(k),
    ensures
        m.remove(k) == m,
{
    assert(m.remove(k) =~= m);
}

} // verus!
