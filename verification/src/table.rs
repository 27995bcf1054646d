//! A table of things registered under a name and an argument count.

use vstd::prelude::*;

use crate::text::str_eq;

verus! {

/// One registration.
pub struct NamedEntry<V> {
    name: String,
    argc: i32,
    value: V,
}

impl<V> NamedEntry<V> {
    spec fn key(self) -> (Seq<char>, i32) {
        (self.name@, self.argc)
    }
}

/// Registrations by name and argument count; no pair of them is in the table twice.
pub struct NamedTable<V> {
    entries: Vec<NamedEntry<V>>,
}

spec fn has_key<V>(entries: Seq<NamedEntry<V>>, key: (Seq<char>, i32)) -> bool {
    exists|i: int| 0 <= i < entries.len() && (#[trigger] entries[i]).key() == key
}

spec fn position<V>(entries: Seq<NamedEntry<V>>, key: (Seq<char>, i32)) -> int {
    choose|i: int| 0 <= i < entries.len() && (#[trigger] entries[i]).key() == key
}

spec fn unique<V>(entries: Seq<NamedEntry<V>>) -> bool {
    forall|i: int, j: int|
        0 <= i < j < entries.len() ==> (#[trigger] entries[i]).key() != (
        #[trigger] entries[j]).key()
}

spec fn as_map<V>(entries: Seq<NamedEntry<V>>) -> Map<(Seq<char>, i32), V> {
    Map::new(
        |key: (Seq<char>, i32)| has_key(entries, key),
        |key: (Seq<char>, i32)| entries[position(entries, key)].value,
    )
}

/// In a list without repeated keys, every entry is what its key stands for.
proof fn lemma_at<V>(entries: Seq<NamedEntry<V>>, i: int)
    requires
        unique(entries),
        0 <= i < entries.len(),
    ensures
        as_map(entries).contains_key(entries[i].key()),
        as_map(entries)[entries[i].key()] == entries[i].value,
{
    let key = entries[i].key();
    assert(has_key(entries, key));
    let p = position(entries, key);
    assert(0 <= p < entries.len() && entries[p].key() == key);
    if p < i {
        assert(entries[p].key() != entries[i].key());
    } else if i < p {
        assert(entries[i].key() != entries[p].key());
    }
}

proof fn lemma_count<V>(entries: Seq<NamedEntry<V>>)
    requires
        unique(entries),
    ensures
        as_map(entries).dom().finite(),
        as_map(entries).dom().len() == entries.len(),
    decreases entries.len(),
{
    if entries.len() == 0 {
        assert(as_map(entries).dom() =~= Set::<(Seq<char>, i32)>::empty());
    } else {
        let rest = entries.drop_last();
        let key = entries.last().key();
        lemma_count(rest);
        assert forall|i: int| 0 <= i < rest.len() implies (#[trigger] rest[i]).key() != key by {
            assert(rest[i] == entries[i]);
        }
        assert forall|k: (Seq<char>, i32)| has_key(entries, k) == (has_key(rest, k) || k == key) by {
            if has_key(entries, k) {
                let i = choose|i: int| 0 <= i < entries.len() && (#[trigger] entries[i]).key() == k;
                if i < rest.len() {
                    assert(rest[i] == entries[i]);
                }
            }
            if has_key(rest, k) {
                let i = choose|i: int| 0 <= i < rest.len() && (#[trigger] rest[i]).key() == k;
                assert(entries[i] == rest[i]);
            }
            if k == key {
                assert(entries[entries.len() - 1].key() == k);
            }
        }
        assert(as_map(entries).dom() =~= as_map(rest).dom().insert(key));
    }
}

impl<V> View for NamedTable<V> {
    type V = Map<(Seq<char>, i32), V>;

    closed spec fn view(&self) -> Map<(Seq<char>, i32), V> {
        as_map(self.entries@)
    }
}

impl<V> NamedTable<V> {
    #[verifier::type_invariant]
    spec fn well_formed(&self) -> bool {
        unique(self.entries@)
    }

    pub fn new() -> (r: Self)
        ensures
            r@ == Map::<(Seq<char>, i32), V>::empty(),
    {
        let r = NamedTable { entries: Vec::new() };
        assert(r@ =~= Map::<(Seq<char>, i32), V>::empty());
        r
    }

    fn find(&self, name: &str, argc: i32) -> (r: Option<usize>)
        ensures
            match r {
                Some(i) => i < self.entries@.len() && self.entries@[i as int].key() == (name@, argc),
                None => !has_key(self.entries@, (name@, argc)),
            },
    {
        let mut i: usize = 0;
        while i < self.entries.len()
            invariant
                i <= self.entries@.len(),
                forall|j: int| 0 <= j < i ==> (#[trigger] self.entries@[j]).key() != (name@, argc),
            decreases self.entries@.len() - i,
        {
            if self.entries[i].argc == argc && str_eq(self.entries[i].name.as_str(), name) {
                return Some(i);
            }
            i += 1;
        }
        None
    }

    /// What is registered under the name with that argument count.
    pub fn get(&self, name: &str, argc: i32) -> (r: Option<&V>)
        ensures
            match r {
                Some(v) => self@.contains_key((name@, argc)) && *v == self@[(name@, argc)],
                None => !self@.contains_key((name@, argc)),
            },
    {
        proof {
            use_type_invariant(self);
        }
        match self.find(name, argc) {
            Some(i) => {
                proof {
                    lemma_at(self.entries@, i as int);
                }
                Some(&self.entries[i].value)
            },
            None => None,
        }
    }

    pub fn contains(&self, name: &str, argc: i32) -> (r: bool)
        ensures
            r == self@.contains_key((name@, argc)),
    {
        self.get(name, argc).is_some()
    }

    /// Whether anything is registered under the name, with whatever argument count.
    pub fn contains_name(&self, name: &str) -> (r: bool)
        ensures
            r == exists|argc: i32| #[trigger] self@.contains_key((name@, argc)),
    {
        proof {
            use_type_invariant(self);
        }
        let mut i: usize = 0;
        while i < self.entries.len()
            invariant
                i <= self.entries@.len(),
                unique(self.entries@),
                forall|j: int| 0 <= j < i ==> (#[trigger] self.entries@[j]).name@ != name@,
            decreases self.entries@.len() - i,
        {
            if str_eq(self.entries[i].name.as_str(), name) {
                proof {
                    lemma_at(self.entries@, i as int);
                    assert(self@.contains_key((name@, self.entries@[i as int].argc)));
                }
                return true;
            }
            i += 1;
        }
        proof {
            assert forall|argc: i32| !#[trigger] self@.contains_key((name@, argc)) by {
                if self@.contains_key((name@, argc)) {
                    let p = position(self.entries@, (name@, argc));
                    assert(self.entries@[p].name@ == name@);
                }
            }
        }
        false
    }

    /// Registers `value`, and hands back what it replaces.
    pub fn insert(&mut self, name: String, argc: i32, value: V) -> (r: Option<V>)
        ensures
            final(self)@ == old(self)@.insert((name@, argc), value),
            match r {
                Some(v) => old(self)@.contains_key((name@, argc)) && v == old(self)@[(name@, argc)],
                None => !old(self)@.contains_key((name@, argc)),
            },
    {
        let removed = self.remove(name.as_str(), argc);
        proof {
            use_type_invariant(&*self);
        }
        let mut entries: Vec<NamedEntry<V>> = Vec::new();
        std::mem::swap(&mut entries, &mut self.entries);
        let ghost before = entries@;
        let ghost key = (name@, argc);
        let ghost gone = as_map(before);
        assert(!has_key(before, key)) by {
            assert(!gone.contains_key(key));
        }
        let ghost entry = NamedEntry { name, argc, value };
        entries.push(NamedEntry { name, argc, value });
        proof {
            assert(entries@ =~= before.push(entry));
            assert(unique(entries@)) by {
                assert forall|i: int, j: int| 0 <= i < j < entries@.len() implies (
                #[trigger] entries@[i]).key() != (#[trigger] entries@[j]).key() by {
                    assert(entries@[i] == before[i]);
                    if j < before.len() {
                        assert(entries@[j] == before[j]);
                    } else {
                        assert(before[i].key() != key);
                    }
                }
            }
            assert forall|k: (Seq<char>, i32)| #[trigger] has_key(entries@, k) <==> (has_key(
                before,
                k,
            ) || k == key) by {
                if has_key(entries@, k) {
                    let p = position(entries@, k);
                    if p < before.len() {
                        assert(before[p].key() == k);
                    }
                }
                if has_key(before, k) {
                    let p = position(before, k);
                    assert(entries@[p].key() == k);
                }
                if k == key {
                    assert(entries@[before.len() as int].key() == k);
                }
            }
            assert forall|k: (Seq<char>, i32)| has_key(entries@, k) implies #[trigger] as_map(
                entries@,
            )[k] == (if k == key {
                value
            } else {
                as_map(before)[k]
            }) by {
                if k == key {
                    lemma_at(entries@, before.len() as int);
                } else {
                    let p = position(before, k);
                    assert(has_key(before, k));
                    lemma_at(before, p);
                    assert(entries@[p] == before[p]);
                    lemma_at(entries@, p);
                }
            }
            assert(gone == old(self)@.remove(key));
            assert forall|k: (Seq<char>, i32)| #[trigger] as_map(entries@).contains_key(k)
                <==> old(self)@.insert(key, value).contains_key(k) by {
                assert(as_map(entries@).contains_key(k) == has_key(entries@, k));
                assert(gone.contains_key(k) == has_key(before, k));
            }
            assert forall|k: (Seq<char>, i32)| as_map(entries@).contains_key(k) implies #[trigger] as_map(
                entries@,
            )[k] == old(self)@.insert(key, value)[k] by {
                assert(has_key(entries@, k));
                assert(k != key ==> gone.contains_key(k));
            }
            assert(as_map(entries@) =~= old(self)@.insert(key, value));
        }
        self.entries = entries;
        removed
    }

    /// Removes the registration under the name with that argument count, and hands it back.
    pub fn remove(&mut self, name: &str, argc: i32) -> (r: Option<V>)
        ensures
            final(self)@ == old(self)@.remove((name@, argc)),
            match r {
                Some(v) => old(self)@.contains_key((name@, argc)) && v == old(self)@[(name@, argc)],
                None => !old(self)@.contains_key((name@, argc)),
            },
    {
        proof {
            use_type_invariant(&*self);
        }
        let ghost key = (name@, argc);
        let ghost before = self.entries@;
        match self.find(name, argc) {
            Some(i) => {
                let mut entries: Vec<NamedEntry<V>> = Vec::new();
                std::mem::swap(&mut entries, &mut self.entries);
                let removed = entries.remove(i);
                proof {
                    lemma_at(before, i as int);
                    lemma_removed(before, i as int);
                    assert(entries@ =~= before.remove(i as int));
                    assert(as_map(entries@) =~= old(self)@.remove(key));
                }
                self.entries = entries;
                Some(removed.value)
            },
            None => {
                assert(self@ =~= old(self)@.remove(key));
                None
            },
        }
    }

    /// Removes every registration under the name, whatever its argument count; says whether there
    /// was one.
    pub fn remove_named(&mut self, name: &str) -> (r: bool)
        ensures
            final(self)@ == old(self)@.restrict(
                Set::new(|key: (Seq<char>, i32)| key.0 != name@),
            ),
            r == exists|argc: i32| #[trigger] old(self)@.contains_key((name@, argc)),
    {
        let any = self.contains_name(name);
        proof {
            use_type_invariant(&*self);
        }
        let mut entries: Vec<NamedEntry<V>> = Vec::new();
        std::mem::swap(&mut entries, &mut self.entries);
        let ghost all = old(self)@;
        let mut i: usize = 0;
        while i < entries.len()
            invariant
                i <= entries@.len(),
                unique(entries@),
                forall|j: int| 0 <= j < i ==> (#[trigger] entries@[j]).name@ != name@,
                forall|k: (Seq<char>, i32)|
                    k.0 != name@ ==> (#[trigger] as_map(entries@).contains_key(k)
                        == all.contains_key(k)),
                forall|k: (Seq<char>, i32)|
                    k.0 != name@ && all.contains_key(k) ==> #[trigger] as_map(entries@)[k] == all[k],
            decreases entries@.len() - i,
        {
            if str_eq(entries[i].name.as_str(), name) {
                let ghost before = entries@;
                let _ = entries.remove(i);
                proof {
                    lemma_removed(before, i as int);
                    assert(entries@ =~= before.remove(i as int));
                    assert forall|j: int| 0 <= j < i implies (#[trigger] entries@[j]).name@
                        != name@ by {
                        assert(entries@[j] == before[j]);
                    }
                }
            } else {
                i += 1;
            }
        }
        proof {
            assert forall|k: (Seq<char>, i32)| k.0 == name@ implies !#[trigger] has_key(
                entries@,
                k,
            ) by {
                if has_key(entries@, k) {
                    let p = position(entries@, k);
                    assert(entries@[p].name@ == name@);
                }
            }
            assert(as_map(entries@) =~= all.restrict(
                Set::new(|key: (Seq<char>, i32)| key.0 != name@),
            ));
        }
        self.entries = entries;
        any
    }

    /// Takes one registration out, whichever comes first; none when the table is empty.
    pub fn pop(&mut self) -> (r: Option<(String, i32, V)>)
        ensures
            match r {
                Some((name, argc, v)) => {
                    &&& old(self)@.contains_key((name@, argc))
                    &&& v == old(self)@[(name@, argc)]
                    &&& final(self)@ == old(self)@.remove((name@, argc))
                    &&& final(self).count() < old(self).count()
                },
                None => {
                    &&& old(self)@ == Map::<(Seq<char>, i32), V>::empty()
                    &&& final(self)@ == old(self)@
                },
            },
    {
        proof {
            use_type_invariant(&*self);
        }
        let ghost before = self.entries@;
        if self.entries.len() == 0 {
            assert(self@ =~= Map::<(Seq<char>, i32), V>::empty());
            return None;
        }
        let mut entries: Vec<NamedEntry<V>> = Vec::new();
        std::mem::swap(&mut entries, &mut self.entries);
        let entry = entries.remove(0);
        proof {
            lemma_at(before, 0);
            lemma_removed(before, 0);
            assert(entries@ =~= before.remove(0));
        }
        self.entries = entries;
        assert(self@ =~= old(self)@.remove((entry.name@, entry.argc)));
        Some((entry.name, entry.argc, entry.value))
    }

    /// How many registrations there are.
    pub closed spec fn count(&self) -> nat {
        self.entries@.len()
    }

    pub fn len(&self) -> (r: usize)
        ensures
            r == self.count(),
            self@.dom().finite(),
            r == self@.dom().len(),
    {
        proof {
            use_type_invariant(self);
            lemma_count(self.entries@);
        }
        self.entries.len()
    }

    /// Forgets everything.
    pub fn clear(&mut self)
        ensures
            final(self)@ == Map::<(Seq<char>, i32), V>::empty(),
    {
        self.entries = Vec::new();
        assert(self@ =~= Map::<(Seq<char>, i32), V>::empty());
    }
}

impl<T> NamedTable<std::sync::Arc<T>> {
    /// A second table with the same registrations, which from now on changes on its own.
    pub fn snapshot(&self) -> (r: Self)
        ensures
            r@ == self@,
    {
        proof {
            use_type_invariant(self);
        }
        let mut entries: Vec<NamedEntry<std::sync::Arc<T>>> = Vec::new();
        let mut i: usize = 0;
        while i < self.entries.len()
            invariant
                i <= self.entries@.len(),
                entries@.len() == i,
                forall|j: int|
                    0 <= j < i ==> (#[trigger] entries@[j]).key() == self.entries@[j].key()
                        && entries@[j].value == self.entries@[j].value,
            decreases self.entries@.len() - i,
        {
            entries.push(
                NamedEntry {
                    name: self.entries[i].name.clone(),
                    argc: self.entries[i].argc,
                    value: self.entries[i].value.clone(),
                },
            );
            i += 1;
        }
        proof {
            assert(unique(entries@)) by {
                assert forall|a: int, b: int| 0 <= a < b < entries@.len() implies (
                #[trigger] entries@[a]).key() != (#[trigger] entries@[b]).key() by {
                    assert(self.entries@[a].key() != self.entries@[b].key());
                }
            }
            assert forall|k: (Seq<char>, i32)| #[trigger] has_key(entries@, k) == has_key(
                self.entries@,
                k,
            ) by {
                if has_key(entries@, k) {
                    assert(self.entries@[position(entries@, k)].key() == k);
                }
                if has_key(self.entries@, k) {
                    assert(entries@[position(self.entries@, k)].key() == k);
                }
            }
            assert forall|k: (Seq<char>, i32)| has_key(entries@, k) implies #[trigger] as_map(
                entries@,
            )[k] == as_map(self.entries@)[k] by {
                let p = position(entries@, k);
                assert(entries@[p].key() == k);
                lemma_at(entries@, p);
                lemma_at(self.entries@, p);
            }
            assert(as_map(entries@) =~= as_map(self.entries@));
        }
        NamedTable { entries }
    }
}

/// Taking one entry out of a list without repeated keys takes its key out of the map.
proof fn lemma_removed<V>(entries: Seq<NamedEntry<V>>, i: int)
    requires
        unique(entries),
        0 <= i < entries.len(),
    ensures
        unique(entries.remove(i)),
        as_map(entries.remove(i)) == as_map(entries).remove(entries[i].key()),
{
    let after = entries.remove(i);
    let key = entries[i].key();
    assert forall|a: int, b: int| 0 <= a < b < after.len() implies (#[trigger] after[a]).key() != (
    #[trigger] after[b]).key() by {
        let a0 = if a < i {
            a
        } else {
            a + 1
        };
        let b0 = if b < i {
            b
        } else {
            b + 1
        };
        assert(after[a] == entries[a0]);
        assert(after[b] == entries[b0]);
    }
    assert forall|k: (Seq<char>, i32)| #[trigger] has_key(after, k) <==> (has_key(entries, k) && k
        != key) by {
        if has_key(after, k) {
            let p = position(after, k);
            let p0 = if p < i {
                p
            } else {
                p + 1
            };
            assert(after[p] == entries[p0]);
            assert(entries[p0].key() == k);
            if p0 < i {
                assert(entries[p0].key() != entries[i].key());
            } else {
                assert(entries[i].key() != entries[p0].key());
            }
        }
        if has_key(entries, k) && k != key {
            let p = position(entries, k);
            let p1 = if p < i {
                p
            } else {
                p - 1
            };
            assert(after[p1] == entries[p]);
            assert(after[p1].key() == k);
        }
    }
    assert forall|k: (Seq<char>, i32)| has_key(after, k) implies #[trigger] as_map(after)[k]
        == as_map(entries)[k] by {
        let p = position(after, k);
        let p0 = if p < i {
            p
        } else {
            p + 1
        };
        assert(after[p] == entries[p0]);
        lemma_at(after, p);
        lemma_at(entries, p0);
    }
    assert(as_map(after) =~= as_map(entries).remove(key));
}

}
