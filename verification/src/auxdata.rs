//! The data functions keep between calls, one slot per call site and argument.

use vstd::prelude::*;

verus! {

/// What one call site stored for one of its arguments.
pub struct AuxDataEntry<O> {
    pc: u32,
    arg: u32,
    data: O,
}

impl<O> AuxDataEntry<O> {
    spec fn key(self) -> (u32, u32) {
        (self.pc, self.arg)
    }
}

/// Auxiliary data of one running statement, keyed by the instruction that makes the call and the
/// index of the argument.
pub struct AuxDataStore<O> {
    entries: Vec<AuxDataEntry<O>>,
}

/// Whether data stored for argument `arg` survives to the next row: only that of an argument whose
/// value is constant does, and the mask speaks of the first 32 arguments alone.
pub open spec fn survives(arg: u32, constant_mask: i32) -> bool {
    arg < 32 && constant_mask & (1i32 << arg) != 0
}

/// What is left of a store between two rows, once the call at `pc` has returned: everything other
/// calls stored, and what this one stored for its constant arguments.
pub open spec fn between_rows<O>(
    store: Map<(u32, u32), O>,
    pc: u32,
    constant_mask: i32,
) -> Map<(u32, u32), O> {
    store.restrict(Set::new(|key: (u32, u32)| key.0 != pc || survives(key.1, constant_mask)))
}

/// The data behind the first entry under `key`.
spec fn lookup<O>(entries: Seq<AuxDataEntry<O>>, key: (u32, u32)) -> Option<O>
    decreases entries.len(),
{
    if entries.len() == 0 {
        None
    } else if entries[0].key() == key {
        Some(entries[0].data)
    } else {
        lookup(entries.drop_first(), key)
    }
}

impl<O> View for AuxDataStore<O> {
    type V = Map<(u32, u32), O>;

    closed spec fn view(&self) -> Map<(u32, u32), O> {
        Map::new(
            |key: (u32, u32)| lookup(self.entries@, key) is Some,
            |key: (u32, u32)| lookup(self.entries@, key)->0,
        )
    }
}

proof fn lemma_lookup_first<O>(entries: Seq<AuxDataEntry<O>>, i: int, key: (u32, u32))
    requires
        0 <= i < entries.len(),
        entries[i].key() == key,
        forall|j: int| 0 <= j < i ==> (#[trigger] entries[j]).key() != key,
    ensures
        lookup(entries, key) == Some(entries[i].data),
    decreases i,
{
    if i > 0 {
        let rest = entries.drop_first();
        assert forall|j: int| 0 <= j < i - 1 implies (#[trigger] rest[j]).key() != key by {
            assert(rest[j] == entries[j + 1]);
        }
        lemma_lookup_first(rest, i - 1, key);
    }
}

proof fn lemma_lookup_absent<O>(entries: Seq<AuxDataEntry<O>>, key: (u32, u32))
    requires
        forall|j: int| 0 <= j < entries.len() ==> (#[trigger] entries[j]).key() != key,
    ensures
        lookup(entries, key) is None,
    decreases entries.len(),
{
    if entries.len() > 0 {
        let rest = entries.drop_first();
        assert forall|j: int| 0 <= j < rest.len() implies (#[trigger] rest[j]).key() != key by {
            assert(rest[j] == entries[j + 1]);
        }
        lemma_lookup_absent(rest, key);
    }
}

proof fn lemma_lookup_push<O>(entries: Seq<AuxDataEntry<O>>, e: AuxDataEntry<O>, key: (u32, u32))
    ensures
        lookup(entries.push(e), key) == (if lookup(entries, key) is Some {
            lookup(entries, key)
        } else if e.key() == key {
            Some(e.data)
        } else {
            None
        }),
    decreases entries.len(),
{
    if entries.len() == 0 {
        reveal_with_fuel(lookup, 2);
        assert(entries.push(e)[0] == e);
        assert(entries.push(e).drop_first() =~= Seq::<AuxDataEntry<O>>::empty());
    } else {
        assert(entries.push(e)[0] == entries[0]);
        assert(entries.push(e).drop_first() =~= entries.drop_first().push(e));
        lemma_lookup_push(entries.drop_first(), e, key);
    }
}

proof fn lemma_lookup_update<O>(
    entries: Seq<AuxDataEntry<O>>,
    i: int,
    e: AuxDataEntry<O>,
    key: (u32, u32),
)
    requires
        0 <= i < entries.len(),
        entries[i].key() == e.key(),
        key != e.key(),
    ensures
        lookup(entries.update(i, e), key) == lookup(entries, key),
    decreases entries.len(),
{
    let updated = entries.update(i, e);
    if i == 0 {
        assert(updated.drop_first() =~= entries.drop_first());
    } else {
        assert(updated[0] == entries[0]);
        assert(updated.drop_first() =~= entries.drop_first().update(i - 1, e));
        lemma_lookup_update(entries.drop_first(), i - 1, e, key);
    }
}

/// Filtering by key keeps the first entry of every key it keeps.
proof fn lemma_lookup_filter<O>(
    entries: Seq<AuxDataEntry<O>>,
    keep: spec_fn(AuxDataEntry<O>) -> bool,
    kept: spec_fn((u32, u32)) -> bool,
    key: (u32, u32),
)
    requires
        forall|e: AuxDataEntry<O>| #[trigger] keep(e) == kept(e.key()),
    ensures
        lookup(entries.filter(keep), key) == (if kept(key) {
            lookup(entries, key)
        } else {
            None
        }),
    decreases entries.len(),
{
    if entries.len() == 0 {
        reveal(Seq::filter);
        assert(entries.filter(keep) =~= entries);
    } else {
        let first = entries[0];
        let rest = entries.drop_first();
        assert(entries =~= seq![first] + rest);
        Seq::filter_distributes_over_add(seq![first], rest, keep);
        lemma_lookup_filter(rest, keep, kept, key);
        assert(seq![first].filter(keep) =~= (if keep(first) {
            seq![first]
        } else {
            seq![]
        })) by {
            reveal_with_fuel(Seq::filter, 2);
            assert(seq![first].drop_last() =~= Seq::<AuxDataEntry<O>>::empty());
        }
        let filtered = entries.filter(keep);
        if keep(first) {
            assert(filtered[0] == first);
            assert(filtered.drop_first() =~= rest.filter(keep));
        } else {
            assert(filtered =~= rest.filter(keep));
        }
    }
}

impl<O> AuxDataStore<O> {
    /// No slot is stored twice.
    pub closed spec fn unique(&self) -> bool {
        forall|i: int, j: int|
            0 <= i < j < self.entries@.len() ==> (#[trigger] self.entries@[i]).key() != (
            #[trigger] self.entries@[j]).key()
    }

    pub fn new() -> (r: Self)
        ensures
            r@ == Map::<(u32, u32), O>::empty(),
            r.unique(),
    {
        let r = AuxDataStore { entries: Vec::new() };
        assert(r@ =~= Map::<(u32, u32), O>::empty());
        r
    }

    fn find(&self, pc: u32, arg: u32) -> (r: Option<usize>)
        ensures
            match r {
                Some(i) => i < self.entries@.len() && self.entries@[i as int].key() == (pc, arg)
                    && (forall|j: int|
                    0 <= j < i ==> (#[trigger] self.entries@[j]).key() != (pc, arg)),
                None => forall|j: int|
                    0 <= j < self.entries@.len() ==> (#[trigger] self.entries@[j]).key() != (
                        pc,
                        arg,
                    ),
            },
    {
        let mut i: usize = 0;
        while i < self.entries.len()
            invariant
                i <= self.entries@.len(),
                forall|j: int| 0 <= j < i ==> (#[trigger] self.entries@[j]).key() != (pc, arg),
            decreases self.entries@.len() - i,
        {
            if self.entries[i].pc == pc && self.entries[i].arg == arg {
                return Some(i);
            }
            i += 1;
        }
        None
    }

    /// The data stored for argument `arg` of the call at `pc`.
    pub fn get(&self, pc: u32, arg: u32) -> (r: Option<&O>)
        ensures
            match r {
                Some(data) => self@.contains_key((pc, arg)) && *data == self@[(pc, arg)],
                None => !self@.contains_key((pc, arg)),
            },
    {
        match self.find(pc, arg) {
            Some(i) => {
                proof {
                    lemma_lookup_first(self.entries@, i as int, (pc, arg));
                }
                Some(&self.entries[i].data)
            },
            None => {
                proof {
                    lemma_lookup_absent(self.entries@, (pc, arg));
                }
                None
            },
        }
    }

    /// Stores data for argument `arg` of the call at `pc`, in place of what was there.
    pub fn set(&mut self, pc: u32, arg: u32, data: O)
        ensures
            final(self)@ == old(self)@.insert((pc, arg), data),
            old(self).unique() ==> final(self).unique(),
    {
        let found = self.find(pc, arg);
        let ghost before = self.entries@;
        let ghost entry = AuxDataEntry { pc, arg, data };
        match found {
            Some(i) => {
                self.entries[i] = AuxDataEntry { pc, arg, data };
                proof {
                    assert(self.entries@ =~= before.update(i as int, entry));
                    lemma_lookup_first(self.entries@, i as int, (pc, arg));
                    assert forall|key: (u32, u32)| key != (pc, arg) implies #[trigger] lookup(
                        self.entries@,
                        key,
                    ) == lookup(before, key) by {
                        lemma_lookup_update(before, i as int, entry, key);
                    }
                }
            },
            None => {
                self.entries.push(AuxDataEntry { pc, arg, data });
                proof {
                    assert(self.entries@ =~= before.push(entry));
                    lemma_lookup_absent(before, (pc, arg));
                    assert forall|key: (u32, u32)| #[trigger]
                        lookup(self.entries@, key) == (if key == (pc, arg) {
                            Some(data)
                        } else {
                            lookup(before, key)
                        }) by {
                        lemma_lookup_push(before, entry, key);
                    }
                }
            },
        }
        assert(self@ =~= old(self)@.insert((pc, arg), data));
    }

    /// Between two rows, drops what the call at `pc` stored for arguments that are not constant.
    pub fn drop_non_constant(&mut self, pc: u32, constant_mask: i32)
        ensures
            final(self)@ == between_rows(old(self)@, pc, constant_mask),
            old(self).unique() ==> final(self).unique(),
    {
        let ghost keep = |e: AuxDataEntry<O>| e.pc != pc || survives(e.arg, constant_mask);
        let ghost kept = |key: (u32, u32)| key.0 != pc || survives(key.1, constant_mask);
        let ghost before = self.entries@;
        let ghost mut seen: int = 0;
        proof {
            reveal(Seq::filter);
            assert(before.take(0).filter(keep) =~= Seq::<AuxDataEntry<O>>::empty());
            assert(self.entries@ =~= before.take(0).filter(keep) + before.skip(0));
        }
        let mut i: usize = 0;
        while i < self.entries.len()
            invariant
                0 <= seen <= before.len(),
                i <= seen,
                i == before.take(seen).filter(keep).len(),
                self.entries@ == before.take(seen).filter(keep) + before.skip(seen),
                keep == (|e: AuxDataEntry<O>| e.pc != pc || survives(e.arg, constant_mask)),
            decreases before.len() - seen,
        {
            let ghost current = before[seen];
            assert(self.entries@[i as int] == current);
            let entry_pc: u32 = self.entries[i].pc;
            let entry_arg: u32 = self.entries[i].arg;
            let constant: bool = entry_arg < 32 && constant_mask & (1i32 << entry_arg) != 0;
            proof {
                assert(before.take(seen + 1) =~= before.take(seen).push(current));
                assert(before.take(seen + 1).filter(keep) == (if keep(current) {
                    before.take(seen).filter(keep).push(current)
                } else {
                    before.take(seen).filter(keep)
                })) by {
                    reveal(Seq::filter);
                    assert(before.take(seen).push(current).drop_last() =~= before.take(seen));
                }
                assert(before.skip(seen) =~= seq![current] + before.skip(seen + 1));
            }
            if entry_pc != pc || constant {
                i += 1;
                assert(self.entries@ =~= before.take(seen + 1).filter(keep) + before.skip(
                    seen + 1,
                ));
            } else {
                let _ = self.entries.remove(i);
                assert(self.entries@ =~= before.take(seen + 1).filter(keep) + before.skip(
                    seen + 1,
                ));
            }
            proof {
                seen = seen + 1;
            }
        }
        proof {
            assert(seen == before.len());
            assert(before.take(seen) =~= before);
            assert(self.entries@ =~= before.filter(keep));
            assert forall|key: (u32, u32)| #[trigger]
                lookup(self.entries@, key) == (if kept(key) {
                    lookup(before, key)
                } else {
                    None
                }) by {
                lemma_lookup_filter(before, keep, kept, key);
            }
            assert(self@ =~= between_rows(old(self)@, pc, constant_mask));
            if old(self).unique() {
                lemma_filter_unique(before, keep);
            }
        }
    }

    /// Forgets everything.
    pub fn clear(&mut self)
        ensures
            final(self)@ == Map::<(u32, u32), O>::empty(),
            final(self).unique(),
    {
        self.entries.clear();
        assert(self@ =~= Map::<(u32, u32), O>::empty());
    }

    /// Whether nothing is stored.
    pub fn is_empty(&self) -> (r: bool)
        ensures
            r == (self@ == Map::<(u32, u32), O>::empty()),
    {
        proof {
            if self.entries@.len() > 0 {
                lemma_lookup_first(self.entries@, 0, self.entries@[0].key());
                assert(self@.contains_key(self.entries@[0].key()));
            } else {
                assert(self@ =~= Map::<(u32, u32), O>::empty());
            }
        }
        self.entries.len() == 0
    }
}

proof fn lemma_filter_unique<O>(
    entries: Seq<AuxDataEntry<O>>,
    keep: spec_fn(AuxDataEntry<O>) -> bool,
)
    requires
        forall|i: int, j: int|
            0 <= i < j < entries.len() ==> (#[trigger] entries[i]).key() != (
            #[trigger] entries[j]).key(),
    ensures
        forall|i: int, j: int|
            0 <= i < j < entries.filter(keep).len() ==> (#[trigger] entries.filter(
                keep,
            )[i]).key() != (#[trigger] entries.filter(keep)[j]).key(),
    decreases entries.len(),
{
    reveal(Seq::filter);
    if entries.len() > 0 {
        let rest = entries.drop_last();
        lemma_filter_unique(rest, keep);
        assert forall|i: int| 0 <= i < rest.filter(keep).len() implies (#[trigger] rest.filter(
            keep,
        )[i]).key() != entries.last().key() by {
            rest.lemma_filter_contains_rev(keep, rest.filter(keep)[i]);
            let at = rest.index_of(rest.filter(keep)[i]);
            assert(rest[at] == rest.filter(keep)[i]);
            assert(entries[at] == rest[at]);
        }
    }
}

/// Data stored for a constant argument is there again on the next row, and data stored for any other
/// argument of the same call is not.
pub proof fn law_only_constant_arguments_keep_their_data<O>(
    store: Map<(u32, u32), O>,
    pc: u32,
    arg: u32,
    data: O,
    constant_mask: i32,
)
    ensures
        ({
            let next = between_rows(store.insert((pc, arg), data), pc, constant_mask);
            if survives(arg, constant_mask) {
                next.contains_key((pc, arg)) && next[(pc, arg)] == data
            } else {
                !next.contains_key((pc, arg))
            }
        }),
{
}

/// The end of one call leaves the data of every other call site alone.
pub proof fn law_call_sites_keep_separate_data<O>(
    store: Map<(u32, u32), O>,
    pc: u32,
    other: u32,
    arg: u32,
    data: O,
    constant_mask: i32,
)
    requires
        other != pc,
    ensures
        ({
            let next = between_rows(store.insert((other, arg), data), pc, constant_mask);
            next.contains_key((other, arg)) && next[(other, arg)] == data
        }),
        store.insert((pc, arg), data).contains_key((other, arg)) == store.contains_key(
            (other, arg),
        ),
        store.contains_key((other, arg)) ==> store.insert((pc, arg), data)[(other, arg)] == store[(
            other,
            arg,
        )],
{
}

/// What survived one row survives every row after it.
pub proof fn law_what_survives_a_row_survives_the_next<O>(
    store: Map<(u32, u32), O>,
    pc: u32,
    constant_mask: i32,
)
    ensures
        between_rows(between_rows(store, pc, constant_mask), pc, constant_mask) == between_rows(
            store,
            pc,
            constant_mask,
        ),
{
    assert(between_rows(between_rows(store, pc, constant_mask), pc, constant_mask)
        =~= between_rows(store, pc, constant_mask));
}

}
