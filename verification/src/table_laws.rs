//! What a table of registrations gives back, said of single names and argument counts.

use std::sync::Arc;
use vstd::prelude::*;

use crate::table::NamedTable;

verus! {

/// What is put into a table under a name and an argument count is found there, in place of what was
/// there before, which comes back; everything else stays.
pub proof fn law_a_table_finds_what_was_put_in<V>(
    fresh: NamedTable<V>,
    of_fresh: Option<&V>,
    table: &mut NamedTable<V>,
    name: String,
    argc: i32,
    value: V,
    replaced: Option<V>,
    after: &NamedTable<V>,
    other: &str,
    other_argc: i32,
    before: Option<&V>,
    found: Option<&V>,
    there: bool,
)
    requires
        call_ensures(NamedTable::<V>::new, (), fresh),
        call_ensures(NamedTable::<V>::get, (&fresh, other, other_argc), of_fresh),
        call_ensures(NamedTable::<V>::get, (old(table), other, other_argc), before),
        call_ensures(NamedTable::<V>::insert, (table, name, argc, value), replaced),
        *after == *final(table),
        call_ensures(NamedTable::<V>::get, (after, other, other_argc), found),
        call_ensures(NamedTable::<V>::contains, (after, other, other_argc), there),
    ensures
        of_fresh is None,
        there <==> found is Some,
        other@ == name@ && other_argc == argc ==> {
            &&& found matches Some(v) && *v == value
            &&& before is Some <==> replaced is Some
            &&& before is Some ==> *before->0 == replaced->0
        },
        other@ != name@ || other_argc != argc ==> {
            &&& before is Some <==> found is Some
            &&& before is Some ==> *before->0 == *found->0
        },
{
}

/// What is removed from a table is gone and comes back; everything else stays.
pub proof fn law_a_table_loses_what_was_removed<V>(
    table: &mut NamedTable<V>,
    name: &str,
    argc: i32,
    removed: Option<V>,
    after: &NamedTable<V>,
    other: &str,
    other_argc: i32,
    before: Option<&V>,
    found: Option<&V>,
)
    requires
        call_ensures(NamedTable::<V>::get, (old(table), other, other_argc), before),
        call_ensures(NamedTable::<V>::remove, (table, name, argc), removed),
        *after == *final(table),
        call_ensures(NamedTable::<V>::get, (after, other, other_argc), found),
    ensures
        other@ == name@ && other_argc == argc ==> {
            &&& found is None
            &&& before is Some <==> removed is Some
            &&& before is Some ==> *before->0 == removed->0
        },
        other@ != name@ || other_argc != argc ==> {
            &&& before is Some <==> found is Some
            &&& before is Some ==> *before->0 == *found->0
        },
{
}

/// A name that is removed is gone with every argument count; other names stay. It is said whether
/// there was one, and a name is said to be there only where it is.
pub proof fn law_a_table_loses_a_name<V>(
    table: &mut NamedTable<V>,
    name: &str,
    asked: bool,
    removed: bool,
    after: &NamedTable<V>,
    other: &str,
    other_argc: i32,
    before: Option<&V>,
    found: Option<&V>,
)
    requires
        call_ensures(NamedTable::<V>::contains_name, (old(table), name), asked),
        call_ensures(NamedTable::<V>::get, (old(table), other, other_argc), before),
        call_ensures(NamedTable::<V>::remove_named, (table, name), removed),
        *after == *final(table),
        call_ensures(NamedTable::<V>::get, (after, other, other_argc), found),
    ensures
        other@ == name@ && before is Some ==> removed,
        removed ==> exists|argc: i32| #[trigger] old(table)@.contains_key((name@, argc)),
        other@ == name@ ==> found is None,
        asked ==> exists|argc: i32| #[trigger] old(table)@.contains_key((name@, argc)),
        other@ != name@ ==> {
            &&& before is Some <==> found is Some
            &&& before is Some ==> *before->0 == *found->0
        },
{
    if other@ == name@ && before is Some {
        assert(old(table)@.contains_key((name@, other_argc)));
    }
}

/// Taking something out of a table takes one registration with what is under it, and nothing only
/// where there is none; everything else stays.
pub proof fn law_a_table_gives_one_at_a_time<V>(
    table: &mut NamedTable<V>,
    r: Option<(String, i32, V)>,
    after: &NamedTable<V>,
    other: &str,
    other_argc: i32,
    before: Option<&V>,
    found: Option<&V>,
)
    requires
        call_ensures(NamedTable::<V>::get, (old(table), other, other_argc), before),
        call_ensures(NamedTable::<V>::pop, (table,), r),
        *after == *final(table),
        call_ensures(NamedTable::<V>::get, (after, other, other_argc), found),
    ensures
        r is None ==> before is None && found is None,
        r matches Some(taken) ==> {
            let same = other@ == taken.0@ && other_argc == taken.1;
            &&& same ==> found is None && (before matches Some(v) && *v == taken.2)
            &&& !same ==> (before is Some <==> found is Some)
            &&& !same && before is Some ==> *before->0 == *found->0
        },
{
}

/// An emptied table has nothing, and a table counts each name and argument count once.
pub proof fn law_a_table_counts_its_registrations<V>(
    table: &NamedTable<V>,
    count: usize,
    emptied: &mut NamedTable<V>,
    after: &NamedTable<V>,
    left: usize,
    name: &str,
    argc: i32,
    found: Option<&V>,
)
    requires
        call_ensures(NamedTable::<V>::len, (table,), count),
        call_ensures(NamedTable::<V>::clear, (emptied,), ()),
        *after == *final(emptied),
        call_ensures(NamedTable::<V>::len, (after,), left),
        call_ensures(NamedTable::<V>::get, (after, name, argc), found),
    ensures
        count == table@.dom().len(),
        left == 0,
        found is None,
{
    assert(after@.dom() =~= Set::<(Seq<char>, i32)>::empty());
}

/// A snapshot has what the table has.
pub proof fn law_a_snapshot_has_what_the_table_has<T>(
    table: &NamedTable<Arc<T>>,
    copy: NamedTable<Arc<T>>,
    name: &str,
    argc: i32,
    found: Option<&Arc<T>>,
    copied: Option<&Arc<T>>,
)
    requires
        call_ensures(NamedTable::<Arc<T>>::snapshot, (table,), copy),
        call_ensures(NamedTable::<Arc<T>>::get, (table, name, argc), found),
        call_ensures(NamedTable::<Arc<T>>::get, (&copy, name, argc), copied),
    ensures
        found is Some <==> copied is Some,
        found is Some ==> **found->0 == **copied->0,
{
}

}
