//! What collating sequences compare, how they are filed and asked for, said of texts, names and
//! entries.

use vstd::prelude::*;

use crate::capi_handle::{function_name, function_name16};
use crate::collation::{
    compare_trampoline, create_collation, drop_all_collations, missing_collation,
    request_collation, set_collation_needed, sqlite3_collation_needed, sqlite3_collation_needed16,
    sqlite3_create_collation, sqlite3_create_collation16, sqlite3_create_collation_v2,
    to_ascii_lowercase, AskedNames, CollationAnswer, CollationEntry, CollationHandle,
    CollationNeeded, CollationRequest, CollationSet, CollationText, CoreChange, TextEncoding,
};
use crate::error::LimboError;
use crate::utf16::utf16_units;

verus! {

/// Whether two names differ at most in the case of their ASCII letters.
pub open spec fn same_letters(a: Seq<char>, b: Seq<char>) -> bool {
    &&& a.len() == b.len()
    &&& forall|i: int|
        0 <= i < a.len() ==> {
            ||| #[trigger] a[i] == b[i]
            ||| 'A' <= a[i] <= 'Z' && b[i] as u32 == a[i] as u32 + 32
            ||| 'A' <= b[i] <= 'Z' && a[i] as u32 == b[i] as u32 + 32
        }
}

proof fn lemma_same_letters(a: Seq<char>, b: Seq<char>)
    ensures
        same_letters(a, b) <==> crate::registry::ascii_lowercase(a)
            == crate::registry::ascii_lowercase(b),
{
    let x = crate::registry::ascii_lowercase(a);
    let y = crate::registry::ascii_lowercase(b);
    if same_letters(a, b) {
        assert forall|i: int| 0 <= i < a.len() implies x[i] == y[i] by {
            if a[i] != b[i] && 'A' <= a[i] <= 'Z' {
                vstd::utf8::char_u32_cast(b[i], (a[i] as u32 + 32) as u32);
            } else if a[i] != b[i] {
                vstd::utf8::char_u32_cast(a[i], (b[i] as u32 + 32) as u32);
            }
        }
        assert(x =~= y);
    }
    if x == y {
        assert(x.len() == a.len() && y.len() == b.len());
        assert forall|i: int| 0 <= i < a.len() implies {
            ||| #[trigger] a[i] == b[i]
            ||| 'A' <= a[i] <= 'Z' && b[i] as u32 == a[i] as u32 + 32
            ||| 'A' <= b[i] <= 'Z' && a[i] as u32 == b[i] as u32 + 32
        } by {
            assert(x[i] == y[i]);
        }
    }
}

/// A name in lower case has each capital ASCII letter replaced by its small one, and everything else
/// as it was.
pub proof fn law_only_capital_letters_are_folded(text: &str, r: String, i: int)
    requires
        call_ensures(to_ascii_lowercase, (text,), r),
    ensures
        r@.len() == text@.len(),
        0 <= i < text@.len() && 'A' <= text@[i] <= 'Z' ==> r@[i] as u32 == text@[i] as u32 + 32,
        0 <= i < text@.len() && !('A' <= text@[i] <= 'Z') ==> r@[i] == text@[i],
{
}

/// Names fold to the same exactly when they differ at most in the case of their ASCII letters.
pub proof fn law_names_fold_alike_by_their_letters(a: &str, b: &str, x: String, y: String)
    requires
        call_ensures(to_ascii_lowercase, (a,), x),
        call_ensures(to_ascii_lowercase, (b,), y),
    ensures
        x@ == y@ <==> same_letters(a@, b@),
{
    lemma_same_letters(a@, b@);
}

/// The encodings a comparison can be registered for, by the low byte of the argument: 1 is UTF-8,
/// 2 little-endian UTF-16, 3 big-endian, and 4 and 8 the machine's own order.
pub proof fn law_encodings_by_their_low_byte(
    enc: i32,
    host_big_endian: bool,
    r: Option<TextEncoding>,
)
    requires
        call_ensures(TextEncoding::from_arg, (enc, host_big_endian), r),
    ensures
        r == Some(TextEncoding::Utf8) <==> enc & 0xff == 1,
        r == Some(TextEncoding::Utf16Le) <==> enc & 0xff == 2 || (!host_big_endian && (enc & 0xff
            == 4 || enc & 0xff == 8)),
        r == Some(TextEncoding::Utf16Be) <==> enc & 0xff == 3 || (host_big_endian && (enc & 0xff
            == 4 || enc & 0xff == 8)),
{
    assert((enc as u8) as i32 == enc & 0xff) by (bit_vector);
}

/// Whether an entry can compare.
pub open spec fn can_compare<D, X>(entry: Option<CollationEntry<D, X>>) -> bool {
    entry matches Some(e) && e.x_compare is Some
}

/// A set starts empty, and an entry put into it takes the place of its encoding alone and gives back
/// what was there.
pub proof fn law_an_entry_takes_the_place_of_its_encoding<D, X>(
    fresh: CollationSet<D, X>,
    set: &mut CollationSet<D, X>,
    entry: CollationEntry<D, X>,
    replaced: Option<CollationEntry<D, X>>,
    enc: TextEncoding,
    can: bool,
    any: bool,
)
    requires
        call_ensures(CollationSet::<D, X>::new, (), fresh),
        call_ensures(CollationSet::<D, X>::replace, (set, entry), replaced),
        call_ensures(CollationSet::<D, X>::has_comparison, (old(set), enc), can),
        call_ensures(CollationSet::<D, X>::has_any_comparison, (old(set),), any),
    ensures
        fresh.entry(enc) is None,
        replaced == old(set).entry(entry.enc),
        final(set).entry(enc) == (if enc == entry.enc {
            Some(entry)
        } else {
            old(set).entry(enc)
        }),
        can <==> can_compare(old(set).entry(enc)),
        any <==> can_compare(old(set).entry(TextEncoding::Utf8)) || can_compare(
            old(set).entry(TextEncoding::Utf16Le),
        ) || can_compare(old(set).entry(TextEncoding::Utf16Be)),
{
}

/// The comparison that runs is the one on UTF-8 where there is one, then the one on big-endian and
/// then the one on little-endian UTF-16, with what it was registered with.
pub proof fn law_utf8_is_compared_before_utf16<D, X>(
    set: &CollationSet<D, X>,
    r: Option<(usize, &X, TextEncoding)>,
)
    requires
        call_ensures(CollationSet::<D, X>::chosen, (set,), r),
    ensures
        ({
            let utf8 = set.entry(TextEncoding::Utf8);
            let big = set.entry(TextEncoding::Utf16Be);
            let little = set.entry(TextEncoding::Utf16Le);
            if can_compare(utf8) {
                r matches Some(c) && c.0 == utf8->0.p_arg && *c.1 == utf8->0.x_compare->0 && c.2
                    == TextEncoding::Utf8
            } else if can_compare(big) {
                r matches Some(c) && c.0 == big->0.p_arg && *c.1 == big->0.x_compare->0 && c.2
                    == TextEncoding::Utf16Be
            } else if can_compare(little) {
                r matches Some(c) && c.0 == little->0.p_arg && *c.1 == little->0.x_compare->0 && c.2
                    == TextEncoding::Utf16Le
            } else {
                r is None
            }
        }),
{
}

/// Whether code units are those of a text with their bytes in the asked-for order.
pub open spec fn in_order(
    units: Seq<u16>,
    big_endian: bool,
    host_big_endian: bool,
    given: Seq<u16>,
) -> bool {
    &&& given.len() == units.len()
    &&& forall|i: int|
        0 <= i < units.len() ==> {
            &&& big_endian == host_big_endian ==> #[trigger] given[i] == units[i]
            &&& big_endian != host_big_endian ==> given[i] / 256 == units[i] % 256 && given[i] % 256
                == units[i] / 256
        }
}

proof fn lemma_in_order(
    bytes: Seq<u8>,
    text: Seq<char>,
    enc: TextEncoding,
    host_big_endian: bool,
    given: CollationText,
)
    requires
        crate::capi_context_laws::read_as(bytes, text),
        crate::collation::converted(bytes, enc, host_big_endian, given),
        enc != TextEncoding::Utf8,
    ensures
        given is Utf16,
        in_order(
            crate::utf16::encode_utf16(text),
            enc == TextEncoding::Utf16Be,
            host_big_endian,
            given->Utf16_0@,
        ),
{
    vstd::utf8::encode_utf8_valid_utf8(text);
    vstd::utf8::encode_utf8_decode_utf8(text);
}

/// A comparison on UTF-8 is called with exactly the bytes of the left text and of the right text, in
/// this order, and its answer is the answer.
pub proof fn law_utf8_texts_are_compared_as_they_are<D, X>(
    set: &CollationSet<D, X>,
    left: &[u8],
    right: &[u8],
    host_big_endian: bool,
    r: i32,
) where X: Fn(usize, &CollationText, &CollationText) -> i32
    requires
        can_compare(set.entry(TextEncoding::Utf8)),
        call_ensures(compare_trampoline::<D, X>, (set, left, right, host_big_endian), r),
    ensures
        exists|l: Vec<u8>, q: Vec<u8>|
            {
                &&& l@ == left@
                &&& q@ == right@
                &&& #[trigger] call_ensures(
                    set.entry(TextEncoding::Utf8)->0.x_compare->0,
                    (
                        set.entry(TextEncoding::Utf8)->0.p_arg,
                        &CollationText::Utf8(l),
                        &CollationText::Utf8(q),
                    ),
                    r,
                )
            },
{
    let e = set.entry(TextEncoding::Utf8)->0;
    let (l, q) = choose|l: CollationText, q: CollationText|
        {
            &&& #[trigger] crate::collation::converted(
                left@,
                TextEncoding::Utf8,
                host_big_endian,
                l,
            )
            &&& #[trigger] crate::collation::converted(
                right@,
                TextEncoding::Utf8,
                host_big_endian,
                q,
            )
            &&& call_ensures(e.x_compare->0, (e.p_arg, &l, &q), r)
        };
    assert(l == CollationText::Utf8(l->Utf8_0));
    assert(q == CollationText::Utf8(q->Utf8_0));
    assert(call_ensures(
        e.x_compare->0,
        (e.p_arg, &CollationText::Utf8(l->Utf8_0), &CollationText::Utf8(q->Utf8_0)),
        r,
    ));
}

/// Without one, a comparison on UTF-16 is called with the code units of the left text and of the
/// right text, in this order, each with its bytes in the order the comparison was registered for.
pub proof fn law_utf16_texts_are_compared_in_their_order<D, X>(
    set: &CollationSet<D, X>,
    left: &[u8],
    right: &[u8],
    host_big_endian: bool,
    left_text: &str,
    left_units: Vec<u16>,
    right_text: &str,
    right_units: Vec<u16>,
    enc: TextEncoding,
    r: i32,
) where X: Fn(usize, &CollationText, &CollationText) -> i32
    requires
        !can_compare(set.entry(TextEncoding::Utf8)),
        enc == TextEncoding::Utf16Be || (enc == TextEncoding::Utf16Le && !can_compare(
            set.entry(TextEncoding::Utf16Be),
        )),
        can_compare(set.entry(enc)),
        crate::capi_context_laws::read_as(left@, left_text@),
        crate::capi_context_laws::read_as(right@, right_text@),
        call_ensures(utf16_units, (left_text,), left_units),
        call_ensures(utf16_units, (right_text,), right_units),
        call_ensures(compare_trampoline::<D, X>, (set, left, right, host_big_endian), r),
    ensures
        exists|l: Vec<u16>, q: Vec<u16>|
            {
                &&& in_order(left_units@, enc == TextEncoding::Utf16Be, host_big_endian, l@)
                &&& in_order(right_units@, enc == TextEncoding::Utf16Be, host_big_endian, q@)
                &&& #[trigger] call_ensures(
                    set.entry(enc)->0.x_compare->0,
                    (set.entry(enc)->0.p_arg, &CollationText::Utf16(l), &CollationText::Utf16(q)),
                    r,
                )
            },
{
    let e = set.entry(enc)->0;
    assert(set.preferred() == Some(enc));
    let (l, q) = choose|l: CollationText, q: CollationText|
        {
            &&& #[trigger] crate::collation::converted(left@, enc, host_big_endian, l)
            &&& #[trigger] crate::collation::converted(right@, enc, host_big_endian, q)
            &&& call_ensures(e.x_compare->0, (e.p_arg, &l, &q), r)
        };
    lemma_in_order(left@, left_text@, enc, host_big_endian, l);
    lemma_in_order(right@, right_text@, enc, host_big_endian, q);
    assert(l == CollationText::Utf16(l->Utf16_0));
    assert(q == CollationText::Utf16(q->Utf16_0));
    assert(call_ensures(
        e.x_compare->0,
        (e.p_arg, &CollationText::Utf16(l->Utf16_0), &CollationText::Utf16(q->Utf16_0)),
        r,
    ));
}

/// What a handle has for a name and an encoding.
pub open spec fn filed<D, X>(
    h: CollationHandle<D, X>,
    name: Seq<char>,
    enc: TextEncoding,
) -> Option<CollationEntry<D, X>> {
    match h.spec_set(name) {
        Some(set) => set.entry(enc),
        None => None,
    }
}

/// Whether a handle can compare under a name in any encoding.
pub open spec fn comparable<D, X>(h: CollationHandle<D, X>, name: Seq<char>) -> bool {
    ||| can_compare(filed(h, name, TextEncoding::Utf8))
    ||| can_compare(filed(h, name, TextEncoding::Utf16Le))
    ||| can_compare(filed(h, name, TextEncoding::Utf16Be))
}

/// Whether a handle answers a registration rightly. Without a name or with an unknown encoding it is
/// misuse, 21. Where a comparison is there while statements run it is busy, 5. Otherwise the entry
/// takes the place of that name and encoding alone, 0. The destructor goes with the entry, or back
/// where there was none, and the engine is told when a name becomes comparable or stops to be.
pub open spec fn registers<D, X>(
    before: CollationHandle<D, X>,
    after: CollationHandle<D, X>,
    r: CollationAnswer<D, X>,
    name: Option<Seq<char>>,
    enc: Option<TextEncoding>,
    entry: CollationEntry<D, X>,
    running: bool,
    other: Seq<char>,
    other_enc: TextEncoding,
) -> bool {
    if name is None || enc is None {
        &&& r.code == 21
        &&& r.core is Nothing
        &&& r.replaced is None
        &&& r.refused == entry.x_destroy
        &&& after == before
    } else if running && can_compare(filed(before, name->0, enc->0)) {
        &&& r.code == 5
        &&& r.core is Nothing
        &&& r.replaced is None
        &&& r.refused == entry.x_destroy
        &&& after.spec_error() == Some(
            (
                5i32,
                "unable to delete/modify collation sequence due to active statements"@,
            ),
        )
        &&& after.spec_needed() == before.spec_needed()
        &&& after.spec_set(other) == before.spec_set(other)
    } else {
        &&& r.code == 0
        &&& r.refused is None
        &&& r.replaced == filed(before, name->0, enc->0)
        &&& same_letters(other, name->0) && other_enc == enc->0 ==> (filed(
            after,
            other,
            other_enc,
        ) matches Some(e) && e.p_arg == entry.p_arg && e.x_compare == entry.x_compare
            && e.x_destroy == entry.x_destroy && e.enc == enc->0)
        &&& !same_letters(other, name->0) || other_enc != enc->0 ==> filed(after, other, other_enc)
            == filed(before, other, other_enc)
        &&& r.core is Register <==> !comparable(before, name->0) && comparable(after, name->0)
        &&& r.core is Unregister <==> comparable(before, name->0) && !comparable(after, name->0)
        &&& r.core matches CoreChange::Register(n) ==> n@ == name->0
        &&& r.core matches CoreChange::Unregister(n) ==> n@ == name->0
        &&& after.spec_error() == before.spec_error()
        &&& after.spec_needed() == before.spec_needed()
    }
}

proof fn lemma_registers<D, X>(
    before: CollationHandle<D, X>,
    after: CollationHandle<D, X>,
    r: CollationAnswer<D, X>,
    name: Option<Seq<char>>,
    enc: Option<TextEncoding>,
    entry: CollationEntry<D, X>,
    running: bool,
    other: Seq<char>,
    other_enc: TextEncoding,
)
    requires
        crate::collation::collation_answered(
            before,
            after,
            r,
            name,
            enc,
            entry.p_arg,
            entry.x_compare,
            entry.x_destroy,
            running,
        ),
    ensures
        registers(before, after, r, name, enc, entry, running, other, other_enc),
{
    if name is Some && enc is Some {
        lemma_same_letters(other, name->0);
        if same_letters(other, name->0) {
            crate::collation::law_collations_are_found_by_folded_name(before, other, name->0);
            crate::collation::law_collations_are_found_by_folded_name(after, other, name->0);
        }
        assert(after.entry(name->0, other_enc) == filed(after, name->0, other_enc));
        assert(before.entry(name->0, other_enc) == filed(before, name->0, other_enc));
        assert(after.spec_set(other) == after.spec_set(other));
        assert(before.usable(name->0) == comparable(before, name->0));
        assert(after.usable(name->0) == comparable(after, name->0));
    }
}

/// Every way to register a comparison answers rightly: the one with a name of any kind, with and
/// without a destructor, and with the name in UTF-8 or in UTF-16. Without a handle it is misuse, and
/// the destructor goes back.
pub proof fn law_a_comparison_is_registered<D, X>(
    h: &mut CollationHandle<D, X>,
    name: Option<String>,
    enc: i32,
    encoding: Option<TextEncoding>,
    entry: CollationEntry<D, X>,
    running: bool,
    host_big_endian: bool,
    r: CollationAnswer<D, X>,
    missing: CollationAnswer<D, X>,
    other: Seq<char>,
    other_enc: TextEncoding,
)
    requires
        call_ensures(TextEncoding::from_arg, (enc, host_big_endian), encoding),
        call_ensures(
            create_collation::<D, X>,
            (
                Some(h),
                name,
                enc,
                entry.p_arg,
                entry.x_compare,
                entry.x_destroy,
                running,
                host_big_endian,
            ),
            r,
        ),
        call_ensures(
            create_collation::<D, X>,
            (
                None,
                name,
                enc,
                entry.p_arg,
                entry.x_compare,
                entry.x_destroy,
                running,
                host_big_endian,
            ),
            missing,
        ),
    ensures
        missing.code == 21 && missing.core is Nothing && missing.replaced is None,
        missing.refused == entry.x_destroy,
        registers(
            *old(h),
            *final(h),
            r,
            if name is Some {
                Some(name->0@)
            } else {
                None
            },
            encoding,
            entry,
            running,
            other,
            other_enc,
        ),
{
    lemma_registers(
        *old(h),
        *final(h),
        r,
        if name is Some {
            Some(name->0@)
        } else {
            None
        },
        encoding,
        entry,
        running,
        other,
        other_enc,
    );
}

/// The same of the ones that take a name in UTF-8: bytes that are not UTF-8 are no name.
pub proof fn law_a_comparison_is_registered_under_utf8<D, X>(
    plain: &mut CollationHandle<D, X>,
    owned: &mut CollationHandle<D, X>,
    name: Option<&[u8]>,
    read: Option<String>,
    enc: i32,
    encoding: Option<TextEncoding>,
    entry: CollationEntry<D, X>,
    running: bool,
    host_big_endian: bool,
    r: CollationAnswer<D, X>,
    q: CollationAnswer<D, X>,
    other: Seq<char>,
    other_enc: TextEncoding,
)
    requires
        call_ensures(function_name, (name,), read),
        call_ensures(TextEncoding::from_arg, (enc, host_big_endian), encoding),
        call_ensures(
            sqlite3_create_collation::<D, X>,
            (Some(plain), name, enc, entry.p_arg, entry.x_compare, running, host_big_endian),
            r,
        ),
        call_ensures(
            sqlite3_create_collation_v2::<D, X>,
            (
                Some(owned),
                name,
                enc,
                entry.p_arg,
                entry.x_compare,
                entry.x_destroy,
                running,
                host_big_endian,
            ),
            q,
        ),
    ensures
        ({
            let text = if read is Some {
                Some(read->0@)
            } else {
                None
            };
            &&& registers(
                *old(plain),
                *final(plain),
                r,
                text,
                encoding,
                CollationEntry { x_destroy: None, ..entry },
                running,
                other,
                other_enc,
            )
            &&& registers(
                *old(owned),
                *final(owned),
                q,
                text,
                encoding,
                entry,
                running,
                other,
                other_enc,
            )
        }),
{
    let text = if read is Some {
        Some(read->0@)
    } else {
        None
    };
    let bare = CollationEntry { x_destroy: None, ..entry };
    lemma_registers(
        *old(plain),
        *final(plain),
        r,
        text,
        encoding,
        bare,
        running,
        other,
        other_enc,
    );
    lemma_registers(
        *old(owned),
        *final(owned),
        q,
        text,
        encoding,
        entry,
        running,
        other,
        other_enc,
    );
}

/// The same of the one that takes a name in UTF-16: units that are no text are no name.
pub proof fn law_a_comparison_is_registered_under_utf16<D, X>(
    h: &mut CollationHandle<D, X>,
    name: Option<&[u16]>,
    read: Option<String>,
    enc: i32,
    encoding: Option<TextEncoding>,
    entry: CollationEntry<D, X>,
    running: bool,
    host_big_endian: bool,
    r: CollationAnswer<D, X>,
    other: Seq<char>,
    other_enc: TextEncoding,
)
    requires
        entry.x_destroy is None,
        call_ensures(function_name16, (name,), read),
        call_ensures(TextEncoding::from_arg, (enc, host_big_endian), encoding),
        call_ensures(
            sqlite3_create_collation16::<D, X>,
            (Some(h), name, enc, entry.p_arg, entry.x_compare, running, host_big_endian),
            r,
        ),
    ensures
        registers(
            *old(h),
            *final(h),
            r,
            if read is Some {
                Some(read->0@)
            } else {
                None
            },
            encoding,
            entry,
            running,
            other,
            other_enc,
        ),
{
    lemma_registers(
        *old(h),
        *final(h),
        r,
        if read is Some {
            Some(read->0@)
        } else {
            None
        },
        encoding,
        entry,
        running,
        other,
        other_enc,
    );
}

/// Names are found whatever the case of their ASCII letters, and a new handle finds none.
pub proof fn law_names_are_found_by_their_letters<D, X>(
    h: &CollationHandle<D, X>,
    a: &str,
    b: &str,
    x: Option<&CollationSet<D, X>>,
    y: Option<&CollationSet<D, X>>,
    fresh: CollationHandle<D, X>,
    none: Option<&CollationSet<D, X>>,
)
    requires
        same_letters(a@, b@),
        call_ensures(CollationHandle::<D, X>::collation_set, (h, a), x),
        call_ensures(CollationHandle::<D, X>::collation_set, (h, b), y),
        call_ensures(CollationHandle::<D, X>::new, (), fresh),
        call_ensures(CollationHandle::<D, X>::collation_set, (&fresh, a), none),
    ensures
        x == y,
        x is Some <==> h.spec_set(a@) is Some,
        x is Some ==> h.spec_set(a@) == Some(*x->0),
        none is None,
        fresh.spec_needed() is None,
        fresh.spec_error() is None,
{
    lemma_same_letters(a@, b@);
    crate::collation::law_collations_are_found_by_folded_name(*h, a@, b@);
}

/// Dropping all collations leaves none under any name. Each one that comes out was filed under the
/// letters of its name, and each that was filed comes out.
pub proof fn law_dropping_all_leaves_none<D, X>(
    h: &mut CollationHandle<D, X>,
    r: Vec<(String, CollationSet<D, X>)>,
    name: Seq<char>,
    i: int,
)
    requires
        call_ensures(drop_all_collations::<D, X>, (h,), r),
    ensures
        final(h).spec_set(name) is None,
        0 <= i < r@.len() && same_letters(name, r@[i].0@) ==> old(h).spec_set(name) == Some(r@[i].1),
        old(h).spec_set(name) is Some ==> exists|j: int|
            0 <= j < r@.len() && same_letters(name, (#[trigger] r@[j]).0@) && old(h).spec_set(name)
                == Some(r@[j].1),
        final(h).spec_needed() == old(h).spec_needed(),
        final(h).spec_error() == old(h).spec_error(),
{
    if 0 <= i < r@.len() && same_letters(name, r@[i].0@) {
        lemma_same_letters(name, r@[i].0@);
        crate::collation::law_collations_are_found_by_folded_name(*old(h), name, r@[i].0@);
    }
    if old(h).spec_set(name) is Some {
        let j = choose|j: int|
            0 <= j < r@.len() && crate::collation::folded_name((#[trigger] r@[j]).0@)
                == crate::collation::folded_name(name);
        lemma_same_letters(name, r@[j].0@);
        crate::collation::law_collations_are_found_by_folded_name(*old(h), name, r@[j].0@);
        assert(same_letters(name, r@[j].0@));
    }
}

/// What asks for missing collations is what was set last, and nothing once it is taken back; it
/// changes nothing else. The two that name an encoding ask in that encoding.
pub proof fn law_what_asks_is_what_was_set<D, X>(
    h: &mut CollationHandle<D, X>,
    narrow: &mut CollationHandle<D, X>,
    wide: &mut CollationHandle<D, X>,
    p_arg: usize,
    callback: Option<usize>,
    utf16: bool,
    r: i32,
    narrow_r: i32,
    wide_r: i32,
    missing: i32,
    name: Seq<char>,
)
    requires
        call_ensures(set_collation_needed::<D, X>, (Some(h), p_arg, callback, utf16), r),
        call_ensures(sqlite3_collation_needed::<D, X>, (Some(narrow), p_arg, callback), narrow_r),
        call_ensures(sqlite3_collation_needed16::<D, X>, (Some(wide), p_arg, callback), wide_r),
        call_ensures(sqlite3_collation_needed::<D, X>, (None, p_arg, callback), missing),
    ensures
        missing == 21,
        r == 0 && narrow_r == 0 && wide_r == 0,
        callback is None ==> final(h).spec_needed() is None && final(narrow).spec_needed() is None
            && final(wide).spec_needed() is None,
        callback is Some ==> {
            &&& final(h).spec_needed() matches Some(n) && n.callback == callback->0 && n.p_arg
                == p_arg && n.utf16 == utf16
            &&& final(narrow).spec_needed() matches Some(n) && n.callback == callback->0 && n.p_arg
                == p_arg && !n.utf16
            &&& final(wide).spec_needed() matches Some(n) && n.callback == callback->0 && n.p_arg
                == p_arg && n.utf16
        },
        final(h).spec_set(name) == old(h).spec_set(name),
        final(h).spec_error() == old(h).spec_error(),
        final(narrow).spec_set(name) == old(narrow).spec_set(name),
        final(narrow).spec_error() == old(narrow).spec_error(),
        final(wide).spec_set(name) == old(wide).spec_set(name),
        final(wide).spec_error() == old(wide).spec_error(),
{
}

/// Whether a character is white space.
pub open spec fn blank(c: char) -> bool {
    let v = c as u32;
    ||| 9 <= v <= 13
    ||| v == 32
    ||| v == 133
    ||| v == 160
    ||| v == 5760
    ||| 8192 <= v <= 8202
    ||| v == 8232
    ||| v == 8233
    ||| v == 8239
    ||| v == 8287
    ||| v == 12288
}

/// Whether a text is nothing but white space.
pub open spec fn all_blank(s: Seq<char>) -> bool {
    forall|i: int| 0 <= i < s.len() ==> blank(#[trigger] s[i])
}

/// Whether a message names a missing collation: what is behind the first of these words, without the
/// white space on either side.
pub open spec fn names_missing(
    line: Seq<char>,
    before: Seq<char>,
    lead: Seq<char>,
    name: Seq<char>,
    tail: Seq<char>,
) -> bool {
    &&& line == before + "no such collation sequence: "@ + lead + name + tail
    &&& all_blank(lead)
    &&& all_blank(tail)
    &&& name.len() > 0 ==> !blank(name[0]) && !blank(name.last())
    &&& forall|a: Seq<char>, b: Seq<char>|
        #![trigger a + "no such collation sequence: "@ + b]
        line == a + "no such collation sequence: "@ + b ==> a.len() >= before.len()
}

proof fn lemma_trim(s: Seq<char>) -> (ends: (Seq<char>, Seq<char>))
    ensures
        s == ends.0 + crate::collation::trim(s) + ends.1,
        all_blank(ends.0),
        all_blank(ends.1),
        crate::collation::trim(s).len() > 0 ==> !blank(crate::collation::trim(s)[0]) && !blank(
            crate::collation::trim(s).last(),
        ),
    decreases s.len(),
{
    if s.len() > 0 && crate::collation::is_white_space(s[0]) {
        let (lead, tail) = lemma_trim(s.skip(1));
        let longer = seq![s[0]] + lead;
        assert(s =~= seq![s[0]] + s.skip(1));
        assert(s =~= longer + crate::collation::trim(s) + tail);
        assert forall|i: int| 0 <= i < longer.len() implies blank(#[trigger] longer[i]) by {
            if i > 0 {
                assert(longer[i] == lead[i - 1]);
            }
        }
        (longer, tail)
    } else if s.len() > 0 && crate::collation::is_white_space(s.last()) {
        let (lead, tail) = lemma_trim(s.drop_last());
        let longer = tail.push(s.last());
        assert(s =~= s.drop_last().push(s.last()));
        assert(s =~= lead + crate::collation::trim(s) + longer);
        assert forall|i: int| 0 <= i < longer.len() implies blank(#[trigger] longer[i]) by {
            if i < tail.len() {
                assert(longer[i] == tail[i]);
            }
        }
        (lead, longer)
    } else {
        assert(s =~= Seq::<char>::empty() + s + Seq::<char>::empty());
        (Seq::empty(), Seq::empty())
    }
}

/// A missing collation is the name behind the first of these words in the line of an error, without
/// the white space around it; an error without them misses none.
pub proof fn law_a_missing_collation_is_named_in_the_error(
    err: &LimboError,
    line: String,
    r: Option<String>,
)
    requires
        call_ensures(LimboError::to_string, (err,), line),
        call_ensures(missing_collation, (err,), r),
    ensures
        r matches Some(name) ==> exists|before: Seq<char>, lead: Seq<char>, tail: Seq<char>|
            #[trigger] names_missing(line@, before, lead, name@, tail),
        r is None ==> forall|a: Seq<char>, b: Seq<char>|
            #![trigger a + "no such collation sequence: "@ + b]
            !(line@ == a + "no such collation sequence: "@ + b),
{
    let s = line@;
    let p = "no such collation sequence: "@;
    assert(s == err@.text());
    match r {
        Some(name) => {
            let at = choose|at: int|
                #[trigger] crate::collation::first_at(s, p, at) && name@ == crate::collation::trim(
                    s.skip(at + p.len()),
                );
            let before = s.take(at);
            let rest = s.skip(at + p.len());
            let (lead, tail) = lemma_trim(rest);
            assert(s.subrange(at, at + p.len()) == p);
            assert(s =~= s.take(at) + s.subrange(at, at + p.len()) + s.skip(at + p.len()));
            assert(s =~= before + p + lead + name@ + tail);
            assert forall|a: Seq<char>, b: Seq<char>|
                #![trigger a + p + b]
                s == a + p + b implies a.len() >= before.len() by {
                assert(s.subrange(a.len() as int, (a.len() + p.len()) as int) =~= p);
                assert(crate::collation::stands_at(s, p, a.len() as int));
            }
            assert(names_missing(s, before, lead, name@, tail));
        },
        None => {
            assert forall|a: Seq<char>, b: Seq<char>|
                #![trigger a + p + b]
                !(s == a + p + b) by {
                assert(!crate::collation::stands_at(
                    err@.text(),
                    crate::collation::missing_prefix(),
                    a.len() as int,
                ));
                if s == a + p + b {
                    assert(s.subrange(a.len() as int, (a.len() + p.len()) as int) =~= p);
                    assert(crate::collation::stands_at(s, p, a.len() as int));
                }
            }
        },
    }
}

/// A name is new once: asked for again, in whatever case, it is not. Other names are not touched.
pub proof fn law_a_name_is_asked_for_once(
    asked: &mut AskedNames,
    a: &str,
    first: bool,
    again: &mut AskedNames,
    b: &str,
    second: bool,
    apart: &mut AskedNames,
    alone: bool,
    fresh: AskedNames,
    of_fresh: &mut AskedNames,
    new: bool,
)
    requires
        call_ensures(AskedNames::insert, (asked, a), first),
        *old(again) == *final(asked),
        call_ensures(AskedNames::insert, (again, b), second),
        *old(apart) == *old(asked),
        call_ensures(AskedNames::insert, (apart, b), alone),
        call_ensures(AskedNames::new, (), fresh),
        *old(of_fresh) == fresh,
        call_ensures(AskedNames::insert, (of_fresh, a), new),
    ensures
        new,
        same_letters(a@, b@) ==> !second,
        same_letters(a@, b@) ==> first == alone,
        !same_letters(a@, b@) ==> second == alone,
{
    lemma_same_letters(a@, b@);
}

/// The host is asked for a name where something asks and the name is new, unless the name holds a
/// NUL and goes in UTF-8: with the callback and its data, and the name with a NUL behind it in the
/// encoding that asks.
pub proof fn law_a_missing_name_is_asked_for(
    needed: Option<CollationNeeded>,
    name: &str,
    asked: &mut AskedNames,
    r: Option<CollationRequest>,
    other: &mut AskedNames,
    new: bool,
    units: Vec<u16>,
)
    requires
        call_ensures(request_collation, (needed, name, asked), r),
        *old(other) == *old(asked),
        call_ensures(AskedNames::insert, (other, name), new),
        call_ensures(utf16_units, (name,), units),
    ensures
        r is Some <==> needed is Some && new && (needed->0.utf16 || !vstd::utf8::encode_utf8(
            name@,
        ).contains(0u8)),
        needed is Some ==> final(asked)@ == final(other)@,
        needed is None ==> final(asked)@ == old(asked)@,
        r matches Some(CollationRequest::Utf8 { callback, p_arg, bytes }) ==> {
            &&& !needed->0.utf16
            &&& callback == needed->0.callback
            &&& p_arg == needed->0.p_arg
            &&& bytes@ == vstd::utf8::encode_utf8(name@).push(0)
        },
        r matches Some(CollationRequest::Utf16 { callback, p_arg, units: u }) ==> {
            &&& needed->0.utf16
            &&& callback == needed->0.callback
            &&& p_arg == needed->0.p_arg
            &&& u@ == units@.push(0)
        },
{
}

/// What asks for collations and the last error are read as they are, and each encoding has a place
/// of its own.
pub proof fn law_a_collation_handle_reads_as_it_is<D, X>(
    h: &CollationHandle<D, X>,
    needed: Option<CollationNeeded>,
    error: Option<(i32, String)>,
    a: TextEncoding,
    b: TextEncoding,
    x: usize,
    y: usize,
)
    requires
        call_ensures(CollationHandle::<D, X>::needed, (h,), needed),
        call_ensures(CollationHandle::<D, X>::last_error, (h,), error),
        call_ensures(TextEncoding::slot, (a,), x),
        call_ensures(TextEncoding::slot, (b,), y),
    ensures
        needed == h.spec_needed(),
        error is Some <==> h.spec_error() is Some,
        error matches Some(e) ==> (h.spec_error() matches Some(f) && e.0 == f.0 && e.1@ == f.1),
        x < 3,
        x == y <==> a == b,
{
}

}
