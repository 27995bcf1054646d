//! What a running function reads and leaves, said of its arguments, its tags and its call site.

use std::sync::Arc;
use vstd::prelude::*;

use crate::auxdata::AuxDataStore;
use crate::context::FunctionContext;
use crate::error::LimboError;
use crate::flags::FunctionFlags;
use crate::tag::{same_pointer, same_tag, PointerValue, ValueTag};
use crate::value::ValueRef;

verus! {

/// A pointer is handed out to whoever names its type exactly, and to nobody else.
pub proof fn law_a_pointer_is_handed_out_by_its_type<O>(
    object: Arc<O>,
    ptype: String,
    asked: &str,
    p: PointerValue<O>,
    name: &str,
    got: Option<Arc<O>>,
)
    requires
        call_ensures(PointerValue::<O>::new, (object, ptype), p),
        call_ensures(PointerValue::<O>::ptype, (&p,), name),
        call_ensures(PointerValue::<O>::get, (&p, asked), got),
    ensures
        name@ == ptype@,
        asked@ == ptype@ ==> (got matches Some(o) && *o == *object),
        asked@ != ptype@ ==> got is None,
        p.spec_ptype() == ptype@,
        p.spec_object() == *object,
{
}

/// A tag made of a subtype holds it and no pointer. One made of a pointer holds that pointer, and
/// its subtype is the letter p.
pub proof fn law_a_tag_holds_what_it_was_made_of<O>(
    subtype: u8,
    pointer: Arc<PointerValue<O>>,
    plain: ValueTag<O>,
    pointing: ValueTag<O>,
    read: u8,
    pointing_read: u8,
    none: Option<&Arc<PointerValue<O>>>,
    some: Option<&Arc<PointerValue<O>>>,
    is_pointer: bool,
)
    requires
        call_ensures(ValueTag::<O>::from_subtype, (subtype,), plain),
        call_ensures(ValueTag::<O>::from_pointer, (pointer,), pointing),
        call_ensures(ValueTag::<O>::subtype, (&plain,), read),
        call_ensures(ValueTag::<O>::subtype, (&pointing,), pointing_read),
        call_ensures(ValueTag::<O>::pointer, (&plain,), none),
        call_ensures(ValueTag::<O>::pointer, (&pointing,), some),
        call_ensures(ValueTag::<O>::is_pointer, (&pointing,), is_pointer),
    ensures
        read == subtype,
        none is None,
        pointing_read == 0x70,
        some matches Some(p) && **p == *pointer,
        is_pointer,
        plain.spec_subtype() == subtype,
        plain.spec_pointer() is None,
        pointing.spec_subtype() == 0x70,
        pointing.spec_pointer() == Some(*pointer),
{
}

/// The subtype of an argument is that of its tag. Without a tag it is the one text carries inside
/// itself, and 0 for any other value and for an argument the call does not have.
pub proof fn law_an_argument_has_the_subtype_of_its_tag<C, O>(
    ctx: &FunctionContext<'_, C, O>,
    i: usize,
    r: u8,
    tag: Option<ValueTag<O>>,
)
    requires
        call_ensures(FunctionContext::<'_, C, O>::arg_subtype, (ctx, i), r),
        call_ensures(FunctionContext::<'_, C, O>::arg_tag, (ctx, i), tag),
    ensures
        i < ctx.arg_tags@.len() && ctx.arg_tags@[i as int] is Some ==> {
            &&& tag == Some(*ctx.arg_tags@[i as int]->0)
            &&& r == ctx.arg_tags@[i as int]->0.spec_subtype()
        },
        i >= ctx.arg_tags@.len() || ctx.arg_tags@[i as int] is None ==> {
            &&& tag is None
            &&& i < ctx.args@.len() ==> (match ctx.args@[i as int] {
                ValueRef::Text(t) => r == t.subtype,
                _ => r == 0,
            })
            &&& i >= ctx.args@.len() ==> r == 0
        },
{
}

/// The pointer beside an argument is the object of its tag, for whoever names its type exactly.
pub proof fn law_an_argument_has_the_pointer_of_its_tag<C, O>(
    ctx: &FunctionContext<'_, C, O>,
    i: usize,
    ptype: &str,
    r: Option<Arc<O>>,
)
    requires
        call_ensures(FunctionContext::<'_, C, O>::arg_pointer, (ctx, i, ptype), r),
    ensures
        r is Some <==> {
            &&& i < ctx.arg_tags@.len()
            &&& ctx.arg_tags@[i as int] is Some
            &&& ctx.arg_tags@[i as int]->0.spec_pointer() is Some
            &&& ctx.arg_tags@[i as int]->0.spec_pointer()->0.spec_ptype() == ptype@
        },
        r matches Some(o) ==> *o == ctx.arg_tags@[i as int]->0.spec_pointer()->0.spec_object(),
{
}

/// A result is tagged with the subtype or the pointer set last, and taking the tag leaves none.
/// Nothing else of the call changes.
pub proof fn law_a_result_is_tagged_with_what_was_set<C, O>(
    with_subtype: &mut FunctionContext<'_, C, O>,
    subtype: u8,
    with_pointer: &mut FunctionContext<'_, C, O>,
    object: Arc<O>,
    ptype: String,
    emptied: &mut FunctionContext<'_, C, O>,
    taken: Option<ValueTag<O>>,
)
    requires
        call_ensures(
            FunctionContext::<'_, C, O>::set_result_subtype,
            (with_subtype, subtype),
            (),
        ),
        call_ensures(
            FunctionContext::<'_, C, O>::set_result_pointer,
            (with_pointer, object, ptype),
            (),
        ),
        call_ensures(FunctionContext::<'_, C, O>::take_result_tag, (emptied,), taken),
    ensures
        final(with_subtype).result_tag matches Some(tag) && tag.spec_subtype() == subtype
            && tag.spec_pointer() is None,
        final(with_subtype).connection == old(with_subtype).connection,
        final(with_subtype).args@ == old(with_subtype).args@,
        final(with_subtype).arg_tags@ == old(with_subtype).arg_tags@,
        final(with_subtype).aux == old(with_subtype).aux,
        final(with_pointer).result_tag matches Some(tag) && tag.spec_subtype() == 0x70 && (
        tag.spec_pointer() matches Some(p) && p.spec_object() == *object && p.spec_ptype()
            == ptype@),
        final(with_pointer).connection == old(with_pointer).connection,
        final(with_pointer).args@ == old(with_pointer).args@,
        final(with_pointer).arg_tags@ == old(with_pointer).arg_tags@,
        final(with_pointer).aux == old(with_pointer).aux,
        taken == old(emptied).result_tag,
        final(emptied).result_tag is None,
        final(emptied).connection == old(emptied).connection,
        final(emptied).args@ == old(emptied).args@,
        final(emptied).arg_tags@ == old(emptied).arg_tags@,
        final(emptied).aux == old(emptied).aux,
{
}

/// A context is given its arguments, its tags and its call site one at a time, and each leaves the
/// others alone.
pub proof fn law_a_context_is_given_each_part_alone<'a, C, O>(
    connection: &'a C,
    fresh: FunctionContext<'a, C, O>,
    before: FunctionContext<'a, C, O>,
    args: &'a [ValueRef<'a>],
    with_args: FunctionContext<'a, C, O>,
    tags: &'a [Option<&'a ValueTag<O>>],
    with_tags: FunctionContext<'a, C, O>,
    store: &'a mut AuxDataStore<O>,
    pc: u32,
    with_aux: FunctionContext<'a, C, O>,
)
    requires
        call_ensures(FunctionContext::<'a, C, O>::new, (connection,), fresh),
        call_ensures(FunctionContext::<'a, C, O>::with_args, (before, args), with_args),
        call_ensures(FunctionContext::<'a, C, O>::with_arg_tags, (before, tags), with_tags),
        call_ensures(FunctionContext::<'a, C, O>::with_auxdata, (before, store, pc), with_aux),
    ensures
        *fresh.connection == *connection,
        fresh.args@.len() == 0,
        fresh.arg_tags@.len() == 0,
        fresh.aux is None,
        fresh.result_tag is None,
        with_args.args@ == args@,
        with_args.connection == before.connection,
        with_args.arg_tags@ == before.arg_tags@,
        with_args.aux == before.aux,
        with_args.result_tag == before.result_tag,
        with_tags.arg_tags@ == tags@,
        with_tags.connection == before.connection,
        with_tags.args@ == before.args@,
        with_tags.aux == before.aux,
        with_tags.result_tag == before.result_tag,
        with_aux.aux is Some,
        with_aux.aux->0.pc == pc,
        with_aux.aux->0.store@ == old(store)@,
        with_aux.connection == before.connection,
        with_aux.args@ == before.args@,
        with_aux.arg_tags@ == before.arg_tags@,
        with_aux.result_tag == before.result_tag,
{
}

/// What a call site keeps for an argument is read back there, and nowhere else; without a store
/// nothing is kept.
pub proof fn law_kept_data_is_read_back<C, O>(
    ctx: &mut FunctionContext<'_, C, O>,
    i: usize,
    data: O,
    after: &FunctionContext<'_, C, O>,
    j: usize,
    before: Option<&O>,
    read: Option<&O>,
)
    requires
        i <= u32::MAX,
        j <= u32::MAX,
        call_ensures(FunctionContext::<'_, C, O>::get_auxdata, (old(ctx), j), before),
        call_ensures(FunctionContext::<'_, C, O>::set_auxdata, (ctx, i, data), ()),
        *after == *final(ctx),
        call_ensures(FunctionContext::<'_, C, O>::get_auxdata, (after, j), read),
    ensures
        old(ctx).aux is None ==> before is None && read is None,
        old(ctx).aux is Some && j == i ==> (read matches Some(d) && *d == data),
        old(ctx).aux is Some && j != i ==> (before is Some <==> read is Some) && (before is Some
            ==> *before->0 == *read->0),
        final(ctx).connection == old(ctx).connection,
        final(ctx).args@ == old(ctx).args@,
        final(ctx).arg_tags@ == old(ctx).arg_tags@,
        final(ctx).result_tag == old(ctx).result_tag,
{
}

/// The errors a function can raise have their own codes: 1 for one of its own, whatever code it
/// names, 18 for something too big and 7 for want of memory.
pub proof fn law_errors_have_their_codes<C, O>(
    ctx: &FunctionContext<'_, C, O>,
    code: i32,
    message: String,
    plain: LimboError,
    coded: LimboError,
    big: LimboError,
    nomem: LimboError,
)
    requires
        call_ensures(FunctionContext::<'_, C, O>::error, (ctx, message), plain),
        call_ensures(FunctionContext::<'_, C, O>::error_code, (ctx, code, message), coded),
        call_ensures(FunctionContext::<'_, C, O>::error_toobig, (ctx,), big),
        call_ensures(FunctionContext::<'_, C, O>::error_nomem, (ctx,), nomem),
    ensures
        plain matches LimboError::UserFunction { code: c, message: m } && c == 1 && m@ == message@,
        coded matches LimboError::UserFunction { code: c, message: m } && c == code && m@
            == message@,
        big matches LimboError::UserFunction { code: c, message: m } && c == 18 && m@
            == "string or blob too big"@,
        nomem matches LimboError::UserFunction { code: c, message: m } && c == 7 && m@
            == "out of memory"@,
{
}

/// A store gives back what was put in last for a call site and an argument, and keeps everything
/// that was put elsewhere.
pub proof fn law_a_store_gives_back_what_was_put_in<O>(
    store: &mut AuxDataStore<O>,
    pc: u32,
    arg: u32,
    data: O,
    after: &AuxDataStore<O>,
    other_pc: u32,
    other_arg: u32,
    before: Option<&O>,
    read: Option<&O>,
)
    requires
        call_ensures(AuxDataStore::<O>::get, (old(store), other_pc, other_arg), before),
        call_ensures(AuxDataStore::<O>::set, (store, pc, arg, data), ()),
        *after == *final(store),
        call_ensures(AuxDataStore::<O>::get, (after, other_pc, other_arg), read),
    ensures
        (other_pc, other_arg) == (pc, arg) ==> (read matches Some(d) && *d == data),
        (other_pc, other_arg) != (pc, arg) ==> {
            &&& before is Some <==> read is Some
            &&& before is Some ==> *before->0 == *read->0
        },
{
}

/// Between rows a call site loses what it keeps for an argument unless the bit of that argument is
/// set in the mask of its constant ones, which has bits for the first 32; other call sites lose
/// nothing.
pub proof fn law_between_rows_only_constants_stay<O>(
    store: &mut AuxDataStore<O>,
    pc: u32,
    mask: i32,
    after: &AuxDataStore<O>,
    other_pc: u32,
    arg: u32,
    before: Option<&O>,
    read: Option<&O>,
)
    requires
        call_ensures(AuxDataStore::<O>::get, (old(store), other_pc, arg), before),
        call_ensures(AuxDataStore::<O>::drop_non_constant, (store, pc, mask), ()),
        *after == *final(store),
        call_ensures(AuxDataStore::<O>::get, (after, other_pc, arg), read),
    ensures
        read is Some <==> before is Some && (other_pc != pc || (arg < 32 && (mask >> arg) & 1i32
            == 1)),
        read is Some ==> *read->0 == *before->0,
{
    if arg < 32 {
        assert((mask & (1i32 << arg) != 0) == ((mask >> arg) & 1i32 == 1)) by (bit_vector)
            requires
                arg < 32,
        ;
    }
}

/// An emptied store has nothing for anybody, like a new one.
pub proof fn law_an_emptied_store_has_nothing<O>(
    fresh: AuxDataStore<O>,
    store: &mut AuxDataStore<O>,
    after: &AuxDataStore<O>,
    pc: u32,
    arg: u32,
    of_fresh: Option<&O>,
    of_emptied: Option<&O>,
)
    requires
        call_ensures(AuxDataStore::<O>::new, (), fresh),
        call_ensures(AuxDataStore::<O>::clear, (store,), ()),
        *after == *final(store),
        call_ensures(AuxDataStore::<O>::get, (&fresh, pc, arg), of_fresh),
        call_ensures(AuxDataStore::<O>::get, (after, pc, arg), of_emptied),
    ensures
        of_fresh is None,
        of_emptied is None,
{
}

/// Of the bits a function is registered with five are kept: 11, 19, 20, 21 and 24. The others are
/// dropped.
pub proof fn law_five_flags_are_kept(bits: u32, i: u32, flags: FunctionFlags, kept: u32)
    requires
        i < 32,
        call_ensures(FunctionFlags::from_bits_truncate, (bits,), flags),
        call_ensures(FunctionFlags::bits, (flags,), kept),
    ensures
        (kept >> i) & 1u32 == (if i == 11 || i == 19 || i == 20 || i == 21 || i == 24 {
            (bits >> i) & 1u32
        } else {
            0
        }),
        flags.spec_bits() == kept,
{
    assert(((bits & 0x0138_0800u32) >> i) & 1u32 == (if i == 11 || i == 19 || i == 20 || i == 21
        || i == 24 {
        (bits >> i) & 1u32
    } else {
        0
    })) by (bit_vector)
        requires
            i < 32,
    ;
}

/// Flags have a flag when its bit is set; a union has the bits of both.
pub proof fn law_a_flag_is_its_bit(
    a: FunctionFlags,
    b: FunctionFlags,
    i: u32,
    bits: u32,
    other: u32,
    contained: bool,
    both: FunctionFlags,
    union: u32,
    none: FunctionFlags,
    nothing: u32,
)
    requires
        i < 32,
        call_ensures(FunctionFlags::bits, (a,), bits),
        call_ensures(FunctionFlags::bits, (b,), other),
        call_ensures(FunctionFlags::contains, (a, 1u32 << i), contained),
        call_ensures(FunctionFlags::union, (a, b), both),
        call_ensures(FunctionFlags::bits, (both,), union),
        call_ensures(FunctionFlags::empty, (), none),
        call_ensures(FunctionFlags::bits, (none,), nothing),
    ensures
        contained <==> (bits >> i) & 1u32 == 1,
        (union >> i) & 1u32 == 1 <==> (bits >> i) & 1u32 == 1 || (other >> i) & 1u32 == 1,
        nothing == 0,
{
    assert((bits & (1u32 << i) == (1u32 << i)) == ((bits >> i) & 1u32 == 1)) by (bit_vector)
        requires
            i < 32,
    ;
    assert((((bits | other) >> i) & 1u32 == 1) == ((bits >> i) & 1u32 == 1 || (other >> i) & 1u32
        == 1)) by (bit_vector)
        requires
            i < 32,
    ;
}

/// Pointers are the same one when their types are and they are the same object; tags are the same
/// when their subtypes are, and both have the same pointer or none.
pub proof fn law_tags_are_compared_by_what_they_hold<O>(
    a: &str,
    b: &str,
    same: bool,
    pointers: bool,
    x: u8,
    y: u8,
    p: bool,
    q: bool,
    tags: bool,
    tag: ValueTag<O>,
    copy: ValueTag<O>,
    plain: ValueTag<O>,
)
    requires
        call_ensures(same_pointer, (a, b, same), pointers),
        call_ensures(same_tag, (x, y, p, q, same), tags),
        call_ensures(ValueTag::<O>::clone, (&tag,), copy),
        call_ensures(ValueTag::<O>::default, (), plain),
    ensures
        pointers <==> a@ == b@ && same,
        tags <==> x == y && ((!p && !q) || (p && q && same)),
        copy.spec_subtype() == tag.spec_subtype(),
        copy.spec_pointer() == tag.spec_pointer(),
        plain.spec_subtype() == 0,
        plain.spec_pointer() is None,
{
}

/// Two pointers that are found equal have the same type and the same object, and so have two tags
/// that are, with the same subtype.
pub proof fn law_equal_tags_hold_the_same<O>(
    a: PointerValue<O>,
    b: PointerValue<O>,
    pointers: bool,
    x: ValueTag<O>,
    y: ValueTag<O>,
    tags: bool,
)
    requires
        call_ensures(PointerValue::<O>::eq, (&a, &b), pointers),
        call_ensures(ValueTag::<O>::eq, (&x, &y), tags),
    ensures
        pointers ==> a.spec_ptype() == b.spec_ptype() && a.spec_object() == b.spec_object(),
        x.spec_pointer() is None && y.spec_pointer() is None ==> (tags <==> x.spec_subtype()
            == y.spec_subtype()),
        tags ==> (x.spec_pointer() is Some <==> y.spec_pointer() is Some),
        tags ==> x.spec_subtype() == y.spec_subtype(),
        tags && x.spec_pointer() is Some ==> {
            &&& x.spec_pointer()->0.spec_ptype() == y.spec_pointer()->0.spec_ptype()
            &&& x.spec_pointer()->0.spec_object() == y.spec_pointer()->0.spec_object()
        },
{
}

/// The connection of a context is the one it was made with, and a store is empty when nothing is in
/// it for any call site and argument.
pub proof fn law_a_context_knows_its_connection<C, O>(
    ctx: &FunctionContext<'_, C, O>,
    connection: &C,
    store: &AuxDataStore<O>,
    empty: bool,
    pc: u32,
    arg: u32,
    found: Option<&O>,
)
    requires
        call_ensures(FunctionContext::<'_, C, O>::connection, (ctx,), connection),
        call_ensures(AuxDataStore::<O>::is_empty, (store,), empty),
        call_ensures(AuxDataStore::<O>::get, (store, pc, arg), found),
    ensures
        *connection == *ctx.connection,
        empty ==> found is None,
        !empty ==> exists|key: (u32, u32)| #[trigger] store@.contains_key(key),
{
    if forall|key: (u32, u32)| !(#[trigger] store@.contains_key(key)) {
        assert(store@ =~= Map::<(u32, u32), O>::empty());
    }
}

}
