//! What a C callback leaves as its result and reads of its call, said field by field.

use vstd::prelude::*;

use crate::capi_context::{
    invalid_function, sqlite3_aggregate_context, sqlite3_context, sqlite3_context_db_handle,
    sqlite3_get_auxdata, sqlite3_result_blob, sqlite3_result_blob64, sqlite3_result_double,
    sqlite3_result_error, sqlite3_result_error16, sqlite3_result_error_code,
    sqlite3_result_error_nomem, sqlite3_result_error_toobig, sqlite3_result_int,
    sqlite3_result_int64, sqlite3_result_null, sqlite3_result_pointer, sqlite3_result_subtype,
    sqlite3_result_text, sqlite3_result_text16, sqlite3_result_text16be, sqlite3_result_text16le,
    sqlite3_result_text64, sqlite3_result_value, sqlite3_result_zeroblob,
    sqlite3_result_zeroblob64, sqlite3_set_auxdata, sqlite3_user_data, sqlite3_value_pointer,
    text16_arg_len, AggBuffer, CObject, CoreContext,
};
use crate::capi_value::sqlite3_value;
use crate::error::{LimboError, Result};
use crate::utf16::decode_utf16;
use crate::value::{Real, Value, ValueView};

verus! {

/// Whether a call is the same one, on the same handle with the same data and accumulator.
pub open spec fn same_but_result<D>(
    before: sqlite3_context<D>,
    after: sqlite3_context<D>,
) -> bool {
    &&& after.spec_db() == before.spec_db()
    &&& after.spec_app() == before.spec_app()
    &&& after.spec_agg() == before.spec_agg()
}

/// Whether the result became this value, without a subtype or a pointer, and any error stayed.
pub open spec fn became<D>(
    before: sqlite3_context<D>,
    after: sqlite3_context<D>,
    value: ValueView,
) -> bool {
    &&& after.outcome().value == value
    &&& after.outcome().subtype == 0
    &&& after.outcome().pointer is None
    &&& after.outcome().error == before.outcome().error
    &&& same_but_result(before, after)
}

/// Whether the call failed with this error, and its result stayed.
pub open spec fn failed<D>(
    before: sqlite3_context<D>,
    after: sqlite3_context<D>,
    code: i32,
    message: Seq<char>,
) -> bool {
    &&& after.outcome().error == Some((code, message))
    &&& after.outcome().value == before.outcome().value
    &&& after.outcome().subtype == before.outcome().subtype
    &&& after.outcome().pointer == before.outcome().pointer
    &&& same_but_result(before, after)
}

/// Whether a text is what bytes are read as: the text they are the UTF-8 of, or the one that stands
/// in for bytes that are not UTF-8.
pub open spec fn read_as(bytes: Seq<u8>, text: Seq<char>) -> bool {
    if vstd::utf8::valid_utf8(bytes) {
        bytes == vstd::utf8::encode_utf8(text)
    } else {
        text == crate::utf16::utf8_lossy(bytes)
    }
}

proof fn lemma_read_as(bytes: Seq<u8>, text: Seq<char>)
    requires
        read_as(bytes, text),
    ensures
        crate::utf16::text_of(bytes) == text,
{
    vstd::utf8::encode_utf8_valid_utf8(text);
    vstd::utf8::encode_utf8_decode_utf8(text);
}

/// A new call has no result, no error, and what it was made with.
pub proof fn law_a_new_call_has_set_nothing<D>(
    db: usize,
    p_app: usize,
    agg: Option<AggBuffer>,
    ctx: sqlite3_context<D>,
    app: usize,
    handle: usize,
    no_app: usize,
    no_handle: usize,
)
    requires
        call_ensures(sqlite3_context::<D>::new, (db, p_app, agg), ctx),
        call_ensures(sqlite3_user_data::<D>, (Some(&ctx),), app),
        call_ensures(sqlite3_context_db_handle::<D>, (Some(&ctx),), handle),
        call_ensures(sqlite3_user_data::<D>, (None,), no_app),
        call_ensures(sqlite3_context_db_handle::<D>, (None,), no_handle),
    ensures
        ctx.outcome().value == ValueView::Null,
        ctx.outcome().subtype == 0,
        ctx.outcome().pointer is None,
        ctx.outcome().error is None,
        app == p_app,
        handle == db,
        no_app == 0,
        no_handle == 0,
        ctx.spec_db() == db,
        ctx.spec_app() == p_app,
        ctx.spec_agg() == agg,
{
}

/// A number set as the result is the result.
pub proof fn law_a_number_becomes_the_result<D>(
    a: &mut sqlite3_context<D>,
    b: &mut sqlite3_context<D>,
    c: &mut sqlite3_context<D>,
    d: &mut sqlite3_context<D>,
    wide: i64,
    narrow: i32,
    number: Real,
)
    requires
        call_ensures(sqlite3_result_null::<D>, (Some(a),), ()),
        call_ensures(sqlite3_result_int64::<D>, (Some(b), wide), ()),
        call_ensures(sqlite3_result_int::<D>, (Some(c), narrow), ()),
        call_ensures(sqlite3_result_double::<D>, (Some(d), number), ()),
    ensures
        became(*old(a), *final(a), ValueView::Null),
        became(*old(b), *final(b), ValueView::Integer(wide)),
        final(c).outcome().value matches ValueView::Integer(i) && i == narrow && became(
            *old(c),
            *final(c),
            ValueView::Integer(i),
        ),
        became(*old(d), *final(d), ValueView::Real { bits: number.bits, text: number.text@ }),
{
}

/// Text set as the result is the text its bytes are read as, unless there are more than a thousand
/// million of them, which is an error. The caller's destructor is due when there was text and it is
/// neither of the two that are not called.
pub proof fn law_text_becomes_the_result<D>(
    c: &mut sqlite3_context<D>,
    bytes: &[u8],
    text: Seq<char>,
    destructor: usize,
    due: bool,
    other: &mut sqlite3_context<D>,
    none_due: bool,
)
    requires
        read_as(bytes@, text),
        call_ensures(sqlite3_result_text::<D>, (Some(c), Some(bytes), destructor), due),
        call_ensures(sqlite3_result_text::<D>, (Some(other), None, destructor), none_due),
    ensures
        bytes@.len() <= 1_000_000_000 ==> became(
            *old(c),
            *final(c),
            ValueView::Text { value: text, subtype: 0 },
        ),
        bytes@.len() > 1_000_000_000 ==> failed(
            *old(c),
            *final(c),
            18,
            "string or blob too big"@,
        ),
        due <==> destructor != 0 && destructor != usize::MAX,
        became(*old(other), *final(other), ValueView::Null),
        !none_due,
{
    lemma_read_as(bytes@, text);
}

/// Text in UTF-16 set as the result is the text its bytes stand for in the order that was told,
/// unless that is too long in UTF-8.
pub proof fn law_utf16_text_becomes_the_result<D>(
    c: &mut sqlite3_context<D>,
    bytes: &[u8],
    big_endian: bool,
    text: String,
    destructor: usize,
    due: bool,
    other: &mut sqlite3_context<D>,
    none_due: bool,
)
    requires
        call_ensures(decode_utf16, (bytes, big_endian), text),
        call_ensures(
            sqlite3_result_text16::<D>,
            (Some(c), Some(bytes), destructor, big_endian),
            due,
        ),
        call_ensures(
            sqlite3_result_text16::<D>,
            (Some(other), None, destructor, big_endian),
            none_due,
        ),
    ensures
        vstd::utf8::encode_utf8(text@).len() <= 1_000_000_000 ==> became(
            *old(c),
            *final(c),
            ValueView::Text { value: text@, subtype: 0 },
        ),
        vstd::utf8::encode_utf8(text@).len() > 1_000_000_000 ==> failed(
            *old(c),
            *final(c),
            18,
            "string or blob too big"@,
        ),
        due <==> destructor != 0 && destructor != usize::MAX,
        became(*old(other), *final(other), ValueView::Null),
        !none_due,
{
}

/// The setters that name a byte order read it in that order.
pub proof fn law_named_orders_of_text<D>(
    c: &mut sqlite3_context<D>,
    little: &mut sqlite3_context<D>,
    big: &mut sqlite3_context<D>,
    text: Option<&[u8]>,
    destructor: usize,
    big_endian: bool,
    due: bool,
    little_due: bool,
    big_due: bool,
)
    requires
        old(little).outcome() == old(c).outcome(),
        old(big).outcome() == old(c).outcome(),
        call_ensures(sqlite3_result_text16::<D>, (Some(c), text, destructor, big_endian), due),
        call_ensures(sqlite3_result_text16le::<D>, (Some(little), text, destructor), little_due),
        call_ensures(sqlite3_result_text16be::<D>, (Some(big), text, destructor), big_due),
    ensures
        big_endian ==> final(big).outcome() == final(c).outcome(),
        !big_endian ==> final(little).outcome() == final(c).outcome(),
        due == little_due,
        due == big_due,
        same_but_result(*old(little), *final(little)),
        same_but_result(*old(big), *final(big)),
{
}

/// Text with an encoding is read as that encoding: 2 is little-endian UTF-16, 3 big-endian, 4 the
/// machine's own order, and anything else UTF-8. More bytes than a thousand million are an error
/// whatever they are.
pub proof fn law_encoded_text_is_read_as_its_encoding<D>(
    c: &mut sqlite3_context<D>,
    wide: &mut sqlite3_context<D>,
    narrow: &mut sqlite3_context<D>,
    bytes: &[u8],
    n: u64,
    destructor: usize,
    encoding: u8,
    host_big_endian: bool,
    big_endian: bool,
    due: bool,
    wide_due: bool,
    narrow_due: bool,
)
    requires
        n <= 1_000_000_000 ==> bytes@.len() == n,
        old(wide).outcome() == old(c).outcome(),
        old(narrow).outcome() == old(c).outcome(),
        call_ensures(
            sqlite3_result_text64::<D>,
            (Some(c), Some(bytes), n, destructor, encoding, host_big_endian),
            due,
        ),
        call_ensures(
            sqlite3_result_text16::<D>,
            (Some(wide), Some(bytes), destructor, big_endian),
            wide_due,
        ),
        call_ensures(sqlite3_result_text::<D>, (Some(narrow), Some(bytes), destructor), narrow_due),
    ensures
        n > 1_000_000_000 ==> failed(*old(c), *final(c), 18, "string or blob too big"@),
        n <= 1_000_000_000 ==> {
            &&& encoding == 2 && !big_endian ==> final(c).outcome() == final(wide).outcome()
            &&& encoding == 3 && big_endian ==> final(c).outcome() == final(wide).outcome()
            &&& encoding == 4 && big_endian == host_big_endian ==> final(c).outcome() == final(wide).outcome()
            &&& encoding != 2 && encoding != 3 && encoding != 4 ==> final(c).outcome() == final(narrow).outcome()
        },
        same_but_result(*old(c), *final(c)),
        due <==> destructor != 0 && destructor != usize::MAX,
{
}

/// A blob set as the result is its bytes, unless there are too many; one of a negative length is
/// NULL.
pub proof fn law_a_blob_becomes_the_result<D>(
    c: &mut sqlite3_context<D>,
    blob: &[u8],
    n: i32,
    destructor: usize,
    due: bool,
    wide: &mut sqlite3_context<D>,
    wide_n: u64,
    wide_due: bool,
)
    requires
        n >= 0 ==> blob@.len() == n,
        wide_n <= 1_000_000_000 ==> blob@.len() == wide_n,
        call_ensures(sqlite3_result_blob::<D>, (Some(c), Some(blob), n, destructor), due),
        call_ensures(
            sqlite3_result_blob64::<D>,
            (Some(wide), Some(blob), wide_n, destructor),
            wide_due,
        ),
    ensures
        n < 0 ==> became(*old(c), *final(c), ValueView::Null) && !due,
        n >= 0 ==> (due <==> destructor != 0 && destructor != usize::MAX),
        0 <= n <= 1_000_000_000 ==> became(*old(c), *final(c), ValueView::Blob(blob@)),
        n > 1_000_000_000 ==> failed(*old(c), *final(c), 18, "string or blob too big"@),
        wide_n <= 1_000_000_000 ==> became(*old(wide), *final(wide), ValueView::Blob(blob@)),
        wide_n > 1_000_000_000 ==> failed(*old(wide), *final(wide), 18, "string or blob too big"@),
        wide_due <==> destructor != 0 && destructor != usize::MAX,
{
}

/// A blob of zeros has the length that was asked for, none for a negative one, and every byte is 0;
/// too long a one is an error, and so is one for no call at all.
pub proof fn law_a_blob_of_zeros_is_as_long_as_asked_for<D>(
    c: &mut sqlite3_context<D>,
    n: i32,
    wide: &mut sqlite3_context<D>,
    wide_n: u64,
    r: i32,
    missing: i32,
    i: int,
)
    requires
        call_ensures(sqlite3_result_zeroblob::<D>, (Some(c), n), ()),
        call_ensures(sqlite3_result_zeroblob64::<D>, (Some(wide), wide_n), r),
        call_ensures(sqlite3_result_zeroblob64::<D>, (None, wide_n), missing),
    ensures
        missing == 21,
        n <= 1_000_000_000 ==> (final(c).outcome().value matches ValueView::Blob(b) && became(
            *old(c),
            *final(c),
            ValueView::Blob(b),
        ) && b.len() == (if n > 0 {
            n as int
        } else {
            0
        }) && (0 <= i < b.len() ==> b[i] == 0)),
        n > 1_000_000_000 ==> failed(*old(c), *final(c), 18, "string or blob too big"@),
        wide_n <= 1_000_000_000 ==> r == 0 && (final(wide).outcome().value matches ValueView::Blob(
            b,
        ) && became(*old(wide), *final(wide), ValueView::Blob(b)) && b.len() == wide_n && (0 <= i
            < b.len() ==> b[i] == 0)),
        wide_n > 1_000_000_000 ==> r == 18 && failed(
            *old(wide),
            *final(wide),
            18,
            "string or blob too big"@,
        ),
{
}

/// A value set as the result brings its subtype, and the pointer beside the argument it is, if it is
/// one and the pointer is a C one. No value is NULL.
pub proof fn law_a_value_becomes_the_result_with_what_is_beside_it<D>(
    c: &mut sqlite3_context<D>,
    core: &CoreContext<'_, D>,
    v: &sqlite3_value,
    other: &mut sqlite3_context<D>,
)
    requires
        call_ensures(sqlite3_result_value::<D>, (Some(c), core, Some(v)), ()),
        call_ensures(sqlite3_result_value::<D>, (Some(other), core, None), ()),
    ensures
        final(c).outcome().value == v.spec_value(),
        final(c).outcome().subtype == v.spec_subtype(),
        final(c).outcome().error == old(c).outcome().error,
        same_but_result(*old(c), *final(c)),
        became(*old(other), *final(other), ValueView::Null),
        final(c).outcome().pointer is Some <==> {
            &&& v.spec_index() is Some
            &&& v.spec_index()->0 < core.arg_tags@.len()
            &&& core.arg_tags@[v.spec_index()->0 as int] is Some
            &&& core.arg_tags@[v.spec_index()->0 as int]->0.spec_pointer() is Some
            &&& core.arg_tags@[v.spec_index()->0 as int]->0.spec_pointer()->0.spec_object() is Pointer
        },
        final(c).outcome().pointer matches Some(p) ==> {
            let beside = core.arg_tags@[v.spec_index()->0 as int]->0.spec_pointer()->0;
            p.0 == beside.spec_object() && p.1 == beside.spec_ptype()
        },
{
}

/// A subtype set on the result keeps its low eight bits and changes nothing else.
pub proof fn law_a_subtype_has_eight_bits<D>(c: &mut sqlite3_context<D>, subtype: u32)
    requires
        call_ensures(sqlite3_result_subtype::<D>, (Some(c), subtype), ()),
    ensures
        (subtype - final(c).outcome().subtype) % 256 == 0,
        final(c).outcome().value == old(c).outcome().value,
        final(c).outcome().pointer == old(c).outcome().pointer,
        final(c).outcome().error == old(c).outcome().error,
        same_but_result(*old(c), *final(c)),
{
}

/// A pointer set as the result is that pointer under the type it was named with, beside NULL.
pub proof fn law_a_pointer_becomes_the_result<D>(
    c: &mut sqlite3_context<D>,
    ptr: usize,
    name: &[u8],
    text: Seq<char>,
    destroy: Option<D>,
    other: &mut sqlite3_context<D>,
)
    requires
        read_as(name@, text),
        call_ensures(sqlite3_result_pointer::<D>, (Some(c), ptr, Some(name), destroy), ()),
        call_ensures(sqlite3_result_pointer::<D>, (Some(other), ptr, None, destroy), ()),
    ensures
        final(c).outcome().value == ValueView::Null,
        final(c).outcome().subtype == 0,
        final(c).outcome().error == old(c).outcome().error,
        same_but_result(*old(c), *final(c)),
        final(c).outcome().pointer matches Some(p) && p.1 == text && (p.0 matches CObject::Pointer(
            q,
        ) && q.ptr == ptr && q.destroy == destroy && q.typed),
        final(other).outcome().value == ValueView::Null,
        final(other).outcome().subtype == 0,
        final(other).outcome().error == old(other).outcome().error,
        same_but_result(*old(other), *final(other)),
        final(other).outcome().pointer matches Some(p) && p.1.len() == 0 && (
        p.0 matches CObject::Pointer(q) && q.ptr == ptr && q.destroy == destroy && !q.typed),
{
    lemma_read_as(name@, text);
}

/// A pointer is read from the argument that a value is, by whoever names its type exactly, if it was
/// given a type; anything else reads 0.
pub proof fn law_a_pointer_is_read_by_its_type<D>(
    v: &sqlite3_value,
    core: &CoreContext<'_, D>,
    name: &[u8],
    text: Seq<char>,
    r: usize,
    unnamed: usize,
    missing: usize,
)
    requires
        read_as(name@, text),
        call_ensures(sqlite3_value_pointer::<D>, (Some(v), core, Some(name)), r),
        call_ensures(sqlite3_value_pointer::<D>, (Some(v), core, None), unnamed),
        call_ensures(sqlite3_value_pointer::<D>, (None, core, Some(name)), missing),
    ensures
        unnamed == 0,
        missing == 0,
        ({
            let reachable = {
                &&& v.spec_index() is Some
                &&& v.spec_index()->0 < core.arg_tags@.len()
                &&& core.arg_tags@[v.spec_index()->0 as int] is Some
                &&& core.arg_tags@[v.spec_index()->0 as int]->0.spec_pointer() is Some
                &&& core.arg_tags@[v.spec_index()->0 as int]->0.spec_pointer()->0.spec_ptype()
                    == text
            };
            let object =
                core.arg_tags@[v.spec_index()->0 as int]->0.spec_pointer()->0.spec_object();
            &&& !reachable ==> r == 0
            &&& reachable && object is Aux ==> r == 0
            &&& reachable && (object matches CObject::Pointer(p) && !p.typed) ==> r == 0
            &&& reachable && (object matches CObject::Pointer(p) && p.typed) ==> r == (
            object->Pointer_0).ptr
        }),
{
    lemma_read_as(name@, text);
}

/// An error is code 1 with the message it was given, in either encoding, and an empty one where it
/// was given none; want of memory is 7 and something too big is 18.
pub proof fn law_an_error_becomes_the_outcome<D>(
    a: &mut sqlite3_context<D>,
    bytes: &[u8],
    text: Seq<char>,
    b: &mut sqlite3_context<D>,
    host_big_endian: bool,
    wide: String,
    c: &mut sqlite3_context<D>,
    d: &mut sqlite3_context<D>,
    e: &mut sqlite3_context<D>,
    f: &mut sqlite3_context<D>,
)
    requires
        read_as(bytes@, text),
        call_ensures(sqlite3_result_error::<D>, (Some(a), Some(bytes)), ()),
        call_ensures(decode_utf16, (bytes, host_big_endian), wide),
        call_ensures(sqlite3_result_error16::<D>, (Some(b), Some(bytes), host_big_endian), ()),
        call_ensures(sqlite3_result_error::<D>, (Some(c), None), ()),
        call_ensures(sqlite3_result_error16::<D>, (Some(d), None, host_big_endian), ()),
        call_ensures(sqlite3_result_error_nomem::<D>, (Some(e),), ()),
        call_ensures(sqlite3_result_error_toobig::<D>, (Some(f),), ()),
    ensures
        failed(*old(a), *final(a), 1, text),
        failed(*old(b), *final(b), 1, wide@),
        failed(*old(c), *final(c), 1, Seq::empty()),
        failed(*old(d), *final(d), 1, Seq::empty()),
        failed(*old(e), *final(e), 7, "out of memory"@),
        failed(*old(f), *final(f), 18, "string or blob too big"@),
{
    lemma_read_as(bytes@, text);
}

/// A code set as the error keeps the message of an earlier error. Without one the message is what
/// the result reads as text, and the standard one for a result of NULL.
pub proof fn law_a_code_keeps_the_message<D>(
    c: &mut sqlite3_context<D>,
    code: i32,
    standard: &str,
)
    requires
        call_ensures(sqlite3_result_error_code::<D>, (Some(c), code, standard), ()),
    ensures
        match old(c).outcome().error {
            Some(earlier) => failed(*old(c), *final(c), code, earlier.1),
            None => match old(c).outcome().value {
                ValueView::Null => failed(*old(c), *final(c), code, standard@),
                ValueView::Text { value, .. } => failed(*old(c), *final(c), code, value),
                ValueView::Real { text, .. } => failed(*old(c), *final(c), code, text),
                ValueView::Integer(i) => failed(
                    *old(c),
                    *final(c),
                    code,
                    crate::text::decimal(i as int),
                ),
                ValueView::Blob(b) => (final(c).outcome().error matches Some(e) && failed(
                    *old(c),
                    *final(c),
                    code,
                    e.1,
                ) && (vstd::utf8::valid_utf8(b) ==> vstd::utf8::encode_utf8(e.1) == b) && (
                !vstd::utf8::valid_utf8(b) ==> e.1 == crate::utf16::utf8_lossy(b))),
            },
        },
{
    broadcast use {
        vstd::utf8::encode_utf8_valid_utf8,
        vstd::utf8::encode_utf8_decode_utf8,
        vstd::utf8::decode_utf8_encode_utf8,
    };
}

/// A function that cannot be used here says so by its name.
pub proof fn law_an_unusable_function_says_its_name<D>(
    c: &mut sqlite3_context<D>,
    name: &[u8],
    text: Seq<char>,
)
    requires
        read_as(name@, text),
        call_ensures(invalid_function::<D>, (c, Some(name)), ()),
    ensures
        failed(
            *old(c),
            *final(c),
            1,
            "unable to use function "@ + text + " in the requested context"@,
        ),
{
    lemma_read_as(name@, text);
}

/// The engine gets of a call its error before anything else, then its pointer, beside NULL, and then
/// its value, tagged with its subtype unless that is 0. Nothing else of the engine's call changes.
pub proof fn law_the_engine_gets_an_error_first<D>(
    ctx: sqlite3_context<D>,
    core: &mut CoreContext<'_, D>,
    r: Result<Value>,
)
    requires
        call_ensures(sqlite3_context::<D>::finish, (ctx, core), r),
    ensures
        final(core).connection == old(core).connection,
        final(core).args@ == old(core).args@,
        final(core).arg_tags@ == old(core).arg_tags@,
        final(core).aux == old(core).aux,
        ctx.outcome().error matches Some(e) ==> {
            &&& r matches Err(LimboError::UserFunction { code, message }) && code == e.0 && message@
                == e.1
            &&& final(core).result_tag == old(core).result_tag
        },
        ctx.outcome().error is None && ctx.outcome().pointer is Some ==> {
            &&& r matches Ok(Value::Null)
            &&& final(core).result_tag matches Some(tag) && (tag.spec_pointer() matches Some(p)
                && p.spec_object() == (ctx.outcome().pointer->0).0 && p.spec_ptype() == (
            ctx.outcome().pointer->0).1)
        },
        ctx.outcome().error is None && ctx.outcome().pointer is None ==> {
            &&& r matches Ok(v) && v@ == ctx.outcome().value
            &&& ctx.outcome().subtype == 0 ==> final(core).result_tag == old(core).result_tag
            &&& ctx.outcome().subtype != 0 ==> (final(core).result_tag matches Some(tag)
                && tag.spec_subtype() == ctx.outcome().subtype && tag.spec_pointer() is None)
        },
{
}

/// The accumulator an aggregate asks for the first time has as many words of eight bytes as its
/// bytes need, all zero; later it is the same words, whatever is asked for. Asking for nothing
/// before there is one gets none, and so does any other call.
pub proof fn law_an_accumulator_starts_zero_and_stays<D>(
    c: &mut sqlite3_context<D>,
    n_bytes: i32,
    r: Option<&mut Vec<u64>>,
    i: int,
)
    requires
        call_ensures(sqlite3_aggregate_context::<D>, (Some(c), n_bytes), r),
    ensures
        final(c).outcome() == old(c).outcome(),
        final(c).spec_db() == old(c).spec_db(),
        final(c).spec_app() == old(c).spec_app(),
        old(c).spec_agg() is None ==> r is None,
        old(c).spec_agg() matches Some(agg) && agg.spec_words() is Some ==> r is Some,
        old(c).spec_agg() matches Some(agg) && agg.spec_words() is None ==> (r is Some <==> n_bytes
            > 0),
        r is None ==> final(c).spec_agg() == old(c).spec_agg(),
        r matches Some(w) ==> (final(c).spec_agg() matches Some(agg) && agg.spec_words() == Some(
            final(w)@,
        )),
        r matches Some(w) ==> (match old(c).spec_agg()->0.spec_words() {
            Some(words) => w@ == words,
            None => {
                &&& 8 * w@.len() >= n_bytes
                &&& 8 * (w@.len() - 1) < n_bytes
                &&& 0 <= i < w@.len() ==> w@[i] == 0
            },
        }),
{
}

/// The pointer kept for an argument of a call site is read back there, and reads 0 where none was
/// kept, where an argument is negative and where there is nowhere to keep it.
pub proof fn law_a_kept_pointer_is_read_back<D>(
    core: &mut CoreContext<'_, D>,
    arg: i32,
    data: usize,
    destroy: Option<D>,
    after: &CoreContext<'_, D>,
    other: i32,
    before: usize,
    read: usize,
    missing: usize,
)
    requires
        call_ensures(sqlite3_get_auxdata::<D>, (Some(old(core)), other), before),
        call_ensures(sqlite3_set_auxdata::<D>, (Some(core), arg, data, destroy), ()),
        *after == *final(core),
        call_ensures(sqlite3_get_auxdata::<D>, (Some(after), other), read),
        call_ensures(sqlite3_get_auxdata::<D>, (None, other), missing),
    ensures
        missing == 0,
        other < 0 ==> before == 0 && read == 0,
        old(core).aux is None ==> before == 0 && read == 0,
        old(core).aux is Some && arg >= 0 && other == arg ==> read == data,
        other != arg || arg < 0 ==> read == before,
        final(core).connection == old(core).connection,
        final(core).args@ == old(core).args@,
        final(core).arg_tags@ == old(core).arg_tags@,
        final(core).result_tag == old(core).result_tag,
{
}

/// What a call site reads for an argument is the pointer it keeps there. An object of another kind
/// that is kept there reads as 0, as does an empty place.
pub proof fn law_only_kept_pointers_are_read<D>(
    core: &CoreContext<'_, D>,
    arg: i32,
    read: usize,
)
    requires
        call_ensures(sqlite3_get_auxdata::<D>, (Some(core), arg), read),
        arg >= 0,
    ensures
        core.aux matches Some(slot) ==> {
            let place = (slot.pc, arg as u32);
            &&& !slot.store@.contains_key(place) ==> read == 0
            &&& slot.store@.contains_key(place) ==> (match slot.store@[place] {
                CObject::Aux(aux) => read == aux.ptr,
                CObject::Pointer(_) => read == 0,
            })
        },
{
}

/// The setters that the others are made of do the same: a value becomes the result, and an error
/// becomes the outcome.
pub proof fn law_the_plain_setters<D>(
    a: &mut sqlite3_context<D>,
    value: Value,
    b: &mut sqlite3_context<D>,
    code: i32,
    message: String,
    c: &mut sqlite3_context<D>,
    n: i32,
    length: Option<usize>,
)
    requires
        call_ensures(sqlite3_context::<D>::set_result, (a, value), ()),
        call_ensures(sqlite3_context::<D>::set_error, (b, code, message), ()),
        call_ensures(sqlite3_context::<D>::set_error_toobig, (c,), ()),
        call_ensures(text16_arg_len, (n,), length),
    ensures
        became(*old(a), *final(a), value@),
        failed(*old(b), *final(b), code, message@),
        failed(*old(c), *final(c), 18, "string or blob too big"@),
        n < 0 ==> length is None,
        n >= 0 ==> (length matches Some(l) && l == 2 * n),
{
}

/// A buffer starts without words. Asked for bytes the first time it gets as many words of eight bytes
/// as they need, all zero, and keeps them from then on.
pub proof fn law_a_buffer_is_sized_once(
    fresh: AggBuffer,
    buffer: &mut AggBuffer,
    n_bytes: i32,
    r: Option<&mut Vec<u64>>,
    i: int,
)
    requires
        call_ensures(AggBuffer::new, (), fresh),
        call_ensures(AggBuffer::get, (buffer, n_bytes), r),
    ensures
        fresh.spec_words() is None,
        fresh.spec_len() == 0,
        r is Some <==> old(buffer).spec_words() is Some || n_bytes > 0,
        r is None ==> *final(buffer) == *old(buffer),
        r matches Some(w) ==> final(buffer).spec_words() == Some(final(w)@) && (match old(buffer).spec_words() {
            Some(words) => w@ == words && final(buffer).spec_len() == old(buffer).spec_len(),
            None => {
                &&& 8 * w@.len() >= n_bytes
                &&& 8 * (w@.len() - 1) < n_bytes
                &&& 0 <= i < w@.len() ==> w@[i] == 0
                &&& final(buffer).spec_len() == n_bytes
            },
        }),
{
}

/// Without a call nothing is set and no destructor is due; without text or a blob the result is NULL
/// and none is due either.
pub proof fn law_nothing_is_set_without_a_call<D>(
    text: Option<&[u8]>,
    destructor: usize,
    n: u64,
    small: i32,
    encoding: u8,
    big_endian: bool,
    a: bool,
    b: bool,
    c: bool,
    d: bool,
    e: bool,
    none: Option<&mut Vec<u64>>,
    x: &mut sqlite3_context<D>,
    x_due: bool,
    y: &mut sqlite3_context<D>,
    y_due: bool,
    z: &mut sqlite3_context<D>,
    z_due: bool,
    unnamed: &mut sqlite3_context<D>,
)
    requires
        text is Some ==> text->0@.len() == n && text->0@.len() == small,
        call_ensures(sqlite3_result_text::<D>, (None, text, destructor), a),
        call_ensures(
            sqlite3_result_text64::<D>,
            (None, text, n, destructor, encoding, big_endian),
            b,
        ),
        call_ensures(sqlite3_result_text16::<D>, (None, text, destructor, big_endian), c),
        call_ensures(sqlite3_result_blob::<D>, (None, text, small, destructor), d),
        call_ensures(sqlite3_result_blob64::<D>, (None, text, n, destructor), e),
        call_ensures(sqlite3_aggregate_context::<D>, (None, small), none),
        call_ensures(
            sqlite3_result_text64::<D>,
            (Some(x), None, n, destructor, encoding, big_endian),
            x_due,
        ),
        call_ensures(sqlite3_result_blob::<D>, (Some(y), None, small, destructor), y_due),
        call_ensures(sqlite3_result_blob64::<D>, (Some(z), None, n, destructor), z_due),
        call_ensures(invalid_function::<D>, (unnamed, None), ()),
    ensures
        !a && !b && !c && !d && !e,
        none is None,
        became(*old(x), *final(x), ValueView::Null) && !x_due,
        became(*old(y), *final(y), ValueView::Null) && !y_due,
        became(*old(z), *final(z), ValueView::Null) && !z_due,
        failed(
            *old(unnamed),
            *final(unnamed),
            1,
            "unable to use function "@ + Seq::empty() + " in the requested context"@,
        ),
{
}

}
