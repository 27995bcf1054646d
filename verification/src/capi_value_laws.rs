//! What C code reads from a value, said of the value itself.

use vstd::prelude::*;

use crate::capi_value::{
    sqlite3_value, sqlite3_value_blob, sqlite3_value_bytes, sqlite3_value_bytes16,
    sqlite3_value_double, sqlite3_value_dup, sqlite3_value_encoding, sqlite3_value_frombind,
    sqlite3_value_int, sqlite3_value_int64, sqlite3_value_nochange, sqlite3_value_numeric_type, sqlite3_value_subtype, sqlite3_value_text,
    sqlite3_value_text16, sqlite3_value_text16be, sqlite3_value_text16le, sqlite3_value_type,
};
use crate::numeric::{numeric_affinity, NumericText};
use crate::text::push_decimal;
use crate::utf16::utf16_bytes;
use crate::value::{Numeric, Real, Value, ValueRef, ValueView};

verus! {

/// A value made for C code holds the value it was made of and the subtype that value carries; one
/// made of an argument holds that argument, its place and the subtype it came with; a copy holds the
/// same and is no argument; and a value put in its place leaves the place and the subtype.
pub proof fn law_a_c_value_holds_what_it_was_made_of(
    value: Value,
    plain: sqlite3_value,
    arg: ValueRef<'_>,
    index: usize,
    subtype: u8,
    made: sqlite3_value,
    copy: Option<sqlite3_value>,
    changed: &mut sqlite3_value,
)
    requires
        call_ensures(sqlite3_value::new, (value,), plain),
        call_ensures(sqlite3_value::from_arg, (&arg, index, subtype), made),
        call_ensures(sqlite3_value_dup, (Some(&made),), copy),
        call_ensures(sqlite3_value::set, (changed, value), ()),
    ensures
        plain.spec_value() == value@,
        plain.spec_index() is None,
        value matches Value::Text(t) ==> plain.spec_subtype() == t.subtype,
        !(value is Text) ==> plain.spec_subtype() == 0,
        made.spec_value() == arg@,
        made.spec_index() == Some(index),
        made.spec_subtype() == subtype,
        copy matches Some(c) && c.spec_value() == arg@ && c.spec_subtype() == subtype
            && c.spec_index() is None,
        final(changed).spec_value() == value@,
        final(changed).spec_index() == old(changed).spec_index(),
        final(changed).spec_subtype() == old(changed).spec_subtype(),
{
}

/// What is said of a C value is what reading it gives.
pub proof fn law_a_c_value_reads_as_it_is(
    v: sqlite3_value,
    value: &Value,
    index: Option<usize>,
    subtype: u32,
    taken: Value,
    encoding: i32,
)
    requires
        call_ensures(sqlite3_value::value, (&v,), value),
        call_ensures(sqlite3_value::index, (&v,), index),
        call_ensures(sqlite3_value_subtype, (Some(&v),), subtype),
        call_ensures(sqlite3_value::into_value, (v,), taken),
        call_ensures(sqlite3_value_encoding, (Some(&v),), encoding),
    ensures
        value@ == v.spec_value(),
        taken@ == v.spec_value(),
        index == v.spec_index(),
        subtype == v.spec_subtype(),
        encoding == 1,
{
}

/// The type codes: 1 for an integer, 2 for a real, 3 for text, 4 for a blob, and 5 for NULL and for
/// no value at all.
pub proof fn law_a_type_code_is_the_kind_of_value(v: sqlite3_value, code: i32, missing: i32)
    requires
        call_ensures(sqlite3_value_type, (Some(&v),), code),
        call_ensures(sqlite3_value_type, (None,), missing),
    ensures
        missing == 5,
        code == (match v.spec_value() {
            ValueView::Integer(_) => 1i32,
            ValueView::Real { .. } => 2,
            ValueView::Text { .. } => 3,
            ValueView::Blob(_) => 4,
            ValueView::Null => 5,
        }),
{
}

/// An integer reads as itself. Anything else reads as what a cast makes of it, and as zero where it
/// makes nothing. As 32 bits it reads as the low half of that, so unchanged where it fits.
pub proof fn law_an_integer_reads_as_itself(
    v: sqlite3_value,
    cast: Option<i64>,
    wide: i64,
    narrow: i32,
)
    requires
        call_ensures(sqlite3_value_int64, (Some(&v), cast), wide),
        call_ensures(sqlite3_value_int, (Some(&v), cast), narrow),
    ensures
        v.spec_value() matches ValueView::Integer(i) ==> wide == i,
        !(v.spec_value() is Integer) && cast is None ==> wide == 0,
        !(v.spec_value() is Integer) && cast is Some ==> wide == cast->0,
        i32::MIN <= wide <= i32::MAX ==> narrow == wide,
        (wide - narrow) % 0x1_0000_0000 == 0,
{
    assert((wide - (wide as i32)) % 0x1_0000_0000 == 0) by (bit_vector);
}

/// A number reads as itself in floating point. Anything else reads as what a cast makes of it.
pub proof fn law_a_number_reads_as_itself(
    v: sqlite3_value,
    cast: Option<Numeric>,
    r: Option<Numeric>,
    missing: Option<Numeric>,
)
    requires
        call_ensures(sqlite3_value_double, (Some(&v), cast), r),
        call_ensures(sqlite3_value_double, (None, cast), missing),
    ensures
        missing is None,
        match v.spec_value() {
            ValueView::Integer(i) => r matches Some(Numeric::Integer(j)) && j == i,
            ValueView::Real { bits, text } => r matches Some(Numeric::Float(f)) && f.bits == bits
                && f.text@ == text,
            _ => r == cast,
        },
{
}

/// Text that is a number becomes that number and reads as its type: an integer as its digits, a real
/// as the number the host parsed it to, and as text where the host could not. Nothing else changes,
/// and neither do the place and the subtype.
pub proof fn law_numeric_type_is_that_of_the_number(
    v: &mut sqlite3_value,
    parsed: Option<Real>,
    r: i32,
    text: &str,
    found: Option<NumericText>,
)
    requires
        old(v).spec_value() matches ValueView::Text { value, .. } ==> value == text@,
        call_ensures(sqlite3_value_numeric_type, (Some(v), parsed), r),
        call_ensures(numeric_affinity, (text,), found),
    ensures
        final(v).spec_index() == old(v).spec_index(),
        final(v).spec_subtype() == old(v).spec_subtype(),
        match old(v).spec_value() {
            ValueView::Text { .. } => match found {
                Some(NumericText::Integer(i)) => final(v).spec_value() == ValueView::Integer(i) && r
                    == 1,
                Some(NumericText::Real(_)) => match parsed {
                    Some(f) => final(v).spec_value() == (ValueView::Real {
                        bits: f.bits,
                        text: f.text@,
                    }) && r == 2,
                    None => final(v).spec_value() == old(v).spec_value() && r == 3,
                },
                None => final(v).spec_value() == old(v).spec_value() && r == 3,
            },
            ValueView::Integer(_) => final(v).spec_value() == old(v).spec_value() && r == 1,
            ValueView::Real { .. } => final(v).spec_value() == old(v).spec_value() && r == 2,
            ValueView::Blob(_) => final(v).spec_value() == old(v).spec_value() && r == 4,
            ValueView::Null => final(v).spec_value() == old(v).spec_value() && r == 5,
        },
{
}

/// A value read as text is its characters in UTF-8, its bytes or the digits of its number, and one
/// NUL behind them; NULL reads as nothing. Reading changes nothing of the value.
pub proof fn law_text_is_the_value_and_a_nul(
    v: &mut sqlite3_value,
    r: Option<&[u8]>,
    digits: &mut String,
    missing: Option<&[u8]>,
)
    requires
        call_ensures(sqlite3_value_text, (Some(v),), r),
        call_ensures(sqlite3_value_text, (None,), missing),
        old(digits)@.len() == 0,
        old(v).spec_value() matches ValueView::Integer(i) ==> call_ensures(
            push_decimal,
            (digits, i),
            (),
        ),
    ensures
        missing is None,
        match old(v).spec_value() {
            ValueView::Null => r is None,
            ValueView::Text { value, .. } => r matches Some(bytes) && bytes@
                == vstd::utf8::encode_utf8(value).push(0),
            ValueView::Blob(b) => r matches Some(bytes) && bytes@ == b.push(0),
            ValueView::Integer(i) => r matches Some(bytes) && bytes@ == vstd::utf8::encode_utf8(
                final(digits)@,
            ).push(0),
            ValueView::Real { text, .. } => r matches Some(bytes) && bytes@
                == vstd::utf8::encode_utf8(text).push(0),
        },
        final(v).spec_value() == old(v).spec_value(),
        final(v).spec_index() == old(v).spec_index(),
        final(v).spec_subtype() == old(v).spec_subtype(),
{
    if let ValueView::Integer(i) = old(v).spec_value() {
        assert(final(digits)@ =~= crate::text::decimal(i as int));
    }
}

/// A value read as a blob is what it reads as text, and nothing where that is empty; its length is
/// that of the text without the NUL.
pub proof fn law_a_blob_is_the_text_of_a_value(
    v: &mut sqlite3_value,
    blob_of: &mut sqlite3_value,
    length_of: &mut sqlite3_value,
    text: Option<&[u8]>,
    blob: Option<&[u8]>,
    length: i32,
)
    requires
        old(blob_of).spec_value() == old(v).spec_value(),
        old(length_of).spec_value() == old(v).spec_value(),
        call_ensures(sqlite3_value_text, (Some(v),), text),
        call_ensures(sqlite3_value_blob, (Some(blob_of),), blob),
        call_ensures(sqlite3_value_bytes, (Some(length_of),), length),
    ensures
        match text {
            None => blob is None && length == 0,
            Some(t) => {
                &&& t@.len() == 1 ==> blob is None
                &&& t@.len() > 1 ==> (blob matches Some(b) && b@ == t@)
                &&& t@.len() - 1 <= i32::MAX ==> length == t@.len() - 1
            },
        },
        final(blob_of).spec_value() == old(v).spec_value(),
        final(blob_of).spec_index() == old(blob_of).spec_index(),
        final(blob_of).spec_subtype() == old(blob_of).spec_subtype(),
        final(length_of).spec_value() == old(v).spec_value(),
        final(length_of).spec_index() == old(length_of).spec_index(),
        final(length_of).spec_subtype() == old(length_of).spec_subtype(),
{
}

/// A value read as UTF-16 is the text it reads as, in the asked-for byte order, and one NUL unit
/// behind it; its length is that of the text without the NUL.
pub proof fn law_utf16_text_is_the_text_of_a_value(
    v: &mut sqlite3_value,
    wide_of: &mut sqlite3_value,
    length_of: &mut sqlite3_value,
    big_endian: bool,
    text: Option<&[u8]>,
    wide: Option<&[u8]>,
    length: i32,
    read: &str,
    bytes: Vec<u8>,
)
    requires
        old(wide_of).spec_value() == old(v).spec_value(),
        old(length_of).spec_value() == old(v).spec_value(),
        call_ensures(sqlite3_value_text, (Some(v),), text),
        call_ensures(sqlite3_value_text16, (Some(wide_of), big_endian), wide),
        call_ensures(sqlite3_value_bytes16, (Some(length_of), big_endian), length),
        text matches Some(t) ==> {
            let plain = t@.drop_last();
            &&& vstd::utf8::valid_utf8(plain) ==> plain == vstd::utf8::encode_utf8(read@)
            &&& !vstd::utf8::valid_utf8(plain) ==> read@ == crate::utf16::utf8_lossy(plain)
        },
        call_ensures(utf16_bytes, (read, big_endian), bytes),
    ensures
        text is None ==> wide is None && length == 0,
        text is Some ==> (wide matches Some(w) && w@ == bytes@.push(0).push(0)),
        text is Some && bytes@.len() <= i32::MAX ==> length == bytes@.len(),
        final(wide_of).spec_value() == old(v).spec_value(),
        final(wide_of).spec_index() == old(wide_of).spec_index(),
        final(wide_of).spec_subtype() == old(wide_of).spec_subtype(),
        final(length_of).spec_value() == old(v).spec_value(),
        final(length_of).spec_index() == old(length_of).spec_index(),
        final(length_of).spec_subtype() == old(length_of).spec_subtype(),
{
    vstd::utf8::encode_utf8_valid_utf8(read@);
    vstd::utf8::encode_utf8_decode_utf8(read@);
    if let Some(t) = text {
        let plain = crate::capi_value::rendering(old(v).spec_value())->0;
        assert(t@ == plain.push(0));
        assert(t@.drop_last() =~= plain);
        assert(wide is Some);
        assert(wide->0@ =~= bytes@.push(0).push(0));
    }
}

/// The readers that name a byte order are the one that is told it.
pub proof fn law_named_byte_orders(
    v: &mut sqlite3_value,
    little_of: &mut sqlite3_value,
    big_of: &mut sqlite3_value,
    big_endian: bool,
    r: Option<&[u8]>,
    little: Option<&[u8]>,
    big: Option<&[u8]>,
)
    requires
        old(little_of).spec_value() == old(v).spec_value(),
        old(big_of).spec_value() == old(v).spec_value(),
        call_ensures(sqlite3_value_text16, (Some(v), big_endian), r),
        call_ensures(sqlite3_value_text16le, (Some(little_of),), little),
        call_ensures(sqlite3_value_text16be, (Some(big_of),), big),
    ensures
        r is Some <==> little is Some,
        r is Some <==> big is Some,
        r is Some && big_endian ==> big->0@ == r->0@,
        r is Some && !big_endian ==> little->0@ == r->0@,
{
}

/// What the functions read, the methods of a value read too.
pub proof fn law_methods_read_like_functions(
    v: sqlite3_value,
    cast: Option<i64>,
    cast_number: Option<Numeric>,
    code: i32,
    code_of: i32,
    wide: i64,
    wide_of: i64,
    number: Option<Numeric>,
    subtype: u8,
    subtype_of: u32,
    copy: sqlite3_value,
    unchanged: i32,
    bound: i32,
)
    requires
        call_ensures(sqlite3_value::type_code, (&v,), code),
        call_ensures(sqlite3_value_type, (Some(&v),), code_of),
        call_ensures(sqlite3_value::int64, (&v, cast), wide),
        call_ensures(sqlite3_value_int64, (Some(&v), cast), wide_of),
        call_ensures(sqlite3_value::double, (&v, cast_number), number),
        call_ensures(sqlite3_value::subtype, (&v,), subtype),
        call_ensures(sqlite3_value_subtype, (Some(&v),), subtype_of),
        call_ensures(sqlite3_value::dup, (&v,), copy),
        call_ensures(sqlite3_value_nochange, (Some(&v),), unchanged),
        call_ensures(sqlite3_value_frombind, (Some(&v),), bound),
    ensures
        code == code_of,
        wide == wide_of,
        match v.spec_value() {
            ValueView::Integer(i) => number matches Some(Numeric::Integer(j)) && j == i,
            ValueView::Real { bits, text } => number matches Some(Numeric::Float(f)) && f.bits
                == bits && f.text@ == text,
            _ => number == cast_number,
        },
        subtype == subtype_of,
        copy.spec_value() == v.spec_value(),
        copy.spec_subtype() == v.spec_subtype(),
        copy.spec_index() is None,
        unchanged == 0,
        bound == 0,
{
}

/// The same of those that keep what they rendered.
pub proof fn law_renderings_are_read_alike(
    v: &mut sqlite3_value,
    of: &mut sqlite3_value,
    text: Option<&[u8]>,
    text_of: Option<&[u8]>,
    w: &mut sqlite3_value,
    wide_of: &mut sqlite3_value,
    big_endian: bool,
    wide: Option<&[u8]>,
    read: Option<&[u8]>,
    n: &mut sqlite3_value,
    number_of: &mut sqlite3_value,
    parsed: Option<Real>,
    code: i32,
)
    requires
        old(of).spec_value() == old(v).spec_value(),
        call_ensures(sqlite3_value::text_bytes, (v,), text),
        call_ensures(sqlite3_value_text, (Some(of),), text_of),
        old(wide_of).spec_value() == old(w).spec_value(),
        call_ensures(sqlite3_value::text16_bytes, (w, big_endian), wide),
        call_ensures(sqlite3_value_text16, (Some(wide_of), big_endian), read),
        old(number_of).spec_value() == old(n).spec_value(),
        call_ensures(sqlite3_value::apply_numeric_affinity, (n, parsed), ()),
        call_ensures(sqlite3_value_numeric_type, (Some(number_of), parsed), code),
    ensures
        text is Some <==> text_of is Some,
        text is Some ==> text->0@ == text_of->0@,
        wide is Some <==> read is Some,
        wide is Some ==> wide->0@ == read->0@,
        final(n).spec_value() == final(number_of).spec_value(),
        final(v).spec_value() == old(v).spec_value(),
        final(w).spec_value() == old(w).spec_value(),
        final(n).spec_index() == old(n).spec_index(),
        final(n).spec_subtype() == old(n).spec_subtype(),
{
}

/// No value at all reads as NULL does: type 5, zero, nothing.
pub proof fn law_no_value_reads_as_null(
    parsed: Option<Real>,
    cast: Option<i64>,
    big_endian: bool,
    code: i32,
    wide: i64,
    narrow: i32,
    text16: Option<&[u8]>,
    little: Option<&[u8]>,
    big: Option<&[u8]>,
    blob: Option<&[u8]>,
    bytes: i32,
    bytes16: i32,
    subtype: u32,
    copy: Option<sqlite3_value>,
    encoding: i32,
    unchanged: i32,
    bound: i32,
)
    requires
        call_ensures(sqlite3_value_numeric_type, (None, parsed), code),
        call_ensures(sqlite3_value_int64, (None, cast), wide),
        call_ensures(sqlite3_value_int, (None, cast), narrow),
        call_ensures(sqlite3_value_text16, (None, big_endian), text16),
        call_ensures(sqlite3_value_text16le, (None,), little),
        call_ensures(sqlite3_value_text16be, (None,), big),
        call_ensures(sqlite3_value_blob, (None,), blob),
        call_ensures(sqlite3_value_bytes, (None,), bytes),
        call_ensures(sqlite3_value_bytes16, (None, big_endian), bytes16),
        call_ensures(sqlite3_value_subtype, (None,), subtype),
        call_ensures(sqlite3_value_dup, (None,), copy),
        call_ensures(sqlite3_value_encoding, (None,), encoding),
        call_ensures(sqlite3_value_nochange, (None,), unchanged),
        call_ensures(sqlite3_value_frombind, (None,), bound),
    ensures
        code == 5,
        wide == 0 && narrow == 0,
        text16 is None && little is None && big is None && blob is None,
        bytes == 0 && bytes16 == 0,
        subtype == 0,
        copy is None,
        encoding == 1,
        unchanged == 0 && bound == 0,
{
}

}
