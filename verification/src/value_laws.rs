//! What values, texts and errors are when they are made, copied and read, said of the values
//! themselves.

use vstd::prelude::*;

use crate::error::{ErrorView, LimboError};
use crate::text::{bytes_eq, chars_of, join2, join3, push_decimal, str_eq, string_of};
use crate::value::{copy_bytes, Numeric, Value, ValueRef, ValueView};

verus! {

/// What a value is says everything it holds: two values of one view are of one kind and hold the
/// same number, the same characters with the same subtype, or the same bytes.
pub proof fn law_a_view_is_what_a_value_holds(v: Value)
    ensures
        match v {
            Value::Null => v@ == ValueView::Null,
            Value::Numeric(Numeric::Integer(i)) => v@ == ValueView::Integer(i),
            Value::Numeric(Numeric::Float(f)) => v@ == (ValueView::Real {
                bits: f.bits,
                text: f.text@,
            }),
            Value::Text(t) => v@ == (ValueView::Text { value: t.value@, subtype: t.subtype }),
            Value::Blob(b) => v@ == ValueView::Blob(b@),
        },
{
}

/// The same of a value borrowed from a row.
pub proof fn law_a_borrowed_view_is_what_it_holds(v: ValueRef<'_>)
    ensures
        match v {
            ValueRef::Null => v@ == ValueView::Null,
            ValueRef::Numeric(Numeric::Integer(i)) => v@ == ValueView::Integer(*i),
            ValueRef::Numeric(Numeric::Float(f)) => v@ == (ValueView::Real {
                bits: f.bits,
                text: f.text@,
            }),
            ValueRef::Text(t) => v@ == (ValueView::Text { value: t.value@, subtype: t.subtype }),
            ValueRef::Blob(b) => v@ == ValueView::Blob(b@),
        },
{
}

/// A value made of an integer, of text or of bytes holds exactly those, and text carries the
/// subtype it was given or none.
pub proof fn law_a_value_holds_what_it_was_made_of(
    i: i64,
    text: String,
    subtype: u8,
    bytes: &[u8],
    number: Value,
    plain: Value,
    tagged: Value,
    blob: Value,
)
    requires
        call_ensures(Value::from_i64, (i,), number),
        call_ensures(Value::build_text, (text,), plain),
        call_ensures(Value::text_with_subtype, (text, subtype), tagged),
        call_ensures(Value::from_slice, (bytes,), blob),
    ensures
        number matches Value::Numeric(Numeric::Integer(j)) && j == i,
        plain matches Value::Text(t) && t.value@ == text@ && t.subtype == 0,
        tagged matches Value::Text(t) && t.value@ == text@ && t.subtype == subtype,
        blob matches Value::Blob(b) && b@ == bytes@,
{
}

/// A value, the borrowed form of it and an owned copy of that are all of one kind and hold the same.
pub proof fn law_borrowing_and_copying_change_nothing(
    v: Value,
    copy: Value,
    borrowed: ValueRef<'_>,
    owned: Value,
)
    requires
        call_ensures(Value::clone, (&v,), copy),
        call_ensures(Value::as_value_ref, (&v,), borrowed),
        call_ensures(ValueRef::to_owned, (&borrowed,), owned),
    ensures
        match v {
            Value::Null => copy is Null && borrowed is Null && owned is Null,
            Value::Numeric(Numeric::Integer(i)) => {
                &&& copy matches Value::Numeric(Numeric::Integer(j)) && j == i
                &&& borrowed matches ValueRef::Numeric(Numeric::Integer(j)) && *j == i
                &&& owned matches Value::Numeric(Numeric::Integer(j)) && j == i
            },
            Value::Numeric(Numeric::Float(f)) => {
                &&& copy matches Value::Numeric(Numeric::Float(g)) && g.bits == f.bits && g.text@
                    == f.text@
                &&& borrowed matches ValueRef::Numeric(Numeric::Float(g)) && g.bits == f.bits
                    && g.text@ == f.text@
                &&& owned matches Value::Numeric(Numeric::Float(g)) && g.bits == f.bits && g.text@
                    == f.text@
            },
            Value::Text(t) => {
                &&& copy matches Value::Text(u) && u.value@ == t.value@ && u.subtype == t.subtype
                &&& borrowed matches ValueRef::Text(u) && u.value@ == t.value@ && u.subtype
                    == t.subtype
                &&& owned matches Value::Text(u) && u.value@ == t.value@ && u.subtype == t.subtype
            },
            Value::Blob(b) => {
                &&& copy matches Value::Blob(c) && c@ == b@
                &&& borrowed matches ValueRef::Blob(c) && c@ == b@
                &&& owned matches Value::Blob(c) && c@ == b@
            },
        },
{
}

/// Only text carries a subtype inside itself: putting one on text is read back and leaves its
/// characters alone, and any other value stays what it was and reads 0.
pub proof fn law_only_text_carries_a_subtype(v: Value, subtype: u8, tagged: Value, read: u8)
    requires
        call_ensures(Value::with_subtype, (v, subtype), tagged),
        call_ensures(Value::subtype, (&tagged,), read),
    ensures
        match v {
            Value::Text(t) => read == subtype && (tagged matches Value::Text(u) && u.value@
                == t.value@),
            _ => read == 0 && tagged@ == v@,
        },
{
}

/// The subtype a borrowed value carries is that of the text it is, and 0 for anything else.
pub proof fn law_a_borrowed_subtype_is_that_of_its_text(v: ValueRef<'_>, read: u8)
    requires
        call_ensures(ValueRef::subtype, (&v,), read),
    ensures
        v matches ValueRef::Text(t) ==> read == t.subtype,
        !(v is Text) ==> read == 0,
{
}

/// A number of one digit is written as the character of that digit, behind whatever was there.
pub proof fn law_a_digit_is_its_character(out: &mut String, n: i64)
    requires
        0 <= n < 10,
        call_ensures(push_decimal, (out, n), ()),
    ensures
        final(out)@.len() == old(out)@.len() + 1,
        final(out)@.drop_last() == old(out)@,
        final(out)@.last() as u32 == 48 + n,
{
    assert(final(out)@.drop_last() =~= old(out)@);
}

/// Putting a digit behind a number multiplies it by ten and adds the digit.
pub proof fn law_a_digit_behind_a_number_multiplies_it_by_ten(
    out: &mut String,
    longer: &mut String,
    n: i64,
    d: i64,
)
    requires
        0 < n,
        0 <= d < 10,
        10 * n + d <= i64::MAX,
        old(longer)@ == old(out)@,
        call_ensures(push_decimal, (out, n), ()),
        call_ensures(push_decimal, (longer, (10 * n + d) as i64), ()),
    ensures
        final(longer)@.len() == final(out)@.len() + 1,
        final(longer)@.drop_last() == final(out)@,
        final(longer)@.last() as u32 == 48 + d,
{
    assert((10 * n + d) / 10 == n && (10 * n + d) % 10 == d);
    let m = (10 * n + d) as nat;
    assert(m / 10 == n as nat);
    assert(m % 10 == d as nat);
    assert(crate::text::digits(m) == crate::text::digits(n as nat).push(
        crate::text::digit_char(d as nat),
    ));
    assert(final(longer)@.drop_last() =~= final(out)@);
}

/// A negative number is a minus sign and the number without it.
pub proof fn law_a_negative_number_has_a_sign(
    out: &mut String,
    positive: &mut String,
    n: i64,
)
    requires
        i64::MIN < n < 0,
        old(positive)@ == old(out)@.push('-'),
        call_ensures(push_decimal, (out, n), ()),
        call_ensures(push_decimal, (positive, (-n) as i64), ()),
    ensures
        final(out)@ == final(positive)@,
{
    assert(final(out)@ =~= final(positive)@);
}

/// Putting a digit behind a negative number multiplies it by ten and takes the digit away.
pub proof fn law_a_digit_behind_a_negative_number_takes_it_away(
    out: &mut String,
    longer: &mut String,
    n: i64,
    d: i64,
)
    requires
        n < 0,
        0 <= d < 10,
        10 * n - d >= i64::MIN,
        old(longer)@ == old(out)@,
        call_ensures(push_decimal, (out, n), ()),
        call_ensures(push_decimal, (longer, (10 * n - d) as i64), ()),
    ensures
        final(longer)@.len() == final(out)@.len() + 1,
        final(longer)@.drop_last() == final(out)@,
        final(longer)@.last() as u32 == 48 + d,
{
    let k = -n;
    assert((10 * k + d) / 10 == k && (10 * k + d) % 10 == d);
    let m = (10 * k + d) as nat;
    assert(m / 10 == k as nat);
    assert(m % 10 == d as nat);
    assert(crate::text::digits(m) == crate::text::digits(k as nat).push(
        crate::text::digit_char(d as nat),
    ));
    assert(final(longer)@.drop_last() =~= final(out)@);
}

/// Joined texts are their characters one after the other, and texts are equal when their characters
/// are.
pub proof fn law_texts_are_their_characters(
    a: &str,
    b: &str,
    c: &str,
    two: String,
    three: String,
    equal: bool,
)
    requires
        call_ensures(join2, (a, b), two),
        call_ensures(join3, (a, b, c), three),
        call_ensures(str_eq, (a, b), equal),
    ensures
        two@.len() == a@.len() + b@.len(),
        two@.take(a@.len() as int) == a@,
        two@.skip(a@.len() as int) == b@,
        three@.take(two@.len() as int) == two@,
        three@.skip(two@.len() as int) == c@,
        equal <==> a@ == b@,
{
    assert(two@.take(a@.len() as int) =~= a@);
    assert(two@.skip(a@.len() as int) =~= b@);
    assert(three@.take(two@.len() as int) =~= two@);
    assert(three@.skip(two@.len() as int) =~= c@);
}

/// An error says which kind it is in front of its message, except that a failing function's message
/// and a host language's come as they were raised; copying an error keeps it.
pub proof fn law_an_error_reads_as_its_kind_and_message(e: LimboError, line: String, copy: LimboError)
    requires
        call_ensures(LimboError::to_string, (&e,), line),
        call_ensures(LimboError::clone, (&e,), copy),
    ensures
        match e {
            LimboError::ParseError(m) => line@ == "Parse error: "@ + m@ && (
            copy matches LimboError::ParseError(n) && n@ == m@),
            LimboError::InvalidArgument(m) => line@ == "Invalid argument supplied: "@ + m@ && (
            copy matches LimboError::InvalidArgument(n) && n@ == m@),
            LimboError::ExtensionError(m) => line@ == "Extension error: "@ + m@ && (
            copy matches LimboError::ExtensionError(n) && n@ == m@),
            LimboError::SqlError(m) => line@ == m@ && (copy matches LimboError::SqlError(n) && n@
                == m@),
            LimboError::InternalError(m) => line@ == "Internal error: "@ + m@ && (
            copy matches LimboError::InternalError(n) && n@ == m@),
            LimboError::UserFunction { code, message } => line@ == message@ && (
            copy matches LimboError::UserFunction { code: c, message: n } && c == code && n@
                == message@),
        },
{
}

/// What is said of an error is its kind and its message.
pub proof fn law_an_error_view_is_what_it_holds(e: LimboError)
    ensures
        match e {
            LimboError::ParseError(m) => e@ == ErrorView::ParseError(m@),
            LimboError::InvalidArgument(m) => e@ == ErrorView::InvalidArgument(m@),
            LimboError::ExtensionError(m) => e@ == ErrorView::ExtensionError(m@),
            LimboError::SqlError(m) => e@ == ErrorView::SqlError(m@),
            LimboError::InternalError(m) => e@ == ErrorView::InternalError(m@),
            LimboError::UserFunction { code, message } => e@ == (ErrorView::UserFunction {
                code,
                message: message@,
            }),
        },
{
}

/// Bytes are equal when each of them is, and a copy of bytes is equal to them; the characters of a
/// text make that text again.
pub proof fn law_bytes_and_characters_are_kept(
    a: &[u8],
    b: &[u8],
    equal: bool,
    copy: Vec<u8>,
    text: &str,
    chars: Vec<char>,
    row: &[char],
    made: String,
    number: Numeric,
    again: Numeric,
)
    requires
        call_ensures(bytes_eq, (a, b), equal),
        call_ensures(copy_bytes, (a,), copy),
        call_ensures(chars_of, (text,), chars),
        row@ == chars@,
        call_ensures(string_of, (row,), made),
        call_ensures(Numeric::clone, (&number,), again),
    ensures
        equal <==> a@.len() == b@.len() && forall|i: int| 0 <= i < a@.len() ==> a@[i] == b@[i],
        copy@ == a@,
        made@ == text@,
        chars@.len() == text@.len(),
        match number {
            Numeric::Integer(i) => again matches Numeric::Integer(j) && j == i,
            Numeric::Float(f) => again matches Numeric::Float(g) && g.bits == f.bits && g.text@
                == f.text@,
        },
{
    if a@.len() == b@.len() && forall|i: int| 0 <= i < a@.len() ==> a@[i] == b@[i] {
        assert(a@ =~= b@);
    }
}

}
