//! SQL values as C code sees them.

use vstd::prelude::*;

use crate::numeric::{numeric_affinity, NumericText};
use crate::text::push_decimal;
use crate::utf16::{from_utf8_lossy, utf16_bytes};
use crate::value::{copy_bytes, Numeric, Real, Value, ValueRef};

verus! {

pub const SQLITE_INTEGER: i32 = 1;

pub const SQLITE_FLOAT: i32 = 2;

pub const SQLITE_TEXT: i32 = 3;

pub const SQLITE_BLOB: i32 = 4;

pub const SQLITE_NULL: i32 = 5;

pub const SQLITE_UTF8: i32 = 1;

pub const SQLITE_UTF16LE: i32 = 2;

pub const SQLITE_UTF16BE: i32 = 3;

pub const SQLITE_UTF16: i32 = 4;

pub const SQLITE_ANY: i32 = 5;

pub const SQLITE_UTF16_ALIGNED: i32 = 8;

/// The bytes a value reads as when it is asked for as text: text and blobs as they are, numbers in
/// decimal, and nothing for NULL.
pub open spec fn rendering(v: crate::value::ValueView) -> Option<Seq<u8>> {
    match v {
        crate::value::ValueView::Null => None,
        crate::value::ValueView::Text { value, subtype } => Some(vstd::utf8::encode_utf8(value)),
        crate::value::ValueView::Blob(b) => Some(b),
        crate::value::ValueView::Integer(i) => Some(
            vstd::utf8::encode_utf8(crate::text::decimal(i as int)),
        ),
        crate::value::ValueView::Real { bits, text } => Some(vstd::utf8::encode_utf8(text)),
    }
}

/// The same in UTF-16.
pub open spec fn rendering16(v: crate::value::ValueView, big_endian: bool) -> Option<Seq<u8>> {
    match rendering(v) {
        Some(bytes) => Some(
            crate::utf16::unit_bytes(
                crate::utf16::encode_utf16(crate::utf16::text_of(bytes)),
                big_endian,
            ),
        ),
        None => None,
    }
}

/// A rendering with the NUL that ends it.
pub open spec fn terminated(rendered: Option<Seq<u8>>) -> Option<Seq<u8>> {
    match rendered {
        Some(bytes) => Some(bytes.push(0u8)),
        None => None,
    }
}

/// A UTF-16 rendering with the NUL code unit that ends it.
pub open spec fn terminated16(rendered: Option<Seq<u8>>) -> Option<Seq<u8>> {
    match rendered {
        Some(bytes) => Some(bytes + seq![0u8, 0u8]),
        None => None,
    }
}

/// What type code a value has.
pub open spec fn type_code(v: crate::value::ValueView) -> i32 {
    match v {
        crate::value::ValueView::Null => SQLITE_NULL,
        crate::value::ValueView::Integer(_) => SQLITE_INTEGER,
        crate::value::ValueView::Real { bits, text } => SQLITE_FLOAT,
        crate::value::ValueView::Text { value, subtype } => SQLITE_TEXT,
        crate::value::ValueView::Blob(_) => SQLITE_BLOB,
    }
}

/// One SQL value as a C callback sees it. An argument is an owned copy that lives only for the
/// call.
#[allow(non_camel_case_types)]
pub struct sqlite3_value {
    value: Value,
    /// Which argument of the running call this is; none for a value that is not one. A pointer
    /// object rides beside the argument, not inside the value.
    index: Option<usize>,
    subtype: u8,
    /// Always false: the engine does not mark what a bind filled.
    from_bind: bool,
    /// UTF-8 rendering with a trailing NUL.
    text: Option<Vec<u8>>,
    /// The same in UTF-16, each with a trailing NUL code unit.
    text16le: Option<Vec<u8>>,
    text16be: Option<Vec<u8>>,
}

pub open spec fn opt_bytes(v: Option<Vec<u8>>) -> Option<Seq<u8>> {
    match v {
        Some(bytes) => Some(bytes@),
        None => None,
    }
}

impl sqlite3_value {
    pub closed spec fn spec_value(&self) -> crate::value::ValueView {
        self.value@
    }

    pub closed spec fn spec_index(&self) -> Option<usize> {
        self.index
    }

    pub closed spec fn spec_subtype(&self) -> u8 {
        self.subtype
    }

    /// Everything but what has been rendered so far.
    pub open spec fn same_value(&self, other: &sqlite3_value) -> bool {
        &&& self.spec_value() == other.spec_value()
        &&& self.spec_index() == other.spec_index()
        &&& self.spec_subtype() == other.spec_subtype()
    }

    /// Whatever has been rendered is a rendering of the value.
    #[verifier::type_invariant]
    spec fn well_formed(&self) -> bool {
        &&& self.text is Some ==> opt_bytes(self.text) == terminated(rendering(self.value@))
        &&& self.text16le is Some ==> opt_bytes(self.text16le) == terminated16(
            rendering16(self.value@, false),
        )
        &&& self.text16be is Some ==> opt_bytes(self.text16be) == terminated16(
            rendering16(self.value@, true),
        )
        &&& !self.from_bind
    }

    /// A value that is not an argument.
    pub fn new(value: Value) -> (r: Self)
        ensures
            r.spec_value() == value@,
            r.spec_index() is None,
            r.spec_subtype() == value@.inline_subtype(),
    {
        let subtype: u8 = value.subtype();
        sqlite3_value {
            value,
            index: None,
            subtype,
            from_bind: false,
            text: None,
            text16le: None,
            text16be: None,
        }
    }

    /// A copy of argument `index`.
    pub fn from_arg(value: &ValueRef<'_>, index: usize, subtype: u8) -> (r: Self)
        ensures
            r.spec_value() == value@,
            r.spec_index() == Some(index),
            r.spec_subtype() == subtype,
    {
        sqlite3_value {
            value: value.to_owned(),
            index: Some(index),
            subtype,
            from_bind: false,
            text: None,
            text16le: None,
            text16be: None,
        }
    }

    /// Puts another value in its place. The subtype stays: it belongs to the argument and not to
    /// what was made of it.
    pub fn set(&mut self, value: Value)
        ensures
            final(self).spec_value() == value@,
            final(self).spec_index() == old(self).spec_index(),
            final(self).spec_subtype() == old(self).spec_subtype(),
    {
        *self = sqlite3_value {
            value,
            index: self.index,
            subtype: self.subtype,
            from_bind: false,
            text: None,
            text16le: None,
            text16be: None,
        };
    }

    pub fn value(&self) -> (r: &Value)
        ensures
            r@ == self.spec_value(),
    {
        &self.value
    }

    pub fn index(&self) -> (r: Option<usize>)
        ensures
            r == self.spec_index(),
    {
        self.index
    }

    pub fn subtype(&self) -> (r: u8)
        ensures
            r == self.spec_subtype(),
    {
        self.subtype
    }

    pub fn into_value(self) -> (r: Value)
        ensures
            r@ == self.spec_value(),
    {
        self.value
    }

    pub fn type_code(&self) -> (r: i32)
        ensures
            r == type_code(self.spec_value()),
    {
        match &self.value {
            Value::Null => SQLITE_NULL,
            Value::Numeric(Numeric::Integer(_)) => SQLITE_INTEGER,
            Value::Numeric(Numeric::Float(_)) => SQLITE_FLOAT,
            Value::Text(_) => SQLITE_TEXT,
            Value::Blob(_) => SQLITE_BLOB,
        }
    }

    /// The bytes the value reads as.
    fn render(&self) -> (r: Option<Vec<u8>>)
        ensures
            opt_bytes(r) == terminated(rendering(self.spec_value())),
    {
        let mut bytes: Vec<u8> = match &self.value {
            Value::Null => {
                return None;
            },
            Value::Text(t) => copy_bytes(t.value.as_str().as_bytes()),
            Value::Blob(b) => copy_bytes(b.as_slice()),
            Value::Numeric(Numeric::Integer(i)) => {
                let mut text: String = String::new();
                push_decimal(&mut text, *i);
                assert(text@ =~= crate::text::decimal(*i as int));
                copy_bytes(text.as_str().as_bytes())
            },
            Value::Numeric(Numeric::Float(f)) => copy_bytes(f.text.as_str().as_bytes()),
        };
        bytes.push(0);
        Some(bytes)
    }

    /// The value as NUL-terminated bytes: blobs as raw bytes and numbers in decimal. Rendered once;
    /// later calls hand out the same buffer.
    pub fn text_bytes(&mut self) -> (r: Option<&[u8]>)
        ensures
            match r {
                Some(bytes) => terminated(rendering(old(self).spec_value())) == Some(bytes@),
                None => rendering(old(self).spec_value()) is None,
            },
            final(self).same_value(old(self)),
    {
        proof {
            use_type_invariant(&*self);
        }
        if self.text.is_none() {
            let rendered = self.render();
            self.text = rendered;
        }
        match &self.text {
            Some(bytes) => Some(bytes.as_slice()),
            None => None,
        }
    }

    /// The value as UTF-16 in the asked-for byte order, ended by a NUL code unit. Rendered once per
    /// byte order.
    pub fn text16_bytes(&mut self, big_endian: bool) -> (r: Option<&[u8]>)
        ensures
            match r {
                Some(bytes) => terminated16(rendering16(old(self).spec_value(), big_endian)) == Some(
                    bytes@,
                ),
                None => rendering(old(self).spec_value()) is None,
            },
            final(self).same_value(old(self)),
    {
        let cached: bool = if big_endian {
            self.text16be.is_some()
        } else {
            self.text16le.is_some()
        };
        if !cached {
            let mut rendered: Option<Vec<u8>> = None;
            if let Some(utf8) = self.text_bytes() {
                let ghost whole = utf8@;
                let bytes = vstd::slice::slice_subrange(utf8, 0, utf8.len() - 1);
                proof {
                    let plain = rendering(old(self).spec_value())->0;
                    assert(whole == plain.push(0u8));
                    assert(bytes@ =~= plain);
                }
                let text = from_utf8_lossy(bytes);
                let mut buf = utf16_bytes(text.as_str(), big_endian);
                let ghost encoded = buf@;
                buf.push(0);
                buf.push(0);
                assert(buf@ =~= encoded + seq![0u8, 0u8]);
                rendered = Some(buf);
            }
            proof {
                use_type_invariant(&*self);
            }
            if big_endian {
                self.text16be = rendered;
            } else {
                self.text16le = rendered;
            }
        }
        proof {
            use_type_invariant(&*self);
        }
        if big_endian {
            match &self.text16be {
                Some(bytes) => Some(bytes.as_slice()),
                None => None,
            }
        } else {
            match &self.text16le {
                Some(bytes) => Some(bytes.as_slice()),
                None => None,
            }
        }
    }

    /// The value as an integer. `cast` is what `CAST AS INTEGER` makes of a value that is not an
    /// integer already, where that is an integer.
    pub fn int64(&self, cast: Option<i64>) -> (r: i64)
        ensures
            r == int64_of(self.spec_value(), cast),
    {
        match &self.value {
            Value::Numeric(Numeric::Integer(i)) => *i,
            _ => match cast {
                Some(i) => i,
                None => 0,
            },
        }
    }

    /// The number whose floating-point form the value reads as; none for zero. `cast` is what
    /// `CAST AS REAL` makes of a value that is not a number already, where that is a number.
    pub fn double(&self, cast: Option<Numeric>) -> (r: Option<Numeric>)
        ensures
            match self.spec_value() {
                crate::value::ValueView::Integer(_) => r is Some && r->0@ == self.spec_value(),
                crate::value::ValueView::Real { bits, text } => r is Some && r->0@
                    == self.spec_value(),
                _ => r == cast,
            },
    {
        match &self.value {
            Value::Numeric(n) => Some(n.clone()),
            _ => cast,
        }
    }

    /// Applies NUMERIC affinity. `parsed` is the number that text which is a real stands for, where
    /// the host can represent it.
    pub fn apply_numeric_affinity(&mut self, parsed: Option<Real>)
        ensures
            final(self).spec_value() == with_affinity(old(self).spec_value(), real_view(parsed)),
            final(self).spec_index() == old(self).spec_index(),
            final(self).spec_subtype() == old(self).spec_subtype(),
    {
        let number: Option<Value> = match &self.value {
            Value::Text(text) => match numeric_affinity(text.value.as_str()) {
                Some(NumericText::Integer(i)) => Some(Value::Numeric(Numeric::Integer(i))),
                Some(NumericText::Real(_)) => match parsed {
                    Some(r) => Some(Value::Numeric(Numeric::Float(r))),
                    None => None,
                },
                None => None,
            },
            _ => None,
        };
        if let Some(value) = number {
            self.set(value);
        }
    }

    /// A copy that outlives the call. It is no argument any more, so a pointer beside the value
    /// does not come along.
    pub fn dup(&self) -> (r: Self)
        ensures
            r.spec_value() == self.spec_value(),
            r.spec_subtype() == self.spec_subtype(),
            r.spec_index() is None,
    {
        sqlite3_value {
            value: self.value.clone(),
            index: None,
            subtype: self.subtype,
            from_bind: false,
            text: None,
            text16le: None,
            text16be: None,
        }
    }
}

/// The integer a value reads as, given what casting it gives.
pub open spec fn int64_of(v: crate::value::ValueView, cast: Option<i64>) -> i64 {
    match v {
        crate::value::ValueView::Integer(i) => i,
        _ => match cast {
            Some(i) => i,
            None => 0,
        },
    }
}

pub open spec fn real_view(parsed: Option<Real>) -> Option<crate::value::ValueView> {
    match parsed {
        Some(r) => Some(crate::value::ValueView::Real { bits: r.bits, text: r.text@ }),
        None => None,
    }
}

/// A value after NUMERIC affinity: text that is a number becomes it, everything else stays.
pub open spec fn with_affinity(
    v: crate::value::ValueView,
    parsed: Option<crate::value::ValueView>,
) -> crate::value::ValueView {
    match v {
        crate::value::ValueView::Text { value, subtype } => match crate::numeric::affinity(value) {
            Some(crate::numeric::NumericTextView::Integer(i)) => crate::value::ValueView::Integer(
                i as i64,
            ),
            Some(crate::numeric::NumericTextView::Real(_)) => match parsed {
                Some(r) => r,
                None => v,
            },
            None => v,
        },
        _ => v,
    }
}

/// The type code of a value; that of NULL for no value at all.
pub fn sqlite3_value_type(value: Option<&sqlite3_value>) -> (r: i32)
    ensures
        r == (match value {
            Some(v) => type_code(v.spec_value()),
            None => SQLITE_NULL,
        }),
{
    match value {
        Some(v) => v.type_code(),
        None => SQLITE_NULL,
    }
}

/// The type code of a value once text that is a number has become that number.
pub fn sqlite3_value_numeric_type(value: Option<&mut sqlite3_value>, parsed: Option<Real>) -> (r: i32)
    ensures
        match value {
            Some(v) => {
                &&& r == type_code(final(v).spec_value())
                &&& final(v).spec_value() == with_affinity(v.spec_value(), real_view(parsed))
                &&& final(v).spec_index() == v.spec_index()
                &&& final(v).spec_subtype() == v.spec_subtype()
            },
            None => r == SQLITE_NULL,
        },
{
    match value {
        Some(v) => {
            v.apply_numeric_affinity(parsed);
            v.type_code()
        },
        None => SQLITE_NULL,
    }
}

/// The value as a 64-bit integer; 0 for no value at all.
pub fn sqlite3_value_int64(value: Option<&sqlite3_value>, cast: Option<i64>) -> (r: i64)
    ensures
        r == (match value {
            Some(v) => int64_of(v.spec_value(), cast),
            None => 0,
        }),
{
    match value {
        Some(v) => v.int64(cast),
        None => 0,
    }
}

/// The low 32 bits of the value as an integer.
pub fn sqlite3_value_int(value: Option<&sqlite3_value>, cast: Option<i64>) -> (r: i32)
    ensures
        r == (match value {
            Some(v) => int64_of(v.spec_value(), cast),
            None => 0,
        }) as i32,
{
    #[verifier::truncate]
    (sqlite3_value_int64(value, cast) as i32)
}

/// The number whose floating-point form the value reads as; none for zero.
pub fn sqlite3_value_double(value: Option<&sqlite3_value>, cast: Option<Numeric>) -> (r: Option<
    Numeric,
>)
    ensures
        match value {
            Some(v) => match v.spec_value() {
                crate::value::ValueView::Integer(_) => r is Some && r->0@ == v.spec_value(),
                crate::value::ValueView::Real { bits, text } => r is Some && r->0@
                    == v.spec_value(),
                _ => r == cast,
            },
            None => r is None,
        },
{
    match value {
        Some(v) => v.double(cast),
        None => None,
    }
}

/// The value as NUL-terminated UTF-8.
pub fn sqlite3_value_text(value: Option<&mut sqlite3_value>) -> (r: Option<&[u8]>)
    ensures
        match value {
            Some(v) => {
                &&& r is Some <==> rendering(v.spec_value()) is Some
                &&& r is Some ==> Some(r->0@) == terminated(rendering(v.spec_value()))
                &&& final(v).same_value(v)
            },
            None => r is None,
        },
{
    match value {
        Some(v) => v.text_bytes(),
        None => None,
    }
}

/// The value as UTF-16 in the asked-for byte order, ended by a NUL code unit.
pub fn sqlite3_value_text16(value: Option<&mut sqlite3_value>, big_endian: bool) -> (r: Option<
    &[u8],
>)
    ensures
        match value {
            Some(v) => {
                &&& r is Some <==> rendering(v.spec_value()) is Some
                &&& r is Some ==> Some(r->0@) == terminated16(
                    rendering16(v.spec_value(), big_endian),
                )
                &&& final(v).same_value(v)
            },
            None => r is None,
        },
{
    match value {
        Some(v) => v.text16_bytes(big_endian),
        None => None,
    }
}

/// The value as little-endian UTF-16.
pub fn sqlite3_value_text16le(value: Option<&mut sqlite3_value>) -> (r: Option<&[u8]>)
    ensures
        match value {
            Some(v) => {
                &&& r is Some <==> rendering(v.spec_value()) is Some
                &&& r is Some ==> Some(r->0@) == terminated16(rendering16(v.spec_value(), false))
                &&& final(v).same_value(v)
            },
            None => r is None,
        },
{
    sqlite3_value_text16(value, false)
}

/// The value as big-endian UTF-16.
pub fn sqlite3_value_text16be(value: Option<&mut sqlite3_value>) -> (r: Option<&[u8]>)
    ensures
        match value {
            Some(v) => {
                &&& r is Some <==> rendering(v.spec_value()) is Some
                &&& r is Some ==> Some(r->0@) == terminated16(rendering16(v.spec_value(), true))
                &&& final(v).same_value(v)
            },
            None => r is None,
        },
{
    sqlite3_value_text16(value, true)
}

/// The value as bytes; nothing for a NULL and for a value of no bytes.
pub fn sqlite3_value_blob(value: Option<&mut sqlite3_value>) -> (r: Option<&[u8]>)
    ensures
        match value {
            Some(v) => {
                &&& r is Some <==> rendering(v.spec_value()) is Some && rendering(
                    v.spec_value(),
                )->0.len() > 0
                &&& r is Some ==> Some(r->0@) == terminated(rendering(v.spec_value()))
                &&& final(v).same_value(v)
            },
            None => r is None,
        },
{
    match value {
        Some(v) => match v.text_bytes() {
            Some(bytes) => if bytes.len() > 1 {
                Some(bytes)
            } else {
                None
            },
            None => None,
        },
        None => None,
    }
}

/// How many bytes the value reads as, without the NUL that ends them.
pub fn sqlite3_value_bytes(value: Option<&mut sqlite3_value>) -> (r: i32)
    ensures
        match value {
            Some(v) => {
                &&& r == (match rendering(v.spec_value()) {
                    Some(bytes) => bytes.len() as i32,
                    None => 0,
                })
                &&& final(v).same_value(v)
            },
            None => r == 0,
        },
{
    match value {
        Some(v) => match v.text_bytes() {
            Some(bytes) =>
            #[verifier::truncate]
            ((bytes.len() - 1) as i32),
            None => 0,
        },
        None => 0,
    }
}

/// How many bytes the value reads as in UTF-16, without the NUL code unit that ends them.
pub fn sqlite3_value_bytes16(value: Option<&mut sqlite3_value>, big_endian: bool) -> (r: i32)
    ensures
        match value {
            Some(v) => {
                &&& r == (match rendering16(v.spec_value(), big_endian) {
                    Some(bytes) => bytes.len() as i32,
                    None => 0,
                })
                &&& final(v).same_value(v)
            },
            None => r == 0,
        },
{
    match value {
        Some(v) => match v.text16_bytes(big_endian) {
            Some(bytes) =>
            #[verifier::truncate]
            ((bytes.len() - 2) as i32),
            None => 0,
        },
        None => 0,
    }
}

/// The subtype of an argument.
pub fn sqlite3_value_subtype(value: Option<&sqlite3_value>) -> (r: u32)
    ensures
        r == (match value {
            Some(v) => v.spec_subtype() as u32,
            None => 0,
        }),
{
    match value {
        Some(v) => v.subtype() as u32,
        None => 0,
    }
}

/// The encoding values are stored in, which is always UTF-8.
pub fn sqlite3_value_encoding(_value: Option<&sqlite3_value>) -> (r: i32)
    ensures
        r == SQLITE_UTF8,
{
    SQLITE_UTF8
}

/// Always 0: only a virtual table's update reports otherwise.
pub fn sqlite3_value_nochange(_value: Option<&sqlite3_value>) -> (r: i32)
    ensures
        r == 0,
{
    0
}

/// Always 0: the engine does not mark what a bound parameter filled.
pub fn sqlite3_value_frombind(value: Option<&sqlite3_value>) -> (r: i32)
    ensures
        r == 0,
{
    match value {
        Some(v) => {
            proof {
                use_type_invariant(v);
            }
            if v.from_bind {
                1
            } else {
                0
            }
        },
        None => 0,
    }
}

/// A copy that outlives the call.
pub fn sqlite3_value_dup(value: Option<&sqlite3_value>) -> (r: Option<sqlite3_value>)
    ensures
        match value {
            Some(v) => {
                &&& r is Some
                &&& r->0.spec_value() == v.spec_value()
                &&& r->0.spec_subtype() == v.spec_subtype()
                &&& r->0.spec_index() is None
            },
            None => r is None,
        },
{
    match value {
        Some(v) => Some(v.dup()),
        None => None,
    }
}

/// Asking for the numeric type twice is the same as asking once: a value that affinity made a number
/// stays that number, and one that it left alone stays as it is.
pub proof fn law_affinity_is_idempotent(
    v: crate::value::ValueView,
    parsed: Option<crate::value::ValueView>,
)
    requires
        parsed is Some ==> parsed->0 is Real,
    ensures
        with_affinity(with_affinity(v, parsed), parsed) == with_affinity(v, parsed),
{
}

/// A value asked for as UTF-16 in either byte order is the text it is asked for as in UTF-8,
/// whenever that is text.
pub proof fn law_utf16_rendering_is_the_same_text(v: crate::value::ValueView, big_endian: bool)
    requires
        rendering(v) is Some,
    ensures
        crate::utf16::decode_lossy(
            crate::utf16::byte_units(rendering16(v, big_endian)->0, big_endian),
        ) == crate::utf16::text_of(rendering(v)->0),
{
    let text = crate::utf16::text_of(rendering(v)->0);
    crate::utf16::law_utf16_round_trip(text);
    crate::utf16::law_byte_order_round_trip(crate::utf16::encode_utf16(text), big_endian, 0);
}

}
