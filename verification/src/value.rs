//! SQL values: the owned form a function returns and the borrowed form it is called with.

use vstd::prelude::*;

verus! {

/// A floating-point number. The host language does the arithmetic; here it is its bit pattern and
/// the text SQL renders it as.
#[derive(Debug)]
pub struct Real {
    pub bits: u64,
    pub text: String,
}

#[derive(Debug)]
pub enum Numeric {
    Integer(i64),
    Float(Real),
}

/// Text, with the subtype a function may have left on it (0 for none).
#[derive(Debug)]
pub struct Text {
    pub value: String,
    pub subtype: u8,
}

/// One SQL value.
#[derive(Debug)]
pub enum Value {
    Null,
    Numeric(Numeric),
    Text(Text),
    Blob(Vec<u8>),
}

/// Text borrowed from the row that is being read.
#[derive(Clone, Copy, Debug)]
pub struct TextRef<'a> {
    pub value: &'a str,
    pub subtype: u8,
}

/// One SQL value borrowed from the row that is being read.
#[derive(Clone, Copy, Debug)]
pub enum ValueRef<'a> {
    Null,
    Numeric(&'a Numeric),
    Text(TextRef<'a>),
    Blob(&'a [u8]),
}

/// What a value is, whoever owns it.
pub enum ValueView {
    Null,
    Integer(i64),
    Real { bits: u64, text: Seq<char> },
    Text { value: Seq<char>, subtype: u8 },
    Blob(Seq<u8>),
}

impl View for Numeric {
    type V = ValueView;

    open spec fn view(&self) -> ValueView {
        match self {
            Numeric::Integer(i) => ValueView::Integer(*i),
            Numeric::Float(f) => ValueView::Real { bits: f.bits, text: f.text@ },
        }
    }
}

impl View for Value {
    type V = ValueView;

    open spec fn view(&self) -> ValueView {
        match self {
            Value::Null => ValueView::Null,
            Value::Numeric(n) => n@,
            Value::Text(t) => ValueView::Text { value: t.value@, subtype: t.subtype },
            Value::Blob(b) => ValueView::Blob(b@),
        }
    }
}

impl<'a> View for ValueRef<'a> {
    type V = ValueView;

    open spec fn view(&self) -> ValueView {
        match self {
            ValueRef::Null => ValueView::Null,
            ValueRef::Numeric(n) => n@,
            ValueRef::Text(t) => ValueView::Text { value: t.value@, subtype: t.subtype },
            ValueRef::Blob(b) => ValueView::Blob(b@),
        }
    }
}

impl ValueView {
    /// The subtype a value carries inside itself: only text can.
    pub open spec fn inline_subtype(self) -> u8 {
        match self {
            ValueView::Text { value, subtype } => subtype,
            _ => 0,
        }
    }

    /// The value with a subtype left inside it, which changes nothing but text.
    pub open spec fn with_inline_subtype(self, subtype: u8) -> ValueView {
        match self {
            ValueView::Text { value, subtype: _ } => ValueView::Text { value, subtype },
            other => other,
        }
    }
}

/// The views of a list of borrowed values.
pub open spec fn views(args: Seq<ValueRef<'_>>) -> Seq<ValueView> {
    Seq::new(args.len(), |i: int| args[i]@)
}

impl Clone for Numeric {
    fn clone(&self) -> (r: Self)
        ensures
            r == *self,
    {
        match self {
            Numeric::Integer(i) => Numeric::Integer(*i),
            Numeric::Float(f) => Numeric::Float(Real { bits: f.bits, text: f.text.clone() }),
        }
    }
}

/// A copy of a byte string.
pub fn copy_bytes(bytes: &[u8]) -> (r: Vec<u8>)
    ensures
        r@ == bytes@,
{
    let mut out: Vec<u8> = Vec::new();
    out.extend_from_slice(bytes);
    assert(out@ =~= bytes@);
    out
}

impl Clone for Value {
    fn clone(&self) -> (r: Self)
        ensures
            r@ == self@,
    {
        match self {
            Value::Null => Value::Null,
            Value::Numeric(n) => Value::Numeric(n.clone()),
            Value::Text(t) => Value::Text(
                Text { value: t.value.clone(), subtype: t.subtype },
            ),
            Value::Blob(b) => Value::Blob(copy_bytes(b.as_slice())),
        }
    }
}

impl Value {
    pub fn from_i64(i: i64) -> (r: Self)
        ensures
            r@ == ValueView::Integer(i),
    {
        Value::Numeric(Numeric::Integer(i))
    }

    /// Text without a subtype.
    pub fn build_text(value: String) -> (r: Self)
        ensures
            r@ == (ValueView::Text { value: value@, subtype: 0 }),
    {
        Value::Text(Text { value, subtype: 0 })
    }

    pub fn text_with_subtype(value: String, subtype: u8) -> (r: Self)
        ensures
            r@ == (ValueView::Text { value: value@, subtype }),
    {
        Value::Text(Text { value, subtype })
    }

    pub fn from_slice(bytes: &[u8]) -> (r: Self)
        ensures
            r@ == ValueView::Blob(bytes@),
    {
        Value::Blob(copy_bytes(bytes))
    }

    /// The subtype this value carries inside itself.
    pub fn subtype(&self) -> (r: u8)
        ensures
            r == self@.inline_subtype(),
    {
        match self {
            Value::Text(t) => t.subtype,
            _ => 0,
        }
    }

    /// Leaves a subtype inside text; a value that is not text stays as it is.
    pub fn with_subtype(self, subtype: u8) -> (r: Self)
        ensures
            r@ == self@.with_inline_subtype(subtype),
    {
        match self {
            Value::Text(t) => Value::Text(Text { value: t.value, subtype }),
            other => other,
        }
    }

    /// The value as a function sees it.
    pub fn as_value_ref(&self) -> (r: ValueRef<'_>)
        ensures
            r@ == self@,
    {
        match self {
            Value::Null => ValueRef::Null,
            Value::Numeric(n) => ValueRef::Numeric(n),
            Value::Text(t) => ValueRef::Text(TextRef { value: t.value.as_str(), subtype: t.subtype }),
            Value::Blob(b) => ValueRef::Blob(b.as_slice()),
        }
    }
}

impl<'a> ValueRef<'a> {
    /// The subtype this value carries inside itself.
    pub fn subtype(&self) -> (r: u8)
        ensures
            r == self@.inline_subtype(),
    {
        match self {
            ValueRef::Text(t) => t.subtype,
            _ => 0,
        }
    }

    /// An owned copy.
    pub fn to_owned(&self) -> (r: Value)
        ensures
            r@ == self@,
    {
        match self {
            ValueRef::Null => Value::Null,
            ValueRef::Numeric(n) => Value::Numeric((*n).clone()),
            ValueRef::Text(t) => Value::Text(
                Text { value: t.value.to_owned(), subtype: t.subtype },
            ),
            ValueRef::Blob(b) => Value::Blob(copy_bytes(b)),
        }
    }
}

}
