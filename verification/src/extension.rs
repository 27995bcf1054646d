//! The values and traits of extensions: code outside the engine that supplies functions over a
//! stable interface.

use vstd::prelude::*;

use crate::context::FunctionContext;
use crate::error::{LimboError, Result};
use crate::text::join2;
use crate::value::{copy_bytes, Numeric, Real, Value, ValueRef};

verus! {

/// What an extension's value holds.
#[derive(Debug)]
pub enum ExtPayload {
    Null,
    Integer(i64),
    Real(Real),
    Text(String),
    Blob(Vec<u8>),
    /// A failure, with its message.
    Error(String),
}

/// A value as it crosses to or from an extension.
#[derive(Debug)]
pub struct ExtValue {
    pub payload: ExtPayload,
    pub subtype: u8,
}

/// What crosses: a value, or the message of a failure.
pub open spec fn crossed(payload: ExtPayload) -> core::result::Result<
    crate::value::ValueView,
    Seq<char>,
> {
    match payload {
        ExtPayload::Null => Ok(crate::value::ValueView::Null),
        ExtPayload::Integer(i) => Ok(crate::value::ValueView::Integer(i)),
        ExtPayload::Real(f) => Ok(crate::value::ValueView::Real { bits: f.bits, text: f.text@ }),
        ExtPayload::Text(t) => Ok(crate::value::ValueView::Text { value: t@, subtype: 0 }),
        ExtPayload::Blob(b) => Ok(crate::value::ValueView::Blob(b@)),
        ExtPayload::Error(m) => Err(m@),
    }
}

/// Whether a result is what an extension's value stands for: the value, or the extension's error.
pub open spec fn stands_for(r: Result<Value>, payload: ExtPayload) -> bool {
    match (crossed(payload), r) {
        (Ok(v), Ok(value)) => value@ == v,
        (Err(m), Err(e)) => e@ == crate::error::ErrorView::ExtensionError(m),
        _ => false,
    }
}

impl ExtValue {
    pub fn null() -> (r: Self)
        ensures
            r == (ExtValue { payload: ExtPayload::Null, subtype: 0 }),
    {
        ExtValue { payload: ExtPayload::Null, subtype: 0 }
    }

    /// A failure with a message.
    pub fn error_with_message(message: String) -> (r: Self)
        ensures
            r == (ExtValue { payload: ExtPayload::Error(message), subtype: 0 }),
    {
        ExtValue { payload: ExtPayload::Error(message), subtype: 0 }
    }

    pub fn with_subtype(self, subtype: u8) -> (r: Self)
        ensures
            r == (ExtValue { payload: self.payload, subtype }),
    {
        ExtValue { payload: self.payload, subtype }
    }

    pub fn subtype(&self) -> (r: u8)
        ensures
            r == self.subtype,
    {
        self.subtype
    }

    /// Copies a value for an extension, with the subtype text keeps inside itself.
    pub fn from_value_ref(value: &ValueRef<'_>) -> (r: Self)
        ensures
            crossed(r.payload) == Ok::<crate::value::ValueView, Seq<char>>(
                value@.with_inline_subtype(0),
            ),
            r.subtype == value@.inline_subtype(),
    {
        match value {
            ValueRef::Null => ExtValue { payload: ExtPayload::Null, subtype: 0 },
            ValueRef::Numeric(Numeric::Integer(i)) => ExtValue {
                payload: ExtPayload::Integer(*i),
                subtype: 0,
            },
            ValueRef::Numeric(Numeric::Float(f)) => ExtValue {
                payload: ExtPayload::Real(Real { bits: f.bits, text: f.text.clone() }),
                subtype: 0,
            },
            ValueRef::Text(t) => ExtValue {
                payload: ExtPayload::Text(t.value.to_owned()),
                subtype: t.subtype,
            },
            ValueRef::Blob(b) => ExtValue {
                payload: ExtPayload::Blob(copy_bytes(b)),
                subtype: 0,
            },
        }
    }

    /// The value an extension returned, or its error.
    pub fn into_value(self) -> (r: Result<Value>)
        ensures
            stands_for(r, self.payload),
    {
        match self.payload {
            ExtPayload::Null => Ok(Value::Null),
            ExtPayload::Integer(i) => Ok(Value::from_i64(i)),
            ExtPayload::Real(f) => Ok(Value::Numeric(Numeric::Float(f))),
            ExtPayload::Text(t) => Ok(Value::build_text(t)),
            ExtPayload::Blob(b) => Ok(Value::Blob(b)),
            ExtPayload::Error(m) => Err(LimboError::ExtensionError(m)),
        }
    }
}

/// Whether `ext` are the arguments of a call as an extension gets them, each with the subtype the
/// call gives it.
pub open spec fn ext_copies<C, O>(
    ctx: FunctionContext<'_, C, O>,
    args: Seq<ValueRef<'_>>,
    ext: Seq<ExtValue>,
) -> bool {
    &&& ext.len() == args.len()
    &&& forall|i: int|
        0 <= i < args.len() ==> {
            &&& crossed((#[trigger] ext[i]).payload) == Ok::<crate::value::ValueView, Seq<char>>(
                args[i]@.with_inline_subtype(0),
            )
            &&& ext[i].subtype == (if ctx.spec_arg_subtype(i) == 0 {
                args[i]@.inline_subtype()
            } else {
                ctx.spec_arg_subtype(i)
            })
        }
}

/// Copies the arguments of a call for an extension.
pub fn to_ext_values<C, O>(ctx: &FunctionContext<'_, C, O>, args: &[ValueRef<'_>]) -> (r: Vec<
    ExtValue,
>)
    ensures
        ext_copies(*ctx, args@, r@),
{
    let mut out: Vec<ExtValue> = Vec::new();
    let mut i: usize = 0;
    while i < args.len()
        invariant
            i <= args@.len(),
            out@.len() == i,
            forall|j: int|
                0 <= j < i ==> {
                    &&& crossed((#[trigger] out@[j]).payload) == Ok::<
                        crate::value::ValueView,
                        Seq<char>,
                    >(args@[j]@.with_inline_subtype(0))
                    &&& out@[j].subtype == (if ctx.spec_arg_subtype(j) == 0 {
                        args@[j]@.inline_subtype()
                    } else {
                        ctx.spec_arg_subtype(j)
                    })
                },
        decreases args@.len() - i,
    {
        let value = ExtValue::from_value_ref(&args[i]);
        let subtype: u8 = ctx.arg_subtype(i);
        if subtype == 0 {
            out.push(value);
        } else {
            out.push(value.with_subtype(subtype));
        }
        i += 1;
    }
    out
}

/// Below this version of the interface an extension never writes the subtype of a value, so it must
/// not be read.
pub const FIRST_ABI_VERSION_WITH_SUBTYPES: u32 = 2;

/// Whether the subtype of a result reaches the engine.
pub open spec fn keeps_subtype(abi_version: u32, keeps_result: bool, result: ExtValue) -> bool {
    keeps_result && abi_version >= FIRST_ABI_VERSION_WITH_SUBTYPES && result.subtype != 0
}

/// What the engine gets of the value an extension returned.
pub open spec fn taken<C, O>(
    before: FunctionContext<'_, C, O>,
    after: FunctionContext<'_, C, O>,
    abi_version: u32,
    keeps_result: bool,
    result: ExtValue,
    r: Result<Value>,
) -> bool {
    &&& stands_for(r, result.payload)
    &&& after.same_call(&before)
    &&& after.aux == before.aux
    &&& if keeps_subtype(abi_version, keeps_result, result) {
        crate::context::subtype_tag(after.result_tag, result.subtype)
    } else {
        after.result_tag == before.result_tag
    }
}

/// Takes the value an extension returned. `keeps_result` says whether the engine keeps it, and so
/// whether its subtype is worth anything.
pub fn take_ext_result<C, O>(
    ctx: &mut FunctionContext<'_, C, O>,
    abi_version: u32,
    keeps_result: bool,
    result: ExtValue,
) -> (r: Result<Value>)
    ensures
        taken(*old(ctx), *final(ctx), abi_version, keeps_result, result, r),
{
    if keeps_result && abi_version >= FIRST_ABI_VERSION_WITH_SUBTYPES {
        let subtype: u8 = result.subtype();
        if subtype != 0 {
            ctx.set_result_subtype(subtype);
        }
    }
    result.into_value()
}

/// An aggregate an extension implements.
pub trait AggFunc {
    type State: Default;

    type Error;

    const NAME: &'static str;

    /// The argument count, or -1 for any.
    const ARGS: i32;

    /// True only where `value` and `inverse` are implemented too.
    const WINDOW: bool = false;

    fn step(state: &mut Self::State, args: &Vec<ExtValue>);

    fn finalize(state: Self::State) -> core::result::Result<ExtValue, Self::Error>;

    /// The running value; must not consume the state.
    fn value(_state: &Self::State) -> (r: core::result::Result<ExtValue, Self::Error>)
        default_ensures
            r is Ok,
            r->Ok_0.payload matches ExtPayload::Error(m) && m@ == Self::NAME@
                + "() may not be used as a window function"@,
    {
        Ok(not_a_window_aggregate(Self::NAME))
    }

    /// Undoes the step of a row that left the frame.
    fn inverse(state: &mut Self::State, _args: &Vec<ExtValue>)
        default_ensures
            *final(state) == *old(state),
    {
    }
}

/// The failure of an aggregate that is read inside a window frame but cannot be.
pub fn not_a_window_aggregate(name: &str) -> (r: ExtValue)
    ensures
        r.subtype == 0,
        r.payload matches ExtPayload::Error(m) && m@ == name@
            + "() may not be used as a window function"@,
{
    ExtValue::error_with_message(join2(name, "() may not be used as a window function"))
}

/// A scalar function an extension implements, with state of its own. The state is made once per
/// registration and shared by every call.
pub trait ScalarFunc {
    type State: Send + Sync;

    const NAME: &'static str;

    /// A second name.
    const ALIAS: Option<&'static str> = None;

    /// The argument count, or -1 for any.
    const ARGC: i32 = -1;

    const DETERMINISTIC: bool = false;

    fn init() -> Self::State;

    fn call(state: &Self::State, args: &Vec<ExtValue>) -> ExtValue;
}

}
