//! Functions written in JavaScript. A JavaScript value may only be touched on the thread that made
//! it; calls into the runtime are made by the caller, and what they come back with is turned into
//! values and errors here.

use std::sync::Arc;
use vstd::prelude::*;

use crate::context::FunctionContext;
use crate::error::{LimboError, Result};
use crate::function::{AggregateFunction, AggregateState, ScalarFunction};
use crate::text::{chars_of, join2, join3};
use crate::turns::{Call, Rules, Turn};
use crate::value::{copy_bytes, Numeric, Real, Value, ValueRef};

verus! {

/// A JavaScript value as far as it has a meaning in SQL.
#[derive(Debug)]
pub enum JsValue {
    Undefined,
    Null,
    /// A number, and the 64-bit integer it is where it has no fraction and is in range.
    Number { whole: Option<i64>, number: Real },
    /// A BigInt, by its digits.
    BigInt(String),
    Text(String),
    Boolean(bool),
    /// The elements of a buffer or a typed array.
    Bytes(Vec<u32>),
    /// An object that is neither, a function or a symbol.
    Other,
}

/// Whether `s` is what a BigInt is written as: digits behind an optional minus sign.
pub open spec fn is_decimal(s: Seq<char>) -> bool {
    let start: int = if s.len() > 0 && s[0] == '-' {
        1
    } else {
        0
    };
    start < s.len() && forall|i: int|
        start <= i < s.len() ==> crate::numeric::is_digit(#[trigger] s[i])
}

/// Why a BigInt is no 64-bit integer; none where it is one.
pub open spec fn bigint_failure(s: Seq<char>) -> Option<Seq<char>> {
    if s.len() == 0 {
        Some("cannot parse integer from empty string"@)
    } else if !is_decimal(s) {
        Some("invalid digit found in string"@)
    } else if crate::numeric::integer_value(s) > i64::MAX {
        Some("number too large to fit in target type"@)
    } else if crate::numeric::integer_value(s) < i64::MIN {
        Some("number too small to fit in target type"@)
    } else {
        None
    }
}

/// The 64-bit integer a BigInt is, or why it is none.
fn parse_bigint(text: &str) -> (r: core::result::Result<i64, &'static str>)
    ensures
        match r {
            Ok(i) => bigint_failure(text@) is None && i == crate::numeric::integer_value(text@),
            Err(e) => bigint_failure(text@) == Some(e@),
        },
{
    let chars = chars_of(text);
    if chars.len() == 0 {
        return Err("cannot parse integer from empty string");
    }
    let negative: bool = chars[0] == '-';
    let start: usize = if negative {
        1
    } else {
        0
    };
    if chars.len() <= start {
        return Err("invalid digit found in string");
    }
    let mut i: usize = start;
    while i < chars.len()
        invariant
            start <= i <= chars@.len(),
            forall|j: int| start <= j < i ==> crate::numeric::is_digit(#[trigger] chars@[j]),
            chars@ == text@,
            start == (if text@.len() > 0 && text@[0] == '-' {
                1int
            } else {
                0
            }),
        decreases chars@.len() - i,
    {
        if !('0' <= chars[i] && chars[i] <= '9') {
            assert(!crate::numeric::is_digit(text@[i as int]));
            return Err("invalid digit found in string");
        }
        i += 1;
    }
    assert(is_decimal(text@));
    assert(crate::numeric::sign_len(text@, 0) == start) by {
        if !negative {
            assert(crate::numeric::is_digit(text@[0]));
        }
    }
    match crate::numeric::parse_integer(chars.as_slice()) {
        Some(i) => Ok(i),
        None => {
            proof {
                crate::numeric::lemma_digits_value_nonnegative(
                    text@.skip(crate::numeric::sign_len(text@, 0)),
                );
            }
            if negative {
                Err("number too small to fit in target type")
            } else {
                Err("number too large to fit in target type")
            }
        },
    }
}

/// The value a JavaScript value stands for; none for one with no equivalent in SQL.
pub open spec fn js_view(v: JsValue) -> Option<crate::value::ValueView> {
    match v {
        JsValue::Null => Some(crate::value::ValueView::Null),
        JsValue::Number { whole, number } => Some(
            match whole {
                Some(i) => crate::value::ValueView::Integer(i),
                None => crate::value::ValueView::Real { bits: number.bits, text: number.text@ },
            },
        ),
        JsValue::BigInt(digits) => Some(
            crate::value::ValueView::Integer(crate::numeric::integer_value(digits@) as i64),
        ),
        JsValue::Text(t) => Some(crate::value::ValueView::Text { value: t@, subtype: 0 }),
        JsValue::Boolean(b) => Some(
            crate::value::ValueView::Integer(if b {
                1
            } else {
                0
            }),
        ),
        JsValue::Bytes(elements) => Some(
            crate::value::ValueView::Blob(elements@.map_values(|e: u32| (e % 256) as u8)),
        ),
        JsValue::Undefined => None,
        JsValue::Other => None,
    }
}

/// Whether a conversion came out as it should: the value, none where there is no equivalent, or the
/// reason a BigInt does not fit.
pub open spec fn js_converted(
    v: JsValue,
    r: core::result::Result<Option<Value>, String>,
) -> bool {
    match r {
        Err(reason) => v matches JsValue::BigInt(digits) && bigint_failure(digits@) is Some
            && reason@ == "failed to parse BigInt: "@ + bigint_failure(digits@)->0,
        Ok(None) => js_view(v) is None,
        Ok(Some(value)) => js_view(v) == Some(value@) && (v matches JsValue::BigInt(digits)
            ==> bigint_failure(digits@) is None),
    }
}

/// The value a JavaScript value stands for; none for one with no equivalent, leaving the caller to
/// choose between coercing and rejecting.
pub fn js_to_value(v: JsValue) -> (r: core::result::Result<Option<Value>, String>)
    ensures
        js_converted(v, r),
{
    match v {
        JsValue::Null => Ok(Some(Value::Null)),
        JsValue::Number { whole, number } => match whole {
            Some(i) => Ok(Some(Value::from_i64(i))),
            None => Ok(Some(Value::Numeric(Numeric::Float(number)))),
        },
        JsValue::BigInt(digits) => match parse_bigint(digits.as_str()) {
            Ok(i) => Ok(Some(Value::from_i64(i))),
            Err(e) => Err(join2("failed to parse BigInt: ", e)),
        },
        JsValue::Text(t) => Ok(Some(Value::build_text(t))),
        JsValue::Boolean(b) => Ok(
            Some(
                Value::from_i64(
                    if b {
                        1
                    } else {
                        0
                    },
                ),
            ),
        ),
        JsValue::Bytes(elements) => {
            let mut bytes: Vec<u8> = Vec::new();
            let mut i: usize = 0;
            let ghost whole = elements@.map_values(|e: u32| (e % 256) as u8);
            while i < elements.len()
                invariant
                    i <= elements@.len(),
                    whole == elements@.map_values(|e: u32| (e % 256) as u8),
                    bytes@ == whole.take(i as int),
                decreases elements@.len() - i,
            {
                bytes.push((elements[i] % 256) as u8);
                i += 1;
                assert(bytes@ =~= whole.take(i as int));
            }
            assert(whole.take(elements@.len() as int) =~= whole);
            Ok(Some(Value::Blob(bytes)))
        },
        JsValue::Undefined => Ok(None),
        JsValue::Other => Ok(None),
    }
}

/// Why a call into JavaScript came to nothing.
#[derive(Debug)]
pub enum JsFault {
    /// The value belongs to another thread.
    WrongThread,
    /// The callback is gone.
    Gone,
    Scope,
    Property,
    Update,
    Inspect,
    Prepare,
    /// The callback threw; the reason of what it threw, where there is one.
    Threw(Option<String>),
    Call,
    State,
    /// A value could not be converted, for this reason.
    Convert(String),
}

/// What the user reads of a fault of `what`.
pub open spec fn fault_text(fault: JsFault, what: Seq<char>) -> Seq<char> {
    match fault {
        JsFault::WrongThread =>
            "a JavaScript user-defined function can only run on the thread that registered it"@,
        JsFault::Gone => "the JavaScript user-defined function is no longer available"@,
        JsFault::Scope => "failed to open a JavaScript handle scope"@,
        JsFault::Property => "failed to read a property of a user-defined function"@,
        JsFault::Update => "failed to update the state of a user-defined aggregate"@,
        JsFault::Inspect => "failed to inspect a JavaScript value"@,
        JsFault::Prepare => "failed to prepare a call into JavaScript"@,
        JsFault::Threw(Some(reason)) => reason@,
        JsFault::Threw(None) => "a user-defined function threw"@,
        JsFault::Call => "calling a JavaScript user-defined function failed"@,
        JsFault::State => "failed to create the state of a user-defined aggregate"@,
        JsFault::Convert(reason) => what + ": "@ + reason@,
    }
}

impl JsFault {
    /// The failure of the statement.
    pub fn into_core(self, what: &str) -> (r: LimboError)
        ensures
            r@ == crate::error::ErrorView::SqlError(fault_text(self, what@)),
    {
        let text: String = match self {
            JsFault::WrongThread =>
                "a JavaScript user-defined function can only run on the thread that registered it".to_owned(),
            JsFault::Gone => "the JavaScript user-defined function is no longer available".to_owned(),
            JsFault::Scope => "failed to open a JavaScript handle scope".to_owned(),
            JsFault::Property => "failed to read a property of a user-defined function".to_owned(),
            JsFault::Update => "failed to update the state of a user-defined aggregate".to_owned(),
            JsFault::Inspect => "failed to inspect a JavaScript value".to_owned(),
            JsFault::Prepare => "failed to prepare a call into JavaScript".to_owned(),
            JsFault::Threw(Some(reason)) => reason,
            JsFault::Threw(None) => "a user-defined function threw".to_owned(),
            JsFault::Call => "calling a JavaScript user-defined function failed".to_owned(),
            JsFault::State => "failed to create the state of a user-defined aggregate".to_owned(),
            JsFault::Convert(reason) => join3(what, ": ", reason.as_str()),
        };
        LimboError::SqlError(text)
    }
}

pub type JsResult<T> = core::result::Result<T, JsFault>;

/// Who owns a JavaScript reference.
#[derive(Clone, Copy, Debug, PartialEq, Eq, Structural)]
pub struct JsOwner {
    pub thread: u64,
}

impl JsOwner {
    /// Whether the value may be read: on the owning thread, and only while it is still there.
    pub fn value(&self, current: u64, available: bool) -> (r: JsResult<()>)
        ensures
            r == (if current != self.thread {
                Err::<(), JsFault>(JsFault::WrongThread)
            } else if !available {
                Err(JsFault::Gone)
            } else {
                Ok(())
            }),
    {
        if current != self.thread {
            return Err(JsFault::WrongThread);
        }
        if !available {
            return Err(JsFault::Gone);
        }
        Ok(())
    }

    /// Whether dropping the reference deletes it. Deleting one off its owning thread is not allowed,
    /// so there it is leaked.
    pub fn deletes(&self, current: u64) -> (r: bool)
        ensures
            r == (current == self.thread),
    {
        current == self.thread
    }
}

/// An argument as JavaScript gets it.
#[derive(Debug)]
pub enum JsArg {
    Null,
    /// An integer as a Number.
    Number(i64),
    BigInt(i64),
    Real(Real),
    Text(String),
    Bytes(Vec<u8>),
}

/// Whether `arg` is a value as JavaScript gets it; `safe_integers` says whether integers come as
/// BigInt.
pub open spec fn is_js_arg(
    arg: JsArg,
    v: crate::value::ValueView,
    safe_integers: bool,
) -> bool {
    match (v, arg) {
        (crate::value::ValueView::Null, JsArg::Null) => true,
        (crate::value::ValueView::Integer(i), JsArg::BigInt(j)) => safe_integers && i == j,
        (crate::value::ValueView::Integer(i), JsArg::Number(j)) => !safe_integers && i == j,
        (crate::value::ValueView::Real { bits, text }, JsArg::Real(f)) => f.bits == bits && f.text@
            == text,
        (crate::value::ValueView::Text { value, subtype }, JsArg::Text(t)) => t@ == value,
        (crate::value::ValueView::Blob(b), JsArg::Bytes(c)) => c@ == b,
        _ => false,
    }
}

/// A value as JavaScript gets it.
pub fn value_ref_to_js(value: &ValueRef<'_>, safe_integers: bool) -> (r: JsArg)
    ensures
        is_js_arg(r, value@, safe_integers),
{
    match value {
        ValueRef::Null => JsArg::Null,
        ValueRef::Numeric(Numeric::Integer(i)) => if safe_integers {
            JsArg::BigInt(*i)
        } else {
            JsArg::Number(*i)
        },
        ValueRef::Numeric(Numeric::Float(f)) => JsArg::Real(
            Real { bits: f.bits, text: f.text.clone() },
        ),
        ValueRef::Text(t) => JsArg::Text(t.value.to_owned()),
        ValueRef::Blob(b) => JsArg::Bytes(copy_bytes(b)),
    }
}

/// Whether `js` are the arguments of a call as JavaScript gets them.
pub open spec fn are_js_args(
    js: Seq<JsArg>,
    args: Seq<ValueRef<'_>>,
    safe_integers: bool,
) -> bool {
    js.len() == args.len() && forall|i: int|
        0 <= i < args.len() ==> is_js_arg(#[trigger] js[i], args[i]@, safe_integers)
}

/// The arguments of a call as JavaScript gets them.
pub fn js_args(args: &[ValueRef<'_>], safe_integers: bool) -> (r: Vec<JsArg>)
    ensures
        are_js_args(r@, args@, safe_integers),
{
    let mut out: Vec<JsArg> = Vec::new();
    let mut i: usize = 0;
    while i < args.len()
        invariant
            i <= args@.len(),
            out@.len() == i,
            forall|j: int| 0 <= j < i ==> is_js_arg(#[trigger] out@[j], args@[j]@, safe_integers),
        decreases args@.len() - i,
    {
        out.push(value_ref_to_js(&args[i], safe_integers));
        i += 1;
    }
    out
}

/// What a result becomes that was read of a callback named `what`.
pub enum JsSettled {
    Value(Value),
    /// The statement fails; the same message also becomes a `TypeError` to rethrow.
    TypeError(String),
    Fail(LimboError),
}

/// Whether a settled result is what a JavaScript value stands for: `undefined` and `null` are both
/// NULL, and anything without an equivalent is a `TypeError`.
pub open spec fn result_settled(v: JsValue, what: Seq<char>, settled: JsSettled) -> bool {
    match settled {
        JsSettled::Value(value) => (v is Undefined && value@ == crate::value::ValueView::Null)
            || js_view(v) == Some(value@) && (v matches JsValue::BigInt(digits)
            ==> bigint_failure(digits@) is None),
        JsSettled::TypeError(message) => v is Other && message@ == what
            + " returned an invalid value"@,
        JsSettled::Fail(e) => v matches JsValue::BigInt(digits) && bigint_failure(digits@) is Some
            && e@ == crate::error::ErrorView::SqlError(
            what + ": "@ + ("failed to parse BigInt: "@ + bigint_failure(digits@)->0),
        ),
    }
}

/// The value a callback's result stands for.
pub fn js_result_to_value(v: JsValue, what: &str) -> (r: JsSettled)
    ensures
        result_settled(v, what@, r),
{
    let undefined: bool = matches!(v, JsValue::Undefined);
    if undefined {
        return JsSettled::Value(Value::Null);
    }
    match js_to_value(v) {
        Ok(Some(value)) => JsSettled::Value(value),
        Ok(None) => JsSettled::TypeError(join2(what, " returned an invalid value")),
        Err(reason) => JsSettled::Fail(JsFault::Convert(reason).into_core(what)),
    }
}

/// The result of a call that gave a value, or came to nothing.
pub open spec fn js_finished(read: JsResult<JsValue>, what: Seq<char>, r: Result<Value>) -> bool {
    match read {
        Err(fault) => r is Err && r->Err_0@ == crate::error::ErrorView::SqlError(
            fault_text(fault, what),
        ),
        Ok(v) => exists|settled: JsSettled|
            #[trigger] result_settled(v, what, settled) && match settled {
                JsSettled::Value(value) => r == Ok::<Value, LimboError>(value),
                JsSettled::TypeError(message) => r == Err::<Value, LimboError>(
                    LimboError::SqlError(message),
                ),
                JsSettled::Fail(e) => r == Err::<Value, LimboError>(e),
            },
    }
}

/// Whether a value without an equivalent had `pend` keep the error to rethrow: its message is the
/// one the statement fails with.
pub open spec fn js_pended<P>(pend: P, read: JsResult<JsValue>, r: Result<Value>) -> bool where
    P: Fn(&String),
 {
    read matches Ok(JsValue::Other) ==> r matches Err(LimboError::SqlError(message))
        && call_ensures(pend, (&message,), ())
}

/// The engine's result of a call. `pend` is told of a `TypeError` to rethrow.
fn finish<P>(read: JsResult<JsValue>, what: &str, pend: &P) -> (r: Result<Value>) where
    P: Fn(&String),

    requires
        forall|message: &String| call_requires(*pend, (message,)),
    ensures
        js_finished(read, what@, r),
        js_pended(*pend, read, r),
{
    match read {
        Err(fault) => Err(fault.into_core(what)),
        Ok(v) => {
            let settled = js_result_to_value(v, what);
            assert(result_settled(v, what@, settled));
            match settled {
                JsSettled::Value(value) => Ok(value),
                JsSettled::TypeError(message) => {
                    (*pend)(&message);
                    Err(LimboError::SqlError(message))
                },
                JsSettled::Fail(e) => Err(e),
            }
        },
    }
}

/// Whether integers come as BigInt, given what the function asked for and the database's default.
pub open spec fn integers_safe(asked: Option<bool>, default: bool) -> bool {
    match asked {
        Some(b) => b,
        None => default,
    }
}

/// Whether integers come as BigInt: what the function asked for, or else the database's default at
/// the time of the call.
pub fn safe_integers(asked: Option<bool>, default: bool) -> (r: bool)
    ensures
        r == integers_safe(asked, default),
{
    match asked {
        Some(b) => b,
        None => default,
    }
}

/// A scalar function: `F` calls it, `B` reads the database's default for integers, `P` keeps a
/// `TypeError` to rethrow.
pub struct JsScalarFunction<F, B, P> where
    F: Fn(&Vec<JsArg>) -> JsResult<JsValue> + Send + Sync + 'static,
    B: Fn() -> bool + Send + Sync + 'static,
    P: Fn(&String) + Send + Sync + 'static,
 {
    func: F,
    safe_integers: Option<bool>,
    default_safe_integers: B,
    pend: P,
    /// How the function is named in error messages.
    what: String,
}

impl<F, B, P> JsScalarFunction<F, B, P> where
    F: Fn(&Vec<JsArg>) -> JsResult<JsValue> + Send + Sync + 'static,
    B: Fn() -> bool + Send + Sync + 'static,
    P: Fn(&String) + Send + Sync + 'static,
 {
    #[verifier::type_invariant]
    spec fn total(&self) -> bool {
        &&& forall|args: &Vec<JsArg>| call_requires(self.func, (args,))
        &&& call_requires(self.default_safe_integers, ())
        &&& forall|message: &String| call_requires(self.pend, (message,))
    }

    pub closed spec fn spec_func(&self) -> F {
        self.func
    }

    pub closed spec fn spec_safe_integers(&self) -> Option<bool> {
        self.safe_integers
    }

    pub closed spec fn spec_default(&self) -> B {
        self.default_safe_integers
    }

    pub closed spec fn spec_pend(&self) -> P {
        self.pend
    }

    pub closed spec fn spec_what(&self) -> Seq<char> {
        self.what@
    }
}

/// Refuses a callback that is no function.
fn expect_function(is_function: bool, what: &str) -> (r: core::result::Result<(), String>)
    ensures
        r is Ok <==> is_function,
        r is Err ==> r->Err_0@ == "expected "@ + what@ + " to be a function"@,
{
    if !is_function {
        return Err(join3("expected ", what, " to be a function"));
    }
    Ok(())
}

/// Makes a scalar function of a callback, which must be a function.
pub fn scalar_function<F, B, P>(
    name: &str,
    is_function: bool,
    func: F,
    safe_integers: Option<bool>,
    default_safe_integers: B,
    pend: P,
) -> (r: core::result::Result<JsScalarFunction<F, B, P>, String>) where
    F: Fn(&Vec<JsArg>) -> JsResult<JsValue> + Send + Sync + 'static,
    B: Fn() -> bool + Send + Sync + 'static,
    P: Fn(&String) + Send + Sync + 'static,

    requires
        forall|args: &Vec<JsArg>| call_requires(func, (args,)),
        call_requires(default_safe_integers, ()),
        forall|message: &String| call_requires(pend, (message,)),
    ensures
        r is Ok <==> is_function,
        match r {
            Ok(f) => {
                &&& f.spec_func() == func
                &&& f.spec_safe_integers() == safe_integers
                &&& f.spec_default() == default_safe_integers
                &&& f.spec_pend() == pend
                &&& f.spec_what() == "user-defined function "@ + name@ + "()"@
            },
            Err(m) => m@ == "expected "@ + "the function"@ + " to be a function"@,
        },
{
    match expect_function(is_function, "the function") {
        Err(m) => Err(m),
        Ok(()) => Ok(
            JsScalarFunction {
                func,
                safe_integers,
                default_safe_integers,
                pend,
                what: join3("user-defined function ", name, "()"),
            },
        ),
    }
}

impl<F, B, P, C, O> ScalarFunction<C, O> for JsScalarFunction<F, B, P> where
    F: Fn(&Vec<JsArg>) -> JsResult<JsValue> + Send + Sync + 'static,
    B: Fn() -> bool + Send + Sync + 'static,
    P: Fn(&String) + Send + Sync + 'static,
 {
    fn call(&self, ctx: &mut FunctionContext<'_, C, O>, args: &[ValueRef<'_>]) -> (r: Result<Value>)
        ensures
            *final(ctx) == *old(ctx),
            exists|default: bool, js: Vec<JsArg>, read: JsResult<JsValue>|
                {
                    &&& call_ensures(self.spec_default(), (), default)
                    &&& #[trigger] are_js_args(
                        js@,
                        args@,
                        integers_safe(self.spec_safe_integers(), default),
                    )
                    &&& call_ensures(self.spec_func(), (&js,), read)
                    &&& #[trigger] js_finished(read, self.spec_what(), r)
                    &&& js_pended(self.spec_pend(), read, r)
                },
    {
        proof {
            use_type_invariant(self);
        }
        let default = (self.default_safe_integers)();
        let safe = safe_integers(self.safe_integers, default);
        let js = js_args(args, safe);
        let read = (self.func)(&js);
        let r = finish(read, self.what.as_str(), &self.pend);
        proof {
            assert(are_js_args(
                js@,
                args@,
                integers_safe(self.spec_safe_integers(), default),
            ));
            assert(js_finished(read, self.spec_what(), r));
        }
        r
    }
}

/// The callbacks of an aggregate.
#[derive(Clone, Copy, Debug, PartialEq, Eq, Structural)]
pub enum JsCallback {
    /// Gives the first total of a group.
    Start,
    Step,
    Inverse,
    Result,
}

/// An aggregate's callbacks as the caller makes them. `T` is a JavaScript value. `G` reads what was
/// given as `start` and says whether it is a function; `A` calls a callback with a total and
/// arguments, and says whether it returned `undefined`; `V` reads a value; `B` and `P` are as for a
/// scalar function.
#[verifier::reject_recursive_types(T)]
pub struct JsAggregate<T, G, A, V, B, P> where
    G: Fn() -> JsResult<(T, bool)> + Send + Sync + 'static,
    A: Fn(JsCallback, Option<&T>, &Vec<JsArg>) -> JsResult<(T, bool)> + Send + Sync + 'static,
    V: Fn(&T) -> JsResult<JsValue> + Send + Sync + 'static,
    B: Fn() -> bool + Send + Sync + 'static,
    P: Fn(&String) + Send + Sync + 'static,
 {
    start: G,
    call: A,
    read: V,
    safe_integers: Option<bool>,
    default_safe_integers: B,
    pend: P,
    what: String,
    has_inverse: bool,
    has_result: bool,
    _total: Ghost<Option<T>>,
}

/// An aggregate function.
#[verifier::reject_recursive_types(T)]
pub struct JsAggregateFunction<T, G, A, V, B, P> where
    G: Fn() -> JsResult<(T, bool)> + Send + Sync + 'static,
    A: Fn(JsCallback, Option<&T>, &Vec<JsArg>) -> JsResult<(T, bool)> + Send + Sync + 'static,
    V: Fn(&T) -> JsResult<JsValue> + Send + Sync + 'static,
    B: Fn() -> bool + Send + Sync + 'static,
    P: Fn(&String) + Send + Sync + 'static,
 {
    func: Arc<JsAggregate<T, G, A, V, B, P>>,
}

/// The accumulator of one group or window frame.
#[verifier::reject_recursive_types(T)]
pub struct JsAggregateState<T, G, A, V, B, P> where
    G: Fn() -> JsResult<(T, bool)> + Send + Sync + 'static,
    A: Fn(JsCallback, Option<&T>, &Vec<JsArg>) -> JsResult<(T, bool)> + Send + Sync + 'static,
    V: Fn(&T) -> JsResult<JsValue> + Send + Sync + 'static,
    B: Fn() -> bool + Send + Sync + 'static,
    P: Fn(&String) + Send + Sync + 'static,
 {
    func: Arc<JsAggregate<T, G, A, V, B, P>>,
    total: T,
}

impl<T, G, A, V, B, P> JsAggregate<T, G, A, V, B, P> where
    G: Fn() -> JsResult<(T, bool)> + Send + Sync + 'static,
    A: Fn(JsCallback, Option<&T>, &Vec<JsArg>) -> JsResult<(T, bool)> + Send + Sync + 'static,
    V: Fn(&T) -> JsResult<JsValue> + Send + Sync + 'static,
    B: Fn() -> bool + Send + Sync + 'static,
    P: Fn(&String) + Send + Sync + 'static,
 {
    #[verifier::type_invariant]
    spec fn callable(&self) -> bool {
        &&& call_requires(self.start, ())
        &&& forall|c: JsCallback, total: Option<&T>, args: &Vec<JsArg>|
            call_requires(self.call, (c, total, args))
        &&& forall|t: &T| call_requires(self.read, (t,))
        &&& call_requires(self.default_safe_integers, ())
        &&& forall|message: &String| call_requires(self.pend, (message,))
    }

    pub closed spec fn spec_start(&self) -> G {
        self.start
    }

    pub closed spec fn spec_call(&self) -> A {
        self.call
    }

    pub closed spec fn spec_read(&self) -> V {
        self.read
    }

    pub closed spec fn spec_safe_integers(&self) -> Option<bool> {
        self.safe_integers
    }

    pub closed spec fn spec_default(&self) -> B {
        self.default_safe_integers
    }

    pub closed spec fn spec_pend(&self) -> P {
        self.pend
    }

    pub closed spec fn spec_what(&self) -> Seq<char> {
        self.what@
    }

    pub closed spec fn spec_has_inverse(&self) -> bool {
        self.has_inverse
    }

    pub closed spec fn spec_has_result(&self) -> bool {
        self.has_result
    }
}

/// Which of an aggregate's callbacks is no function, if any: `step` must be one, and `inverse` and
/// `result` where they are given.
pub open spec fn not_a_function(
    step: bool,
    inverse: Option<bool>,
    result: Option<bool>,
) -> Option<Seq<char>> {
    if !step {
        Some("the \"step\" option"@)
    } else if inverse == Some(false) {
        Some("the \"inverse\" option"@)
    } else if result == Some(false) {
        Some("the \"result\" option"@)
    } else {
        None
    }
}

/// Makes an aggregate of its callbacks. `step`, `inverse` and `result` say of each callback whether
/// it is a function, and the latter two are none where it was not given.
pub fn aggregate_function<T, G, A, V, B, P>(
    name: &str,
    step: bool,
    inverse: Option<bool>,
    result: Option<bool>,
    start: G,
    call: A,
    read: V,
    safe_integers: Option<bool>,
    default_safe_integers: B,
    pend: P,
) -> (r: core::result::Result<JsAggregateFunction<T, G, A, V, B, P>, String>) where
    G: Fn() -> JsResult<(T, bool)> + Send + Sync + 'static,
    A: Fn(JsCallback, Option<&T>, &Vec<JsArg>) -> JsResult<(T, bool)> + Send + Sync + 'static,
    V: Fn(&T) -> JsResult<JsValue> + Send + Sync + 'static,
    B: Fn() -> bool + Send + Sync + 'static,
    P: Fn(&String) + Send + Sync + 'static,

    requires
        call_requires(start, ()),
        forall|c: JsCallback, total: Option<&T>, args: &Vec<JsArg>|
            call_requires(call, (c, total, args)),
        forall|t: &T| call_requires(read, (t,)),
        call_requires(default_safe_integers, ()),
        forall|message: &String| call_requires(pend, (message,)),
    ensures
        match r {
            Ok(f) => {
                &&& not_a_function(step, inverse, result) is None
                &&& f.spec_func().spec_start() == start
                &&& f.spec_func().spec_call() == call
                &&& f.spec_func().spec_read() == read
                &&& f.spec_func().spec_safe_integers() == safe_integers
                &&& f.spec_func().spec_default() == default_safe_integers
                &&& f.spec_func().spec_pend() == pend
                &&& f.spec_func().spec_what() == "user-defined aggregate "@ + name@ + "()"@
                &&& f.spec_func().spec_has_inverse() == (inverse is Some)
                &&& f.spec_func().spec_has_result() == (result is Some)
            },
            Err(m) => not_a_function(step, inverse, result) is Some && m@ == "expected "@
                + not_a_function(step, inverse, result)->0 + " to be a function"@,
        },
{
    if let Err(m) = expect_function(step, "the \"step\" option") {
        return Err(m);
    }
    if let Some(is_function) = inverse {
        if let Err(m) = expect_function(is_function, "the \"inverse\" option") {
            return Err(m);
        }
    }
    if let Some(is_function) = result {
        if let Err(m) = expect_function(is_function, "the \"result\" option") {
            return Err(m);
        }
    }
    Ok(
        JsAggregateFunction {
            func: Arc::new(
                JsAggregate {
                    start,
                    call,
                    read,
                    safe_integers,
                    default_safe_integers,
                    pend,
                    what: join3("user-defined aggregate ", name, "()"),
                    has_inverse: inverse.is_some(),
                    has_result: result.is_some(),
                    _total: Ghost(None),
                },
            ),
        },
    )
}

/// Whether an error is the failure of the statement that a fault of `what` stands for.
pub open spec fn is_fault(e: LimboError, fault: JsFault, what: Seq<char>) -> bool {
    e@ == crate::error::ErrorView::SqlError(fault_text(fault, what))
}

/// What the first total of a group comes from: `start` itself, or what it returns where it is a
/// function.
pub open spec fn started<T, G, A, V, B, P>(
    func: JsAggregate<T, G, A, V, B, P>,
    r: Result<T>,
) -> bool where
    G: Fn() -> JsResult<(T, bool)> + Send + Sync + 'static,
    A: Fn(JsCallback, Option<&T>, &Vec<JsArg>) -> JsResult<(T, bool)> + Send + Sync + 'static,
    V: Fn(&T) -> JsResult<JsValue> + Send + Sync + 'static,
    B: Fn() -> bool + Send + Sync + 'static,
    P: Fn(&String) + Send + Sync + 'static,
 {
    exists|start: JsResult<(T, bool)>|
        #[trigger] call_ensures(func.spec_start(), (), start) && match start {
            Err(fault) => r is Err && is_fault(r->Err_0, fault, func.spec_what()),
            Ok((value, false)) => r == Ok::<T, LimboError>(value),
            Ok((_, true)) => exists|none: Vec<JsArg>, made: JsResult<(T, bool)>|
                {
                    &&& none@.len() == 0
                    &&& #[trigger] call_ensures(
                        func.spec_call(),
                        (JsCallback::Start, None, &none),
                        made,
                    )
                    &&& match made {
                        Err(fault) => r is Err && is_fault(r->Err_0, fault, func.spec_what()),
                        Ok((value, _)) => r == Ok::<T, LimboError>(value),
                    }
                },
        }
}

/// What a step, or the undoing of one, comes to: the total that the callback returned, and the old
/// one where it returned `undefined` or came to nothing.
pub open spec fn js_accumulated<T, G, A, V, B, P>(
    func: JsAggregate<T, G, A, V, B, P>,
    callback: JsCallback,
    before: T,
    after: T,
    args: Seq<ValueRef<'_>>,
    r: Result<()>,
) -> bool where
    G: Fn() -> JsResult<(T, bool)> + Send + Sync + 'static,
    A: Fn(JsCallback, Option<&T>, &Vec<JsArg>) -> JsResult<(T, bool)> + Send + Sync + 'static,
    V: Fn(&T) -> JsResult<JsValue> + Send + Sync + 'static,
    B: Fn() -> bool + Send + Sync + 'static,
    P: Fn(&String) + Send + Sync + 'static,
 {
    exists|default: bool, js: Vec<JsArg>, returned: JsResult<(T, bool)>|
        {
            &&& call_ensures(func.spec_default(), (), default)
            &&& #[trigger] are_js_args(
                js@,
                args,
                integers_safe(func.spec_safe_integers(), default),
            )
            &&& #[trigger] call_ensures(func.spec_call(), (callback, Some(&before), &js), returned)
            &&& match returned {
                Err(fault) => r is Err && is_fault(r->Err_0, fault, func.spec_what()) && after
                    == before,
                Ok((_, true)) => r is Ok && after == before,
                Ok((total, false)) => r is Ok && after == total,
            }
        }
}

/// What reading an accumulator comes to: the total, or what `result` makes of it where there is one.
pub open spec fn js_current<T, G, A, V, B, P>(
    func: JsAggregate<T, G, A, V, B, P>,
    total: T,
    r: Result<Value>,
) -> bool where
    G: Fn() -> JsResult<(T, bool)> + Send + Sync + 'static,
    A: Fn(JsCallback, Option<&T>, &Vec<JsArg>) -> JsResult<(T, bool)> + Send + Sync + 'static,
    V: Fn(&T) -> JsResult<JsValue> + Send + Sync + 'static,
    B: Fn() -> bool + Send + Sync + 'static,
    P: Fn(&String) + Send + Sync + 'static,
 {
    if func.spec_has_result() {
        exists|none: Vec<JsArg>, made: JsResult<(T, bool)>|
            {
                &&& none@.len() == 0
                &&& #[trigger] call_ensures(
                    func.spec_call(),
                    (JsCallback::Result, Some(&total), &none),
                    made,
                )
                &&& match made {
                    Err(fault) => r is Err && is_fault(r->Err_0, fault, func.spec_what()),
                    Ok((value, _)) => js_read(func, value, r),
                }
            }
    } else {
        js_read(func, total, r)
    }
}

/// What reading a JavaScript value comes to.
pub open spec fn js_read<T, G, A, V, B, P>(
    func: JsAggregate<T, G, A, V, B, P>,
    value: T,
    r: Result<Value>,
) -> bool where
    G: Fn() -> JsResult<(T, bool)> + Send + Sync + 'static,
    A: Fn(JsCallback, Option<&T>, &Vec<JsArg>) -> JsResult<(T, bool)> + Send + Sync + 'static,
    V: Fn(&T) -> JsResult<JsValue> + Send + Sync + 'static,
    B: Fn() -> bool + Send + Sync + 'static,
    P: Fn(&String) + Send + Sync + 'static,
 {
    exists|read: JsResult<JsValue>|
        {
            &&& #[trigger] call_ensures(func.spec_read(), (&value,), read)
            &&& js_finished(read, func.spec_what(), r)
            &&& js_pended(func.spec_pend(), read, r)
        }
}

impl<T, G, A, V, B, P> JsAggregateFunction<T, G, A, V, B, P> where
    G: Fn() -> JsResult<(T, bool)> + Send + Sync + 'static,
    A: Fn(JsCallback, Option<&T>, &Vec<JsArg>) -> JsResult<(T, bool)> + Send + Sync + 'static,
    V: Fn(&T) -> JsResult<JsValue> + Send + Sync + 'static,
    B: Fn() -> bool + Send + Sync + 'static,
    P: Fn(&String) + Send + Sync + 'static,
 {
    pub closed spec fn spec_func(&self) -> JsAggregate<T, G, A, V, B, P> {
        *self.func
    }

    /// Whether the aggregate can undo a step, and so drive a window frame.
    pub fn can_window(&self) -> (r: bool)
        ensures
            r == self.spec_func().spec_has_inverse(),
    {
        self.func.has_inverse
    }

    /// The accumulator of a new group.
    pub fn new_state(&self) -> (r: Result<JsAggregateState<T, G, A, V, B, P>>)
        ensures
            exists|first: Result<T>|
                #[trigger] started(self.spec_func(), first) && match (first, r) {
                    (Ok(total), Ok(state)) => state.spec_total() == total && state.spec_func()
                        == self.spec_func(),
                    (Err(e), Err(got)) => got == e,
                    _ => false,
                },
    {
        let first = self.first_total();
        assert(started(self.spec_func(), first));
        match first {
            Ok(total) => Ok(JsAggregateState { func: self.func.clone(), total }),
            Err(e) => Err(e),
        }
    }

    fn first_total(&self) -> (r: Result<T>)
        ensures
            started(self.spec_func(), r),
    {
        proof {
            use_type_invariant(&*self.func);
        }
        let start = (self.func.start)();
        assert(call_ensures(self.spec_func().spec_start(), (), start));
        match start {
            Err(fault) => Err(fault.into_core(self.func.what.as_str())),
            Ok((value, is_function)) => {
                if !is_function {
                    return Ok(value);
                }
                let none: Vec<JsArg> = Vec::new();
                let made = (self.func.call)(JsCallback::Start, None, &none);
                assert(call_ensures(
                    self.spec_func().spec_call(),
                    (JsCallback::Start, None, &none),
                    made,
                ));
                match made {
                    Err(fault) => Err(fault.into_core(self.func.what.as_str())),
                    Ok((total, _)) => Ok(total),
                }
            },
        }
    }
}

impl<T, G, A, V, B, P> JsAggregateState<T, G, A, V, B, P> where
    G: Fn() -> JsResult<(T, bool)> + Send + Sync + 'static,
    A: Fn(JsCallback, Option<&T>, &Vec<JsArg>) -> JsResult<(T, bool)> + Send + Sync + 'static,
    V: Fn(&T) -> JsResult<JsValue> + Send + Sync + 'static,
    B: Fn() -> bool + Send + Sync + 'static,
    P: Fn(&String) + Send + Sync + 'static,
 {
    pub closed spec fn spec_func(&self) -> JsAggregate<T, G, A, V, B, P> {
        *self.func
    }

    pub closed spec fn spec_total(&self) -> T {
        self.total
    }

    fn accumulate(&mut self, callback: JsCallback, args: &[ValueRef<'_>]) -> (r: Result<()>)
        ensures
            js_accumulated(
                old(self).spec_func(),
                callback,
                old(self).spec_total(),
                final(self).spec_total(),
                args@,
                r,
            ),
            final(self).spec_func() == old(self).spec_func(),
    {
        proof {
            use_type_invariant(&*self.func);
        }
        let default = (self.func.default_safe_integers)();
        let safe = safe_integers(self.func.safe_integers, default);
        let js = js_args(args, safe);
        let returned = (self.func.call)(callback, Some(&self.total), &js);
        proof {
            assert(are_js_args(
                js@,
                args@,
                integers_safe(self.spec_func().spec_safe_integers(), default),
            ));
            assert(call_ensures(
                self.spec_func().spec_call(),
                (callback, Some(&old(self).spec_total()), &js),
                returned,
            ));
        }
        match returned {
            Err(fault) => Err(fault.into_core(self.func.what.as_str())),
            Ok((total, undefined)) => {
                if !undefined {
                    self.total = total;
                }
                Ok(())
            },
        }
    }

    fn current(&self) -> (r: Result<Value>)
        ensures
            js_current(self.spec_func(), self.spec_total(), r),
    {
        proof {
            use_type_invariant(&*self.func);
        }
        if self.func.has_result {
            let none: Vec<JsArg> = Vec::new();
            let made = (self.func.call)(JsCallback::Result, Some(&self.total), &none);
            assert(call_ensures(
                self.spec_func().spec_call(),
                (JsCallback::Result, Some(&self.spec_total()), &none),
                made,
            ));
            match made {
                Err(fault) => Err(fault.into_core(self.func.what.as_str())),
                Ok((value, _)) => self.read(&value),
            }
        } else {
            self.read(&self.total)
        }
    }

    fn read(&self, value: &T) -> (r: Result<Value>)
        ensures
            js_read(self.spec_func(), *value, r),
    {
        proof {
            use_type_invariant(&*self.func);
        }
        let read = (self.func.read)(value);
        assert(call_ensures(self.spec_func().spec_read(), (value,), read));
        finish(read, self.func.what.as_str(), &self.func.pend)
    }
}

/// The error of an aggregate without an `inverse` that is told to undo a step.
pub open spec fn js_no_inverse(what: Seq<char>) -> crate::error::ErrorView {
    crate::error::ErrorView::ParseError(what + " may not be used as a window function"@)
}

/// What a JavaScript accumulator goes through: one call of the callback for each turn. The context
/// has no part in it.
pub open spec fn js_rules<'a, T, G, A, V, B, P, C, O>(
    func: JsAggregate<T, G, A, V, B, P>,
) -> Rules<'a, T, C, O> where
    G: Fn() -> JsResult<(T, bool)> + Send + Sync + 'static,
    A: Fn(JsCallback, Option<&T>, &Vec<JsArg>) -> JsResult<(T, bool)> + Send + Sync + 'static,
    V: Fn(&T) -> JsResult<JsValue> + Send + Sync + 'static,
    B: Fn() -> bool + Send + Sync + 'static,
    P: Fn(&String) + Send + Sync + 'static,
 {
    Rules {
        step: |
            a: T,
            before: FunctionContext<'a, C, O>,
            b: T,
            after: FunctionContext<'a, C, O>,
            args: &'a [ValueRef<'a>],
            r: Result<()>,
        |
            after == before && js_accumulated(func, JsCallback::Step, a, b, args@, r),
        inverse: |
            a: T,
            before: FunctionContext<'a, C, O>,
            b: T,
            after: FunctionContext<'a, C, O>,
            args: &'a [ValueRef<'a>],
            r: Result<()>,
        |
            after == before && if func.spec_has_inverse() {
                js_accumulated(func, JsCallback::Inverse, a, b, args@, r)
            } else {
                b == a && r is Err && r->Err_0@ == js_no_inverse(func.spec_what())
            },
        value: |
            a: T,
            before: FunctionContext<'a, C, O>,
            b: T,
            after: FunctionContext<'a, C, O>,
            r: Result<Value>,
        |
            after == before && b == a && js_current(func, a, r),
        finalize: |
            a: T,
            before: FunctionContext<'a, C, O>,
            after: FunctionContext<'a, C, O>,
            r: Result<Value>,
        |
            after == before && js_current(func, a, r),
    }
}

impl<T, G, A, V, B, P, C, O> AggregateFunction<C, O> for JsAggregateFunction<
    T,
    G,
    A,
    V,
    B,
    P,
> where
    T: Send + Sync + 'static,
    G: Fn() -> JsResult<(T, bool)> + Send + Sync + 'static,
    A: Fn(JsCallback, Option<&T>, &Vec<JsArg>) -> JsResult<(T, bool)> + Send + Sync + 'static,
    V: Fn(&T) -> JsResult<JsValue> + Send + Sync + 'static,
    B: Fn() -> bool + Send + Sync + 'static,
    P: Fn(&String) + Send + Sync + 'static,
 {
    fn init(&self, ctx: &mut FunctionContext<'_, C, O>) -> (r: Result<
        Box<dyn AggregateState<C, O>>,
    >)
        ensures
            *final(ctx) == *old(ctx),
            exists|first: Result<T>|
                #[trigger] started(self.spec_func(), first) && match (first, r) {
                    (Ok(total), Ok(_)) => forall|turns: Seq<Turn<'_, C, O>>| #[trigger]
                        r->Ok_0.may(turns) ==> crate::turns::traced(
                            js_rules(self.spec_func()),
                            total,
                            turns,
                        ),
                    (Err(e), Err(got)) => got == e,
                    _ => false,
                },
    {
        match self.new_state() {
            Ok(state) => Ok(Box::new(state)),
            Err(e) => Err(e),
        }
    }

    fn supports_window(&self) -> bool
        returns
            self.spec_func().spec_has_inverse(),
    {
        self.can_window()
    }
}

impl<T, G, A, V, B, P, C, O> AggregateState<C, O> for JsAggregateState<T, G, A, V, B, P> where
    T: Send + Sync + 'static,
    G: Fn() -> JsResult<(T, bool)> + Send + Sync + 'static,
    A: Fn(JsCallback, Option<&T>, &Vec<JsArg>) -> JsResult<(T, bool)> + Send + Sync + 'static,
    V: Fn(&T) -> JsResult<JsValue> + Send + Sync + 'static,
    B: Fn() -> bool + Send + Sync + 'static,
    P: Fn(&String) + Send + Sync + 'static,
 {
    open spec fn may(&self, turns: Seq<Turn<'_, C, O>>) -> bool {
        crate::turns::traced(js_rules(self.spec_func()), self.spec_total(), turns)
    }

    fn step(
        &mut self,
        ctx: &mut FunctionContext<'_, C, O>,
        args: &[ValueRef<'_>],
    ) -> (r: Result<()>)
        ensures
            *final(ctx) == *old(ctx),
            final(self).spec_func() == old(self).spec_func(),
            js_accumulated(
                old(self).spec_func(),
                JsCallback::Step,
                old(self).spec_total(),
                final(self).spec_total(),
                args@,
                r,
            ),
    {
        let r = self.accumulate(JsCallback::Step, args);
        proof {
            let turn = Turn { before: *old(ctx), call: Call::Step { args, r }, after: *ctx };
            crate::turns::lemma_turn_first(
                js_rules(self.spec_func()),
                old(self).spec_total(),
                turn,
                self.spec_total(),
            );
        }
        r
    }

    fn finalize(self: Box<Self>, ctx: &mut FunctionContext<'_, C, O>) -> (r: Result<Value>)
        ensures
            *final(ctx) == *old(ctx),
            js_current(self.spec_func(), self.spec_total(), r),
    {
        let this = *self;
        let r = this.current();
        proof {
            let turn = Turn { before: *old(ctx), call: Call::Finalize { r }, after: *ctx };
            crate::turns::lemma_last_turn(js_rules(this.spec_func()), this.spec_total(), turn);
        }
        r
    }

    fn value(&mut self, ctx: &mut FunctionContext<'_, C, O>) -> (r: Result<Value>)
        ensures
            *final(self) == *old(self),
            *final(ctx) == *old(ctx),
            js_current(old(self).spec_func(), old(self).spec_total(), r),
    {
        let r = self.current();
        proof {
            let turn = Turn { before: *old(ctx), call: Call::Value { r }, after: *ctx };
            crate::turns::lemma_turn_first(
                js_rules(self.spec_func()),
                old(self).spec_total(),
                turn,
                self.spec_total(),
            );
        }
        r
    }

    fn inverse(
        &mut self,
        ctx: &mut FunctionContext<'_, C, O>,
        args: &[ValueRef<'_>],
    ) -> (r: Result<()>)
        ensures
            *final(ctx) == *old(ctx),
            final(self).spec_func() == old(self).spec_func(),
            !old(self).spec_func().spec_has_inverse() ==> {
                &&& r is Err
                &&& r->Err_0@ == js_no_inverse(old(self).spec_func().spec_what())
                &&& *final(self) == *old(self)
            },
            old(self).spec_func().spec_has_inverse() ==> js_accumulated(
                old(self).spec_func(),
                JsCallback::Inverse,
                old(self).spec_total(),
                final(self).spec_total(),
                args@,
                r,
            ),
    {
        let r = if !self.func.has_inverse {
            Err(
                LimboError::ParseError(
                    join2(self.func.what.as_str(), " may not be used as a window function"),
                ),
            )
        } else {
            self.accumulate(JsCallback::Inverse, args)
        };
        proof {
            let turn = Turn { before: *old(ctx), call: Call::Inverse { args, r }, after: *ctx };
            crate::turns::lemma_turn_first(
                js_rules(self.spec_func()),
                old(self).spec_total(),
                turn,
                self.spec_total(),
            );
        }
        r
    }
}

/// A step that failed leaves the total as it was, and so does one whose callback returned
/// `undefined`.
pub proof fn law_a_failed_step_keeps_the_total<T, G, A, V, B, P>(
    func: JsAggregate<T, G, A, V, B, P>,
    callback: JsCallback,
    before: T,
    after: T,
    args: Seq<ValueRef<'_>>,
    r: Result<()>,
) where
    G: Fn() -> JsResult<(T, bool)> + Send + Sync + 'static,
    A: Fn(JsCallback, Option<&T>, &Vec<JsArg>) -> JsResult<(T, bool)> + Send + Sync + 'static,
    V: Fn(&T) -> JsResult<JsValue> + Send + Sync + 'static,
    B: Fn() -> bool + Send + Sync + 'static,
    P: Fn(&String) + Send + Sync + 'static,

    requires
        js_accumulated(func, callback, before, after, args, r),
    ensures
        r is Err ==> after == before,
        (forall|js: &Vec<JsArg>, returned: JsResult<(T, bool)>| #[trigger]
            call_ensures(func.spec_call(), (callback, Some(&before), js), returned)
                ==> returned matches Ok((_, true))) ==> r is Ok && after == before,
{
}

/// An integer JavaScript gets as a BigInt, and hands back by its digits, is the same integer again.
pub proof fn law_a_bigint_comes_back(n: i64, digits: String)
    requires
        digits@ == crate::text::decimal(n as int),
    ensures
        bigint_failure(digits@) is None,
        js_view(JsValue::BigInt(digits)) == Some(crate::value::ValueView::Integer(n)),
{
    crate::numeric::lemma_decimal_value(n as int);
}

}
