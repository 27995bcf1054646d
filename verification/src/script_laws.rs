//! What crosses between the engine and a host language, said of the values on both sides.

use vstd::prelude::*;

use crate::context::FunctionContext;
use crate::error::{LimboError, Result};
use crate::java::{
    call_java, java_to_value, must_clear_exception, settle, state_of_call,
    value_of_call, JavaObject, JavaOutcome, UdfError, UdfResult,
};
use crate::javascript::{
    js_args, js_result_to_value, js_to_value, safe_integers, value_ref_to_js, JsArg, JsFault, JsSettled,
    JsValue,
};
use crate::python::call_python;
use crate::rust_api;
use crate::value::{Numeric, Value, ValueRef};

verus! {

/// The SQL value of the JavaScript boolean true is the integer 1, that of false the integer 0, and
/// so a predicate that says no never reads as one that says yes.
pub proof fn law_a_javascript_boolean_is_one_or_zero(
    yes: core::result::Result<Option<Value>, String>,
    no: core::result::Result<Option<Value>, String>,
)
    requires
        call_ensures(js_to_value, (JsValue::Boolean(true),), yes),
        call_ensures(js_to_value, (JsValue::Boolean(false),), no),
    ensures
        yes matches Ok(Some(Value::Numeric(Numeric::Integer(i)))) && i == 1,
        no matches Ok(Some(Value::Numeric(Numeric::Integer(i)))) && i == 0,
        yes->Ok_0->0@ != no->Ok_0->0@,
{
}

/// A JavaScript value becomes the SQL value it is: a number without a fraction the integer and
/// another the real it is, a boolean 1 or 0, text its characters, and a buffer the low eight bits of
/// each of its elements, in their order. `undefined` and anything else have no equivalent, and only
/// a BigInt can fail.
pub proof fn law_a_javascript_value_is_its_sql_value(
    v: JsValue,
    r: core::result::Result<Option<Value>, String>,
)
    requires
        call_ensures(js_to_value, (v,), r),
    ensures
        match v {
            JsValue::Null => r matches Ok(Some(Value::Null)),
            JsValue::Number { whole: Some(n), number } => r matches Ok(
                Some(Value::Numeric(Numeric::Integer(i))),
            ) && i == n,
            JsValue::Number { whole: None, number } => r matches Ok(
                Some(Value::Numeric(Numeric::Float(f))),
            ) && f.bits == number.bits && f.text@ == number.text@,
            JsValue::Text(t) => r matches Ok(Some(Value::Text(u))) && u.value@ == t@ && u.subtype
                == 0,
            JsValue::Boolean(b) => r matches Ok(Some(Value::Numeric(Numeric::Integer(i)))) && (b
                ==> i == 1) && (!b ==> i == 0),
            JsValue::Bytes(elements) => r matches Ok(Some(Value::Blob(bytes))) && bytes@.len()
                == elements@.len() && (forall|k: int|
                0 <= k < elements@.len() ==> (#[trigger] bytes@[k]) == elements@[k] % 256),
            JsValue::BigInt(_) => match r {
                Ok(Some(value)) => value matches Value::Numeric(Numeric::Integer(_)),
                Ok(None) => false,
                Err(_) => true,
            },
            JsValue::Undefined => r matches Ok(None),
            JsValue::Other => r matches Ok(None),
        },
{
}

/// What a callback returned is the value it stands for; `undefined` is NULL as `null` is, and a value
/// without an equivalent fails the statement with a message that names the callback.
pub proof fn law_a_javascript_result_is_settled(
    v: JsValue,
    what: &str,
    r: JsSettled,
    alone: core::result::Result<Option<Value>, String>,
)
    requires
        call_ensures(js_result_to_value, (v, what), r),
        call_ensures(js_to_value, (v,), alone),
    ensures
        v is Undefined ==> (r matches JsSettled::Value(Value::Null)),
        v is Null ==> (r matches JsSettled::Value(Value::Null)),
        alone matches Ok(Some(value)) ==> (r matches JsSettled::Value(settled) && settled@
            == value@),
        v is Other ==> (r matches JsSettled::TypeError(m) && m@ == what@
            + " returned an invalid value"@),
        alone matches Err(reason) ==> (r matches JsSettled::Fail(LimboError::SqlError(m)) && m@
            == what@ + ": "@ + reason@),
{
    if alone is Err {
        assert(what@ + ": "@ + ("failed to parse BigInt: "@ + crate::javascript::bigint_failure(
            v->BigInt_0@,
        )->0) =~= what@ + ": "@ + alone->Err_0@);
    }
}

/// An argument JavaScript gets is the same number, the same characters or the same bytes; an integer
/// comes as a BigInt exactly when safe integers are asked for, and as a Number otherwise.
pub proof fn law_javascript_gets_what_sql_holds(v: ValueRef<'_>, safe: bool, r: JsArg)
    requires
        call_ensures(value_ref_to_js, (&v, safe), r),
    ensures
        match v {
            ValueRef::Null => r is Null,
            ValueRef::Numeric(Numeric::Integer(i)) => if safe {
                r matches JsArg::BigInt(j) && j == *i
            } else {
                r matches JsArg::Number(j) && j == *i
            },
            ValueRef::Numeric(Numeric::Float(f)) => r matches JsArg::Real(g) && g.bits == f.bits
                && g.text@ == f.text@,
            ValueRef::Text(t) => r matches JsArg::Text(u) && u@ == t.value@,
            ValueRef::Blob(b) => r matches JsArg::Bytes(c) && c@ == b@,
        },
{
}

/// JavaScript gets as many arguments as the call has, each in its own place.
pub proof fn law_every_argument_reaches_javascript_in_its_place(
    args: &[ValueRef<'_>],
    safe: bool,
    r: Vec<JsArg>,
    i: int,
)
    requires
        call_ensures(js_args, (args, safe), r),
        0 <= i < args@.len(),
    ensures
        r@.len() == args@.len(),
        match args@[i] {
            ValueRef::Null => r@[i] is Null,
            ValueRef::Numeric(Numeric::Integer(n)) => if safe {
                r@[i] matches JsArg::BigInt(j) && j == *n
            } else {
                r@[i] matches JsArg::Number(j) && j == *n
            },
            ValueRef::Numeric(Numeric::Float(f)) => r@[i] matches JsArg::Real(g) && g.bits == f.bits
                && g.text@ == f.text@,
            ValueRef::Text(t) => r@[i] matches JsArg::Text(u) && u@ == t.value@,
            ValueRef::Blob(b) => r@[i] matches JsArg::Bytes(c) && c@ == b@,
        },
{
}

/// A value handed to JavaScript and returned unchanged, an integer as a BigInt by its digits or as
/// the whole number it is, is the same SQL value again.
pub proof fn law_a_value_returned_unchanged_is_the_same(
    v: ValueRef<'_>,
    out: JsArg,
    back: JsValue,
    r: core::result::Result<Option<Value>, String>,
)
    requires
        call_ensures(value_ref_to_js, (&v, false), out),
        call_ensures(js_to_value, (back,), r),
        match out {
            JsArg::Null => back is Null,
            JsArg::Number(n) => back matches JsValue::Number { whole, number } && whole == Some(n),
            JsArg::BigInt(_) => false,
            JsArg::Real(f) => back matches JsValue::Number { whole, number } && whole is None
                && number.bits == f.bits && number.text@ == f.text@,
            JsArg::Text(t) => back matches JsValue::Text(u) && u@ == t@,
            JsArg::Bytes(b) => back matches JsValue::Bytes(e) && e@.len() == b@.len() && (forall|
                k: int,
            |
                0 <= k < b@.len() ==> (#[trigger] e@[k]) == b@[k]),
        },
    ensures
        r matches Ok(Some(value)) && match (v, value) {
            (ValueRef::Null, Value::Null) => true,
            (
                ValueRef::Numeric(Numeric::Integer(i)),
                Value::Numeric(Numeric::Integer(j)),
            ) => *i == j,
            (ValueRef::Numeric(Numeric::Float(f)), Value::Numeric(Numeric::Float(g))) => f.bits
                == g.bits && f.text@ == g.text@,
            (ValueRef::Text(t), Value::Text(u)) => t.value@ == u.value@,
            (ValueRef::Blob(b), Value::Blob(c)) => b@ == c@,
            _ => false,
        },
{
    if let JsArg::Bytes(b) = out {
        let e = back->Bytes_0;
        let c = r->Ok_0->0->Blob_0;
        assert forall|k: int| 0 <= k < b@.len() implies c@[k] == b@[k] by {
            assert(e@[k] == b@[k]);
        }
        assert(c@ =~= b@);
    }
}

/// What a function asked for decides whether integers come as BigInt, and the default only where it
/// asked for nothing.
pub proof fn law_what_a_function_asks_for_wins(asked: Option<bool>, default: bool, r: bool)
    requires
        call_ensures(safe_integers, (asked, default), r),
    ensures
        asked == Some(true) ==> r,
        asked == Some(false) ==> !r,
        asked is None ==> r == default,
{
}

/// What JavaScript threw is what the user reads, a reason for a failed conversion behind the name of
/// the function, and every other fault a line that tells it from the rest.
pub proof fn law_a_javascript_fault_reads_as_what_was_thrown(
    fault: JsFault,
    what: &str,
    r: LimboError,
)
    requires
        call_ensures(JsFault::into_core, (fault, what), r),
    ensures
        r is SqlError,
        fault matches JsFault::Threw(Some(reason)) ==> r->SqlError_0@ == reason@,
        fault matches JsFault::Convert(reason) ==> r->SqlError_0@ == what@ + ": "@ + reason@,
        fault matches JsFault::Threw(None) ==> r->SqlError_0@ == "a user-defined function threw"@,
        fault is WrongThread ==> r->SqlError_0@
            == "a JavaScript user-defined function can only run on the thread that registered it"@,
        fault is Gone ==> r->SqlError_0@
            == "the JavaScript user-defined function is no longer available"@,
        fault is Scope ==> r->SqlError_0@ == "failed to open a JavaScript handle scope"@,
        fault is Property ==> r->SqlError_0@
            == "failed to read a property of a user-defined function"@,
        fault is Update ==> r->SqlError_0@
            == "failed to update the state of a user-defined aggregate"@,
        fault is Inspect ==> r->SqlError_0@ == "failed to inspect a JavaScript value"@,
        fault is Prepare ==> r->SqlError_0@ == "failed to prepare a call into JavaScript"@,
        fault is Call ==> r->SqlError_0@ == "calling a JavaScript user-defined function failed"@,
        fault is State ==> r->SqlError_0@
            == "failed to create the state of a user-defined aggregate"@,
{
}

/// An object a Java function returned becomes the SQL value it is: a boolean 1 or 0, a character the
/// one-character text of it, or U+FFFD where it is half a pair. An object of another class fails
/// with a message that names the class.
pub proof fn law_a_java_object_is_its_sql_value(obj: JavaObject, r: UdfResult<Value>)
    requires
        call_ensures(java_to_value, (obj,), r),
    ensures
        match obj {
            JavaObject::Null => r matches Ok(Value::Null),
            JavaObject::Integral(n) => r matches Ok(Value::Numeric(Numeric::Integer(i))) && i == n,
            JavaObject::Text(t) => r matches Ok(Value::Text(u)) && u.value@ == t@ && u.subtype == 0,
            JavaObject::Real(f) => r matches Ok(Value::Numeric(Numeric::Float(g))) && g.bits
                == f.bits && g.text@ == f.text@,
            JavaObject::Boolean(b) => r matches Ok(Value::Numeric(Numeric::Integer(i))) && (b ==> i
                == 1) && (!b ==> i == 0),
            JavaObject::Character(unit) => r matches Ok(Value::Text(u)) && u.subtype == 0
                && u.value@.len() == 1 && (if 0xD800 <= unit <= 0xDFFF {
                u.value@[0] as u32 == 0xFFFD
            } else {
                u.value@[0] as u32 == unit
            }),
            JavaObject::Bytes(b) => r matches Ok(Value::Blob(c)) && c@ == b@,
            JavaObject::Other(Some(name)) => r matches Err(UdfError::Message(m)) && m@
                == "unsupported return type from user-defined function: "@ + name@,
            JavaObject::Other(None) => r matches Err(UdfError::Message(m)) && m@
                == "unsupported return type from user-defined function: "@ + "unknown"@,
        },
{
    if let JavaObject::Character(unit) = obj {
        reveal_with_fuel(crate::utf16::decode_lossy, 2);
        assert(seq![unit].skip(1) =~= Seq::<u16>::empty());
    }
}

/// A method that returned gives what it returned. One that threw fails with the message of what it
/// threw, or else with the name of its class, and a call that could not be made says so.
pub proof fn law_a_java_call_gives_what_the_method_did<T>(
    outcome: JavaOutcome<T>,
    r: UdfResult<T>,
    settled: Result<T>,
)
    requires
        call_ensures(call_java::<T>, (outcome,), r),
        call_ensures(settle::<T>, (r,), settled),
    ensures
        match outcome {
            JavaOutcome::Returned(t) => r matches Ok(u) && u == t && (settled matches Ok(w) && w
                == t),
            JavaOutcome::Threw(thrown) => settled matches Err(
                LimboError::UserFunction { code, message },
            ) && code == 1 && message@ == "user-defined function raised exception: "@ + (
            match thrown {
                None => "unknown error"@,
                Some(t) => match (t.message, t.class_name) {
                    (Some(m), Some(name)) => if m@.len() > 0 {
                        m@
                    } else {
                        name@
                    },
                    (Some(m), None) => if m@.len() > 0 {
                        m@
                    } else {
                        "unknown error"@
                    },
                    (None, Some(name)) => name@,
                    (None, None) => "unknown error"@,
                },
            }),
            JavaOutcome::Failed(err) => settled matches Err(
                LimboError::UserFunction { code, message },
            ) && code == 1 && message@ == "JNI error while calling user-defined function: "@ + err@,
        },
{
}

/// A call that gave an object gives its SQL value, one that gave a state that very state, and both
/// fail as the method did.
pub proof fn law_a_java_result_is_settled<T>(
    outcome: JavaOutcome<JavaObject>,
    value: Result<Value>,
    state: JavaOutcome<Option<T>>,
    next: Result<Option<T>>,
)
    requires
        call_ensures(value_of_call, (outcome,), value),
        call_ensures(state_of_call::<T>, (state,), next),
    ensures
        outcome matches JavaOutcome::Returned(JavaObject::Null) ==> (value matches Ok(Value::Null)),
        outcome matches JavaOutcome::Returned(JavaObject::Integral(n)) ==> (value matches Ok(
            Value::Numeric(Numeric::Integer(i)),
        ) && i == n),
        outcome matches JavaOutcome::Returned(JavaObject::Boolean(b)) ==> (value matches Ok(
            Value::Numeric(Numeric::Integer(i)),
        ) && (b ==> i == 1) && (!b ==> i == 0)),
        outcome matches JavaOutcome::Returned(JavaObject::Text(t)) ==> (value matches Ok(
            Value::Text(u),
        ) && u.value@ == t@),
        outcome matches JavaOutcome::Returned(JavaObject::Bytes(b)) ==> (value matches Ok(
            Value::Blob(c),
        ) && c@ == b@),
        outcome matches JavaOutcome::Returned(JavaObject::Real(f)) ==> (value matches Ok(
            Value::Numeric(Numeric::Float(g)),
        ) && g.bits == f.bits && g.text@ == f.text@),
        !(outcome is Returned) ==> value is Err,
        outcome matches JavaOutcome::Returned(JavaObject::Other(_)) ==> value is Err,
        state matches JavaOutcome::Returned(t) ==> next == Ok::<Option<T>, LimboError>(t),
        !(state is Returned) ==> next is Err,
        state matches JavaOutcome::Failed(err) ==> (next matches Err(
            LimboError::UserFunction { code, message },
        ) && message@ == "JNI error while calling user-defined function: "@ + err@),
{
}

/// An exception is cleared after every failed call unless it is known that none is pending.
pub proof fn law_a_pending_exception_is_cleared(failed: bool, pending: Option<bool>, r: bool)
    requires
        call_ensures(must_clear_exception, (failed, pending), r),
    ensures
        !failed ==> !r,
        failed && pending is None ==> r,
        failed && pending == Some(true) ==> r,
        failed && pending == Some(false) ==> !r,
{
}

/// A Python callback that returned gives what it returned, and one that raised fails the statement
/// with the message that goes with it.
pub proof fn law_a_python_callback_gives_what_it_returned<C, O, T>(
    ctx: &FunctionContext<'_, C, O>,
    message: &str,
    outcome: Option<T>,
    r: Result<T>,
)
    requires
        call_ensures(call_python::<C, O, T>, (ctx, message, outcome), r),
    ensures
        outcome matches Some(t) ==> (r matches Ok(u) && u == t),
        outcome is None ==> (r matches Err(LimboError::UserFunction { code, message: m }) && code == 1
            && m@ == message@),
{
}

/// An application's Rust function gets the same number, the same characters in UTF-8 or the same
/// bytes, in the order of the arguments.
pub proof fn law_every_argument_reaches_an_application_in_its_place(
    args: &[ValueRef<'_>],
    r: Vec<rust_api::ValueRef<'_>>,
    i: int,
)
    requires
        call_ensures(rust_api::to_public_args, (args,), r),
        0 <= i < args@.len(),
    ensures
        r@.len() == args@.len(),
        match args@[i] {
            ValueRef::Null => r@[i] is Null,
            ValueRef::Numeric(Numeric::Integer(n)) => r@[i] matches rust_api::ValueRef::Integer(m)
                && m == *n,
            ValueRef::Numeric(Numeric::Float(f)) => r@[i] matches rust_api::ValueRef::Real(g)
                && g.bits == f.bits && g.text@ == f.text@,
            ValueRef::Text(t) => r@[i] matches rust_api::ValueRef::Text(b) && b@
                == vstd::utf8::encode_utf8(t.value@),
            ValueRef::Blob(b) => r@[i] matches rust_api::ValueRef::Blob(c) && c@ == b@,
        },
{
}

/// What an application's function returns is the same number, the same characters or the same bytes
/// in SQL, and its failure reaches the statement with its own message.
pub proof fn law_an_application_returns_what_it_holds<C, O>(
    ctx: &FunctionContext<'_, C, O>,
    public: rust_api::Result<rust_api::Value>,
    r: Result<Value>,
    stepped: rust_api::Result<()>,
    step: Result<()>,
)
    requires
        call_ensures(rust_api::to_core_result::<C, O>, (ctx, public), r),
        call_ensures(rust_api::to_core_step::<C, O>, (ctx, stepped), step),
    ensures
        match public {
            Ok(rust_api::Value::Null) => r matches Ok(Value::Null),
            Ok(rust_api::Value::Integer(n)) => r matches Ok(Value::Numeric(Numeric::Integer(i)))
                && i == n,
            Ok(rust_api::Value::Real(f)) => r matches Ok(Value::Numeric(Numeric::Float(g)))
                && g.bits == f.bits && g.text@ == f.text@,
            Ok(rust_api::Value::Text(t)) => r matches Ok(Value::Text(u)) && u.value@ == t@
                && u.subtype == 0,
            Ok(rust_api::Value::Blob(b)) => r matches Ok(Value::Blob(c)) && c@ == b@,
            Err(rust_api::Error::Misuse(m)) => r matches Err(
                LimboError::UserFunction { code, message },
            ) && code == 1 && message@ == m@,
            Err(rust_api::Error::Error(m)) => r matches Err(
                LimboError::UserFunction { code, message },
            ) && code == 1 && message@ == m@,
        },
        match stepped {
            Ok(_) => step is Ok,
            Err(rust_api::Error::Misuse(m)) => step matches Err(
                LimboError::UserFunction { code, message },
            ) && code == 1 && message@ == m@,
            Err(rust_api::Error::Error(m)) => step matches Err(
                LimboError::UserFunction { code, message },
            ) && code == 1 && message@ == m@,
        },
{
}

}
