//! Functions written in Rust, Python, Java and JavaScript.

use std::sync::atomic::{AtomicUsize, Ordering};
use std::sync::{Arc, Mutex};

use turso_udf::context::FunctionContext;
use turso_udf::error::LimboError;
use turso_udf::flags::FunctionFlags;
use turso_udf::function::{AggregateFunction, AggregateState, ScalarFunction};
use turso_udf::java;
use turso_udf::javascript;
use turso_udf::python;
use turso_udf::registry::Connection;
use turso_udf::rust_api;
use turso_udf::value::{Numeric, Real, Value, ValueRef};

type Ctx<'a> = FunctionContext<'a, (), String>;

fn number(x: f64, text: &str) -> Real {
    Real {
        bits: x.to_bits(),
        text: text.to_string(),
    }
}

fn arg_int(arg: &ValueRef<'_>) -> i64 {
    match arg {
        ValueRef::Numeric(Numeric::Integer(i)) => *i,
        _ => 0,
    }
}

fn integer(value: Value) -> i64 {
    match value {
        Value::Numeric(Numeric::Integer(i)) => i,
        other => panic!("not an integer: {other:?}"),
    }
}

fn text_of(value: Value) -> String {
    match value {
        Value::Text(t) => t.value,
        other => panic!("not text: {other:?}"),
    }
}

fn user_error(err: LimboError) -> String {
    match err {
        LimboError::UserFunction { code, message } => {
            assert_eq!(code, 1);
            message
        }
        other => panic!("not a function's error: {other:?}"),
    }
}

fn sql_error(err: LimboError) -> String {
    match err {
        LimboError::SqlError(m) => m,
        other => panic!("not an SQL error: {other:?}"),
    }
}

fn parse_error(err: LimboError) -> String {
    match err {
        LimboError::ParseError(m) => m,
        other => panic!("not a parse error: {other:?}"),
    }
}

// -------------------------------------------------------------------- Rust

struct Sum;
struct SumState(i64);

impl rust_api::AggregateFunction for Sum {
    fn init(&self) -> rust_api::Result<Box<dyn rust_api::AggregateState>> {
        Ok(Box::new(SumState(0)))
    }

    fn supports_window(&self) -> bool {
        true
    }
}

impl rust_api::AggregateState for SumState {
    fn step(&mut self, args: &[rust_api::ValueRef<'_>]) -> rust_api::Result<()> {
        match args[0].as_integer() {
            Some(i) => {
                self.0 += i;
                Ok(())
            }
            None => Err(rust_api::Error::Error("integers only".to_string())),
        }
    }

    fn finalize(self: Box<Self>) -> rust_api::Result<rust_api::Value> {
        Ok(rust_api::Value::Integer(self.0))
    }
}

#[test]
fn a_rust_closure_borrows_its_arguments() {
    let adapter = rust_api::ScalarAdapter(rust_api::scalar_from_fn(
        |args: &[rust_api::ValueRef<'_>]| match args[0] {
            rust_api::ValueRef::Text(bytes) => Ok(rust_api::Value::Integer(bytes.len() as i64)),
            rust_api::ValueRef::Null => Ok(rust_api::Value::Null),
            rust_api::ValueRef::Integer(i) => Ok(rust_api::Value::Text(format!("<{i}>"))),
            rust_api::ValueRef::Real(f) => Ok(rust_api::Value::Real(number(2.5, &f.text))),
            rust_api::ValueRef::Blob(b) => Ok(rust_api::Value::Blob(b.to_vec())),
        },
    ));
    let mut ctx: Ctx<'_> = FunctionContext::new(&());
    let mut call = |value: Value| adapter.call(&mut ctx, &[value.as_value_ref()]).unwrap();
    assert_eq!(integer(call(Value::build_text("grüß".to_string()))), 6);
    assert_eq!(text_of(call(Value::from_i64(7))), "<7>");
    assert!(matches!(call(Value::Null), Value::Null));
    assert!(matches!(call(Value::from_slice(&[9])), Value::Blob(b) if b == [9]));
    let real = Value::Numeric(Numeric::Float(number(1.5, "1.5")));
    assert!(matches!(
        call(real),
        Value::Numeric(Numeric::Float(f)) if f.text == "1.5" && f.bits == 2.5f64.to_bits()
    ));
}

#[test]
fn a_rust_aggregate_reports_its_errors_as_its_own() {
    let adapter = rust_api::AggregateAdapter(Sum);
    let mut ctx: Ctx<'_> = FunctionContext::new(&());
    assert!(AggregateFunction::<(), String>::supports_window(&adapter));
    let mut state = adapter.init(&mut ctx).unwrap();
    for x in [1, 2] {
        state
            .step(&mut ctx, &[Value::from_i64(x).as_value_ref()])
            .unwrap();
    }
    let failed = state.step(&mut ctx, &[ValueRef::Null]);
    assert_eq!(user_error(failed.unwrap_err()), "integers only");
    for err in [
        state.value(&mut ctx).unwrap_err(),
        state.inverse(&mut ctx, &[]).unwrap_err(),
    ] {
        assert_eq!(
            user_error(err),
            "aggregate may not be used as a window function"
        );
    }
    assert_eq!(integer(state.finalize(&mut ctx).unwrap()), 3);
}

// ------------------------------------------------------------------ Python

#[test]
fn a_python_function_that_raises_fails_with_a_fixed_message() {
    let mut conn: Connection<_, ()> = Connection::new();
    let func = python::PyScalarFunction::new(|args: &[ValueRef<'_>]| {
        if args.is_empty() {
            None
        } else {
            Some(Value::from_i64(arg_int(&args[0]) + 1))
        }
    });
    python::create_scalar_function(&mut conn, "inc", -1, func, true).unwrap();
    let found = conn.function_for_call("INC", 1).unwrap();
    assert_eq!(found.flags().bits(), FunctionFlags::DETERMINISTIC);
    let scalar = found.as_scalar().unwrap();
    let mut ctx: Ctx<'_> = FunctionContext::new(&());
    let value = scalar.call(&mut ctx, &[Value::from_i64(4).as_value_ref()]);
    assert_eq!(integer(value.unwrap()), 5);
    assert_eq!(
        user_error(scalar.call(&mut ctx, &[]).unwrap_err()),
        "user-defined function raised exception"
    );
    assert_eq!(python::scalar_flags(false).bits(), 0);
}

/// A class whose instances are sums; `made` counts them, and each method raises where the number in
/// `raises` says so.
fn sum_class(
    made: Arc<AtomicUsize>,
    raises: Option<python::PyMethod>,
    init_raises: bool,
) -> python::PyClass<
    Mutex<i64>,
    impl Fn() -> Option<Mutex<i64>>,
    impl Fn(&Mutex<i64>, python::PyMethod, &[ValueRef<'_>]) -> bool,
    impl Fn(&Mutex<i64>, python::PyMethod) -> Option<Value>,
> {
    python::PyClass::new(
        move || {
            made.fetch_add(1, Ordering::SeqCst);
            if init_raises {
                None
            } else {
                Some(Mutex::new(0))
            }
        },
        move |total: &Mutex<i64>, method, args: &[ValueRef<'_>]| {
            if raises == Some(method) {
                return false;
            }
            let sign = if method == python::PyMethod::Inverse {
                -1
            } else {
                1
            };
            *total.lock().unwrap() += sign * arg_int(&args[0]);
            true
        },
        move |total: &Mutex<i64>, method| {
            if raises == Some(method) {
                return None;
            }
            Some(Value::from_i64(*total.lock().unwrap()))
        },
    )
}

#[test]
fn a_python_aggregate_makes_its_instance_on_the_first_row() {
    let made = Arc::new(AtomicUsize::new(0));
    let function = python::PyAggregateFunction::new(sum_class(made.clone(), None, false), true);
    assert!(function.is_window());
    let mut ctx: Ctx<'_> = FunctionContext::new(&());
    let mut empty = function.new_state();
    assert!(matches!(empty.value(&mut ctx), Ok(Value::Null)));
    assert!(matches!(
        Box::new(empty).finalize(&mut ctx),
        Ok(Value::Null)
    ));
    assert_eq!(made.load(Ordering::SeqCst), 0);

    let mut state = function.new_state();
    for x in [5, 6] {
        state
            .step(&mut ctx, &[Value::from_i64(x).as_value_ref()])
            .unwrap();
    }
    state
        .inverse(&mut ctx, &[Value::from_i64(5).as_value_ref()])
        .unwrap();
    assert_eq!(integer(state.value(&mut ctx).unwrap()), 6);
    assert_eq!(integer(Box::new(state).finalize(&mut ctx).unwrap()), 6);
    assert_eq!(made.load(Ordering::SeqCst), 1);
}

#[test]
fn every_python_method_has_its_message() {
    let made = Arc::new(AtomicUsize::new(0));
    let mut ctx: Ctx<'_> = FunctionContext::new(&());
    let one = Value::from_i64(1);
    let args = [one.as_value_ref()];

    let function = python::PyAggregateFunction::new(sum_class(made.clone(), None, true), false);
    let mut state = function.new_state();
    assert_eq!(
        user_error(state.step(&mut ctx, &args).unwrap_err()),
        "user-defined aggregate's '__init__' method raised error"
    );

    for (method, expected) in [
        (
            python::PyMethod::Step,
            "user-defined aggregate's 'step' method raised error",
        ),
        (
            python::PyMethod::Inverse,
            "user-defined aggregate's 'inverse' method raised error",
        ),
        (
            python::PyMethod::Value,
            "user-defined aggregate's 'value' method raised error",
        ),
        (
            python::PyMethod::Finalize,
            "user-defined aggregate's 'finalize' method raised error",
        ),
    ] {
        let class = sum_class(made.clone(), Some(method), false);
        let mut state = python::PyAggregateFunction::new(class, true).new_state();
        let stepped = state.step(&mut ctx, &args);
        let err = match method {
            python::PyMethod::Step => stepped.unwrap_err(),
            python::PyMethod::Inverse => state.inverse(&mut ctx, &args).unwrap_err(),
            python::PyMethod::Value => state.value(&mut ctx).unwrap_err(),
            python::PyMethod::Finalize => Box::new(state).finalize(&mut ctx).unwrap_err(),
        };
        assert_eq!(user_error(err), expected);
    }
}

#[test]
fn a_python_aggregate_is_registered_without_flags() {
    let mut conn: Connection<(), _> = Connection::new();
    let made = Arc::new(AtomicUsize::new(0));
    let aggregate = python::PyAggregateFunction::new(sum_class(made, None, false), false);
    python::create_aggregate_function(&mut conn, "mysum", 1, aggregate).unwrap();
    let found = conn.function_for_call("mysum", 1).unwrap();
    assert!(found.is_aggregate());
    assert!(!found.supports_window::<(), String>());
    assert_eq!(found.flags().bits(), 0);
    let made = Arc::new(AtomicUsize::new(0));
    let nameless = python::PyAggregateFunction::new(sum_class(made, None, false), false);
    assert!(python::create_aggregate_function(&mut conn, "", 1, nameless).is_err());
}

// -------------------------------------------------------------------- Java

#[test]
fn java_objects_become_values() {
    let value = |obj| java::java_to_value(obj).unwrap();
    assert!(matches!(value(java::JavaObject::Null), Value::Null));
    assert_eq!(integer(value(java::JavaObject::Integral(-5))), -5);
    assert_eq!(integer(value(java::JavaObject::Boolean(true))), 1);
    assert_eq!(integer(value(java::JavaObject::Boolean(false))), 0);
    assert_eq!(text_of(value(java::JavaObject::Text("x".to_string()))), "x");
    assert_eq!(text_of(value(java::JavaObject::Character(0xe9))), "é");
    assert_eq!(
        text_of(value(java::JavaObject::Character(0xd800))),
        "\u{fffd}"
    );
    assert!(matches!(
        value(java::JavaObject::Real(number(0.5, "0.5"))),
        Value::Numeric(Numeric::Float(f)) if f.text == "0.5"
    ));
    assert!(matches!(value(java::JavaObject::Bytes(vec![1])), Value::Blob(b) if b == [1]));

    for (name, expected) in [
        (
            Some("java.util.ArrayList".to_string()),
            "unsupported return type from user-defined function: java.util.ArrayList",
        ),
        (
            None,
            "unsupported return type from user-defined function: unknown",
        ),
    ] {
        match java::java_to_value(java::JavaObject::Other(name)) {
            Err(java::UdfError::Message(m)) => assert_eq!(m, expected),
            other => panic!("{other:?}"),
        }
    }
}

#[test]
fn java_exceptions_are_reported_by_message_or_class() {
    let thrown = |message: Option<&str>, class_name: Option<&str>| {
        java::take_exception_message(Some(java::Thrown {
            message: message.map(str::to_string),
            class_name: class_name.map(str::to_string),
        }))
    };
    let prefix = "user-defined function raised exception: ";
    assert_eq!(
        thrown(Some("boom"), Some("java.lang.X")),
        format!("{prefix}boom")
    );
    assert_eq!(
        thrown(Some(""), Some("java.lang.X")),
        format!("{prefix}java.lang.X")
    );
    assert_eq!(thrown(None, None), format!("{prefix}unknown error"));
    assert_eq!(
        java::take_exception_message(None),
        format!("{prefix}unknown error")
    );
    assert!(java::must_clear_exception(true, None));
    assert!(java::must_clear_exception(true, Some(true)));
    assert!(!java::must_clear_exception(true, Some(false)));
    assert!(!java::must_clear_exception(false, None));
    assert_eq!(java::local_refs_needed(3), 11);
    assert_eq!(java::function_flags(-1).bits(), 0x0138_0800);
}

#[test]
fn a_java_scalar_settles_every_outcome() {
    let function = java::JavaScalarFunction::new(|args: &[ValueRef<'_>]| match arg_int(&args[0]) {
        0 => java::JavaOutcome::Threw(None),
        1 => java::JavaOutcome::Failed("detached".to_string()),
        i => java::JavaOutcome::Returned(java::JavaObject::Integral(i * 2)),
    });
    let mut ctx: Ctx<'_> = FunctionContext::new(&());
    let mut call = |i: i64| function.call(&mut ctx, &[Value::from_i64(i).as_value_ref()]);
    assert_eq!(integer(call(21).unwrap()), 42);
    assert_eq!(
        user_error(call(0).unwrap_err()),
        "user-defined function raised exception: unknown error"
    );
    assert_eq!(
        user_error(call(1).unwrap_err()),
        "JNI error while calling user-defined function: detached"
    );
}

fn java_sum(
    window: bool,
) -> java::JavaAggregateFunction<
    i64,
    impl Fn() -> java::JavaOutcome<Option<i64>>,
    impl Fn(java::JavaMethod, &Option<i64>, &[ValueRef<'_>]) -> java::JavaOutcome<Option<i64>>,
    impl Fn(java::JavaMethod, &Option<i64>) -> java::JavaOutcome<java::JavaObject>,
> {
    java::JavaAggregateFunction::new(
        java::JavaAggregate::new(
            || java::JavaOutcome::Returned(None),
            |method, state: &Option<i64>, args: &[ValueRef<'_>]| {
                let x = arg_int(&args[0]);
                if x == 99 {
                    return java::JavaOutcome::Threw(Some(java::Thrown {
                        message: Some("no 99".to_string()),
                        class_name: None,
                    }));
                }
                let sign = if method == java::JavaMethod::Inverse {
                    -1
                } else {
                    1
                };
                java::JavaOutcome::Returned(Some(state.unwrap_or(0) + sign * x))
            },
            |_method, state: &Option<i64>| {
                java::JavaOutcome::Returned(match state {
                    Some(i) => java::JavaObject::Integral(*i),
                    None => java::JavaObject::Null,
                })
            },
        ),
        window,
    )
}

#[test]
fn a_java_aggregate_keeps_its_state_when_a_step_throws() {
    let mut ctx: Ctx<'_> = FunctionContext::new(&());
    let function = java_sum(true);
    assert!(function.is_window());
    let empty = function.init(&mut ctx).unwrap();
    assert!(matches!(empty.finalize(&mut ctx), Ok(Value::Null)));

    let mut state = function.new_state().unwrap();
    for x in [1, 2] {
        state
            .step(&mut ctx, &[Value::from_i64(x).as_value_ref()])
            .unwrap();
    }
    let failed = state.step(&mut ctx, &[Value::from_i64(99).as_value_ref()]);
    assert_eq!(
        user_error(failed.unwrap_err()),
        "user-defined function raised exception: no 99"
    );
    state
        .inverse(&mut ctx, &[Value::from_i64(1).as_value_ref()])
        .unwrap();
    assert_eq!(integer(state.value(&mut ctx).unwrap()), 2);
    assert_eq!(integer(Box::new(state).finalize(&mut ctx).unwrap()), 2);

    let mut plain = java_sum(false).new_state().unwrap();
    for err in [
        plain.value(&mut ctx).unwrap_err(),
        plain.inverse(&mut ctx, &[]).unwrap_err(),
    ] {
        assert_eq!(
            parse_error(err),
            "aggregate may not be used as a window function"
        );
    }
}

// -------------------------------------------------------------- JavaScript

#[test]
fn javascript_values_become_sql_values() {
    let value = |v| javascript::js_to_value(v).unwrap().unwrap();
    assert!(matches!(value(javascript::JsValue::Null), Value::Null));
    let whole = javascript::JsValue::Number {
        whole: Some(3),
        number: number(3.0, "3.0"),
    };
    assert_eq!(integer(value(whole)), 3);
    let fraction = javascript::JsValue::Number {
        whole: None,
        number: number(1.5, "1.5"),
    };
    assert!(matches!(
        value(fraction),
        Value::Numeric(Numeric::Float(f)) if f.text == "1.5"
    ));
    assert_eq!(integer(value(javascript::JsValue::Boolean(true))), 1);
    assert_eq!(
        text_of(value(javascript::JsValue::Text("x".to_string()))),
        "x"
    );
    assert!(matches!(
        value(javascript::JsValue::Bytes(vec![1, 255, 256, 258])),
        Value::Blob(b) if b == [1, 255, 0, 2]
    ));
    for v in [javascript::JsValue::Undefined, javascript::JsValue::Other] {
        assert!(javascript::js_to_value(v).unwrap().is_none());
    }
}

#[test]
fn a_bigint_must_fit_64_bits() {
    let parse = |s: &str| javascript::js_to_value(javascript::JsValue::BigInt(s.to_string()));
    for n in [0, -1, 1234, i64::MAX, i64::MIN] {
        assert_eq!(integer(parse(&n.to_string()).unwrap().unwrap()), n);
    }
    for (s, reason) in [
        ("", "cannot parse integer from empty string"),
        ("-", "invalid digit found in string"),
        ("1x", "invalid digit found in string"),
        (
            "9223372036854775808",
            "number too large to fit in target type",
        ),
        (
            "-9223372036854775809",
            "number too small to fit in target type",
        ),
    ] {
        assert_eq!(
            parse(s).unwrap_err(),
            format!("failed to parse BigInt: {reason}")
        );
    }
}

#[test]
fn a_javascript_value_belongs_to_its_thread() {
    let owner = javascript::JsOwner { thread: 7 };
    assert!(owner.value(7, true).is_ok());
    assert!(matches!(
        owner.value(8, true),
        Err(javascript::JsFault::WrongThread)
    ));
    assert!(matches!(
        owner.value(7, false),
        Err(javascript::JsFault::Gone)
    ));
    assert!(owner.deletes(7));
    assert!(!owner.deletes(8));
}

#[test]
fn every_javascript_fault_has_its_text() {
    for (fault, expected) in [
        (
            javascript::JsFault::WrongThread,
            "a JavaScript user-defined function can only run on the thread that registered it",
        ),
        (
            javascript::JsFault::Gone,
            "the JavaScript user-defined function is no longer available",
        ),
        (
            javascript::JsFault::Scope,
            "failed to open a JavaScript handle scope",
        ),
        (
            javascript::JsFault::Property,
            "failed to read a property of a user-defined function",
        ),
        (
            javascript::JsFault::Update,
            "failed to update the state of a user-defined aggregate",
        ),
        (
            javascript::JsFault::Inspect,
            "failed to inspect a JavaScript value",
        ),
        (
            javascript::JsFault::Prepare,
            "failed to prepare a call into JavaScript",
        ),
        (
            javascript::JsFault::Threw(Some("Error: boom".to_string())),
            "Error: boom",
        ),
        (
            javascript::JsFault::Threw(None),
            "a user-defined function threw",
        ),
        (
            javascript::JsFault::Call,
            "calling a JavaScript user-defined function failed",
        ),
        (
            javascript::JsFault::State,
            "failed to create the state of a user-defined aggregate",
        ),
        (
            javascript::JsFault::Convert("why".to_string()),
            "user-defined function f(): why",
        ),
    ] {
        assert_eq!(
            sql_error(fault.into_core("user-defined function f()")),
            expected
        );
    }
}

#[test]
fn integers_reach_javascript_as_asked() {
    let seven = Value::from_i64(7);
    let args = [seven.as_value_ref()];
    assert!(matches!(
        javascript::js_args(&args, true)[..],
        [javascript::JsArg::BigInt(7)]
    ));
    assert!(matches!(
        javascript::js_args(&args, false)[..],
        [javascript::JsArg::Number(7)]
    ));
    assert!(javascript::safe_integers(Some(true), false));
    assert!(!javascript::safe_integers(Some(false), true));
    assert!(javascript::safe_integers(None, true));
    assert!(matches!(
        javascript::value_ref_to_js(&ValueRef::Null, true),
        javascript::JsArg::Null
    ));
}

fn js_integer(i: i64) -> javascript::JsValue {
    javascript::JsValue::Number {
        whole: Some(i),
        number: number(i as f64, &i.to_string()),
    }
}

#[test]
fn a_javascript_function_settles_every_result() {
    let pended = Arc::new(Mutex::new(Vec::new()));
    let log = pended.clone();
    let function = javascript::scalar_function(
        "f",
        true,
        |args: &Vec<javascript::JsArg>| match args[0] {
            javascript::JsArg::Number(0) => Ok(javascript::JsValue::Undefined),
            javascript::JsArg::Number(1) => Ok(javascript::JsValue::Other),
            javascript::JsArg::Number(2) => Err(javascript::JsFault::Threw(None)),
            javascript::JsArg::Number(3) => {
                Ok(javascript::JsValue::BigInt("99999999999999999999".to_string()))
            }
            javascript::JsArg::Number(i) => Ok(js_integer(i * 2)),
            _ => Err(javascript::JsFault::Call),
        },
        None,
        || false,
        move |message: &String| log.lock().unwrap().push(message.clone()),
    )
    .unwrap_or_else(|e| panic!("{e}"));
    let mut ctx: Ctx<'_> = FunctionContext::new(&());
    let mut call = |i: i64| function.call(&mut ctx, &[Value::from_i64(i).as_value_ref()]);
    assert_eq!(integer(call(21).unwrap()), 42);
    assert!(matches!(call(0), Ok(Value::Null)));
    let invalid = "user-defined function f() returned an invalid value";
    assert_eq!(sql_error(call(1).unwrap_err()), invalid);
    assert_eq!(*pended.lock().unwrap(), vec![invalid.to_string()]);
    assert_eq!(
        sql_error(call(2).unwrap_err()),
        "a user-defined function threw"
    );
    assert_eq!(
        sql_error(call(3).unwrap_err()),
        "user-defined function f(): failed to parse BigInt: number too large to fit in target type"
    );
    assert_eq!(pended.lock().unwrap().len(), 1);
}

#[test]
fn javascript_callbacks_must_be_functions() {
    let refused = javascript::scalar_function(
        "f",
        false,
        |_args: &Vec<javascript::JsArg>| Ok(javascript::JsValue::Null),
        None,
        || false,
        |_message: &String| {},
    );
    assert_eq!(
        refused.err().unwrap(),
        "expected the function to be a function"
    );
    for (step, inverse, result, expected) in [
        (
            false,
            None,
            None,
            "expected the \"step\" option to be a function",
        ),
        (
            true,
            Some(false),
            None,
            "expected the \"inverse\" option to be a function",
        ),
        (
            true,
            Some(true),
            Some(false),
            "expected the \"result\" option to be a function",
        ),
    ] {
        assert_eq!(js_sum(step, inverse, result, false).err().unwrap(), expected);
    }
}

type JsTotal = i64;

/// Sums; a step of 50 returns `undefined`, one of 99 throws. `start` is 10, by itself or from a
/// function.
fn js_sum(
    step: bool,
    inverse: Option<bool>,
    result: Option<bool>,
    start_is_function: bool,
) -> Result<
    javascript::JsAggregateFunction<
        JsTotal,
        impl Fn() -> javascript::JsResult<(JsTotal, bool)>,
        impl Fn(
            javascript::JsCallback,
            Option<&JsTotal>,
            &Vec<javascript::JsArg>,
        ) -> javascript::JsResult<(JsTotal, bool)>,
        impl Fn(&JsTotal) -> javascript::JsResult<javascript::JsValue>,
        impl Fn() -> bool,
        impl Fn(&String),
    >,
    String,
> {
    javascript::aggregate_function(
        "mysum",
        step,
        inverse,
        result,
        move || Ok((if start_is_function { 0 } else { 10 }, start_is_function)),
        |callback, total: Option<&JsTotal>, args: &Vec<javascript::JsArg>| {
            let x = match args.first() {
                Some(javascript::JsArg::BigInt(i)) => *i,
                _ => 0,
            };
            match callback {
                javascript::JsCallback::Start => Ok((10, false)),
                javascript::JsCallback::Result => Ok((total.unwrap() * 100, false)),
                _ if x == 50 => Ok((0, true)),
                _ if x == 99 => Err(javascript::JsFault::Threw(Some("no 99".to_string()))),
                javascript::JsCallback::Step => Ok((total.unwrap() + x, false)),
                javascript::JsCallback::Inverse => Ok((total.unwrap() - x, false)),
            }
        },
        |total: &JsTotal| Ok(js_integer(*total)),
        Some(true),
        || false,
        |_message: &String| {},
    )
}

#[test]
fn a_javascript_aggregate_keeps_its_total_on_undefined_and_on_errors() {
    let mut ctx: Ctx<'_> = FunctionContext::new(&());
    let function = js_sum(true, Some(true), None, true).ok().unwrap();
    assert!(function.can_window());
    let mut state = function.new_state().ok().unwrap();
    for x in [1, 50, 2] {
        state
            .step(&mut ctx, &[Value::from_i64(x).as_value_ref()])
            .unwrap();
    }
    let failed = state.step(&mut ctx, &[Value::from_i64(99).as_value_ref()]);
    assert_eq!(sql_error(failed.unwrap_err()), "no 99");
    assert_eq!(integer(state.value(&mut ctx).unwrap()), 13);
    state
        .inverse(&mut ctx, &[Value::from_i64(1).as_value_ref()])
        .unwrap();
    assert_eq!(integer(Box::new(state).finalize(&mut ctx).unwrap()), 12);

    let function = js_sum(true, None, Some(true), false).ok().unwrap();
    assert!(!function.can_window());
    let mut state = function.new_state().ok().unwrap();
    assert_eq!(
        parse_error(state.inverse(&mut ctx, &[]).unwrap_err()),
        "user-defined aggregate mysum() may not be used as a window function"
    );
    assert_eq!(integer(Box::new(state).finalize(&mut ctx).unwrap()), 1000);
    let empty = function.init(&mut ctx).unwrap();
    assert_eq!(integer(empty.finalize(&mut ctx).unwrap()), 1000);
}

// ------------------------------------------------------------------ groups

/// Steps two groups of one aggregate in turn and finishes both.
fn two_groups<F: AggregateFunction<(), String>>(function: &F) -> (i64, i64) {
    let mut ctx: Ctx<'_> = FunctionContext::new(&());
    let mut odd = function.init(&mut ctx).unwrap();
    let mut even = function.init(&mut ctx).unwrap();
    for x in [1, 2, 3, 4] {
        let value = Value::from_i64(x);
        let group = if x % 2 == 1 { &mut odd } else { &mut even };
        group.step(&mut ctx, &[value.as_value_ref()]).unwrap();
    }
    let even = integer(even.finalize(&mut ctx).unwrap());
    (integer(odd.finalize(&mut ctx).unwrap()), even)
}

#[test]
fn two_groups_of_one_aggregate_keep_apart() {
    let made = Arc::new(AtomicUsize::new(0));
    let python = python::PyAggregateFunction::new(sum_class(made.clone(), None, false), false);
    assert_eq!(two_groups(&python), (4, 6));
    assert_eq!(made.load(Ordering::SeqCst), 2);
    assert_eq!(two_groups(&java_sum(false)), (4, 6));
    let js = js_sum(true, None, None, true).ok().unwrap();
    assert_eq!(two_groups(&js), (14, 16));
    assert_eq!(two_groups(&rust_api::AggregateAdapter(Sum)), (4, 6));
}
