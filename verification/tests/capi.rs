//! Functions written in C: the values they see, the results they leave, and the handle they are
//! registered on.

use std::sync::atomic::{AtomicUsize, Ordering};
use std::sync::Arc;

use turso_udf::auxdata::AuxDataStore;
use turso_udf::capi_context::{
    invalid_function, sqlite3_aggregate_context, sqlite3_context, sqlite3_context_db_handle,
    sqlite3_get_auxdata, sqlite3_result_blob, sqlite3_result_blob64, sqlite3_result_double,
    sqlite3_result_error, sqlite3_result_error16, sqlite3_result_error_code,
    sqlite3_result_error_nomem, sqlite3_result_error_toobig, sqlite3_result_int,
    sqlite3_result_int64, sqlite3_result_null, sqlite3_result_pointer, sqlite3_result_subtype,
    sqlite3_result_text, sqlite3_result_text16, sqlite3_result_text16be, sqlite3_result_text16le,
    sqlite3_result_text64, sqlite3_result_value, sqlite3_result_zeroblob,
    sqlite3_result_zeroblob64, sqlite3_set_auxdata, sqlite3_user_data, sqlite3_value_pointer,
    text16_arg_len, AggBuffer, CObject, MAX_LENGTH, SQLITE_BUSY, SQLITE_MISUSE, SQLITE_OK,
};
use turso_udf::capi_function::{run_no_args, run_with_args, CCallbacks, CFunction};
use turso_udf::capi_handle::{
    drop_all_functions, sqlite3_create_function, sqlite3_create_function16,
    sqlite3_create_function_v2, sqlite3_create_window_function, sqlite3_overload_function,
    FunctionHandle,
};
use turso_udf::capi_value::{
    sqlite3_value, sqlite3_value_blob, sqlite3_value_bytes, sqlite3_value_bytes16,
    sqlite3_value_double, sqlite3_value_dup, sqlite3_value_encoding, sqlite3_value_frombind,
    sqlite3_value_int, sqlite3_value_int64, sqlite3_value_nochange, sqlite3_value_numeric_type,
    sqlite3_value_subtype, sqlite3_value_text, sqlite3_value_text16, sqlite3_value_text16be,
    sqlite3_value_text16le, sqlite3_value_type, SQLITE_BLOB, SQLITE_FLOAT, SQLITE_INTEGER,
    SQLITE_NULL, SQLITE_TEXT, SQLITE_UTF16, SQLITE_UTF16BE, SQLITE_UTF16LE, SQLITE_UTF8,
};
use turso_udf::context::{FunctionContext, SQLITE_ERROR, SQLITE_NOMEM, SQLITE_TOOBIG};
use turso_udf::error::{LimboError, Result};
use turso_udf::flags::FunctionFlags;
use turso_udf::function::{AggregateFunction, AggregateState, ScalarFunction};
use turso_udf::registry::{Connection, MAX_FUNCTION_ARG};
use turso_udf::tag::ValueTag;
use turso_udf::value::{Numeric, Real, Value, ValueRef};

/// A destructor that counts how often it ran.
struct Counts(Arc<AtomicUsize>);

impl Drop for Counts {
    fn drop(&mut self) {
        self.0.fetch_add(1, Ordering::SeqCst);
    }
}

type Objects = CObject<Counts>;
type Core<'a> = FunctionContext<'a, usize, Objects>;
type Ctx = sqlite3_context<Counts>;
type Func = Box<dyn Fn(&mut Core<'_>, &mut Ctx, &mut Vec<sqlite3_value>) + Send + Sync>;
type Final = Box<dyn Fn(&mut Core<'_>, &mut Ctx) + Send + Sync>;
type Handle = FunctionHandle<Counts, Func, Final>;
type Function = CFunction<Counts, Func, Final>;

const DB: usize = 0xdb;
const STATIC: usize = 0;
const TRANSIENT: usize = usize::MAX;
const FREE: usize = 0xf4ee;

fn func<F>(f: F) -> Option<Func>
where
    F: Fn(&mut Core<'_>, &mut Ctx, &mut Vec<sqlite3_value>) + Send + Sync + 'static,
{
    Some(Box::new(f))
}

fn done<F>(f: F) -> Option<Final>
where
    F: Fn(&mut Core<'_>, &mut Ctx) + Send + Sync + 'static,
{
    Some(Box::new(f))
}

fn float(x: f64, text: &str) -> Real {
    Real {
        bits: x.to_bits(),
        text: text.to_string(),
    }
}

fn text(s: &str) -> Value {
    Value::build_text(s.to_string())
}

fn utf16(s: &str, big_endian: bool) -> Vec<u8> {
    s.encode_utf16()
        .flat_map(|u| {
            if big_endian {
                u.to_be_bytes()
            } else {
                u.to_le_bytes()
            }
        })
        .collect()
}

fn fresh() -> Ctx {
    sqlite3_context::new(DB, 0xa, None)
}

/// What the engine gets of a call that left this.
fn finish(ctx: Ctx) -> (Result<Value>, Option<ValueTag<Objects>>) {
    let connection = 0usize;
    let mut core: Core<'_> = FunctionContext::new(&connection);
    let result = ctx.finish(&mut core);
    (result, core.take_result_tag())
}

fn value_of(ctx: Ctx) -> Value {
    finish(ctx).0.unwrap()
}

fn text_of(ctx: Ctx) -> String {
    match value_of(ctx) {
        Value::Text(t) => t.value,
        other => panic!("not text: {other:?}"),
    }
}

fn blob_of(ctx: Ctx) -> Vec<u8> {
    match value_of(ctx) {
        Value::Blob(b) => b,
        other => panic!("not a blob: {other:?}"),
    }
}

fn error_of(ctx: Ctx) -> (i32, String) {
    match finish(ctx).0 {
        Err(LimboError::UserFunction { code, message }) => (code, message),
        other => panic!("no error: {other:?}"),
    }
}

// ------------------------------------------------------------------ values

#[test]
fn a_value_knows_its_type() {
    let values = [
        (Value::from_i64(1), SQLITE_INTEGER),
        (Value::Numeric(Numeric::Float(float(1.5, "1.5"))), SQLITE_FLOAT),
        (text("x"), SQLITE_TEXT),
        (Value::from_slice(b"x"), SQLITE_BLOB),
        (Value::Null, SQLITE_NULL),
    ];
    for (value, code) in values {
        let value = sqlite3_value::new(value);
        assert_eq!(sqlite3_value_type(Some(&value)), code);
        assert_eq!(sqlite3_value_encoding(Some(&value)), SQLITE_UTF8);
        assert_eq!(sqlite3_value_nochange(Some(&value)), 0);
        assert_eq!(sqlite3_value_frombind(Some(&value)), 0);
    }
    assert_eq!(sqlite3_value_type(None), SQLITE_NULL);
}

#[test]
fn values_are_rendered_as_text() {
    let rendered = [
        (Value::from_i64(-42), "-42"),
        (Value::Numeric(Numeric::Float(float(1.5, "1.5"))), "1.5"),
        (text("grüß"), "grüß"),
        (Value::from_slice(b"raw"), "raw"),
    ];
    for (value, expected) in rendered {
        let mut value = sqlite3_value::new(value);
        let mut with_nul = expected.as_bytes().to_vec();
        with_nul.push(0);
        assert_eq!(sqlite3_value_text(Some(&mut value)).unwrap(), with_nul);
        assert_eq!(sqlite3_value_blob(Some(&mut value)).unwrap(), with_nul);
        assert_eq!(
            sqlite3_value_bytes(Some(&mut value)),
            expected.len() as i32
        );
        for big_endian in [false, true] {
            let mut units = utf16(expected, big_endian);
            let len = units.len() as i32;
            units.extend([0, 0]);
            assert_eq!(
                sqlite3_value_text16(Some(&mut value), big_endian).unwrap(),
                units
            );
            assert_eq!(sqlite3_value_bytes16(Some(&mut value), big_endian), len);
        }
        assert_eq!(
            sqlite3_value_text16le(Some(&mut value)).unwrap()[..2],
            utf16(expected, false)[..2]
        );
        assert_eq!(
            sqlite3_value_text16be(Some(&mut value)).unwrap()[..2],
            utf16(expected, true)[..2]
        );
    }

    let mut null = sqlite3_value::new(Value::Null);
    assert!(sqlite3_value_text(Some(&mut null)).is_none());
    assert!(sqlite3_value_text16(Some(&mut null), true).is_none());
    assert_eq!(sqlite3_value_bytes(Some(&mut null)), 0);
    let mut empty = sqlite3_value::new(text(""));
    assert_eq!(sqlite3_value_text(Some(&mut empty)).unwrap(), [0]);
    assert!(sqlite3_value_blob(Some(&mut empty)).is_none());
    assert!(sqlite3_value_text(None).is_none());
    assert_eq!(sqlite3_value_bytes16(None, false), 0);
}

#[test]
fn bytes_that_are_not_utf8_are_replaced_in_utf16() {
    let mut value = sqlite3_value::new(Value::Blob(vec![b'a', 0xff]));
    let mut units = utf16("a\u{fffd}", false);
    units.extend([0, 0]);
    assert_eq!(sqlite3_value_text16(Some(&mut value), false).unwrap(), units);
}

#[test]
fn numbers_are_read_as_they_are_or_as_cast() {
    let big = sqlite3_value::new(Value::from_i64(0x1_0000_0005));
    assert_eq!(sqlite3_value_int64(Some(&big), None), 0x1_0000_0005);
    assert_eq!(sqlite3_value_int(Some(&big), None), 5);
    let s = sqlite3_value::new(text("12abc"));
    assert_eq!(sqlite3_value_int64(Some(&s), Some(12)), 12);
    assert_eq!(sqlite3_value_int64(Some(&s), None), 0);
    assert_eq!(sqlite3_value_int64(None, Some(12)), 0);
    assert!(matches!(
        sqlite3_value_double(Some(&big), None),
        Some(Numeric::Integer(0x1_0000_0005))
    ));
    assert!(matches!(
        sqlite3_value_double(Some(&s), Some(Numeric::Float(float(12.0, "12.0")))),
        Some(Numeric::Float(_))
    ));
    assert!(sqlite3_value_double(None, None).is_none());
}

#[test]
fn numeric_type_turns_text_that_is_a_number_into_it() {
    let mut whole = sqlite3_value::from_arg(&ValueRef::Null, 3, 9);
    whole.set(text(" 12 "));
    assert_eq!(
        sqlite3_value_numeric_type(Some(&mut whole), None),
        SQLITE_INTEGER
    );
    assert_eq!(sqlite3_value_int64(Some(&whole), None), 12);
    assert_eq!(sqlite3_value_subtype(Some(&whole)), 9);
    assert_eq!(whole.index(), Some(3));

    let mut fraction = sqlite3_value::new(text("1.5"));
    assert_eq!(
        sqlite3_value_numeric_type(Some(&mut fraction), Some(float(1.5, "1.5"))),
        SQLITE_FLOAT
    );
    let mut word = sqlite3_value::new(text("abc"));
    assert_eq!(
        sqlite3_value_numeric_type(Some(&mut word), None),
        SQLITE_TEXT
    );
    assert_eq!(sqlite3_value_numeric_type(None, None), SQLITE_NULL);
}

#[test]
fn a_copy_is_no_argument_any_more() {
    let value = sqlite3_value::from_arg(&text("x").as_value_ref(), 2, 77);
    let copy = sqlite3_value_dup(Some(&value)).unwrap();
    assert_eq!(copy.index(), None);
    assert_eq!(sqlite3_value_subtype(Some(&copy)), 77);
    assert!(matches!(copy.into_value(), Value::Text(t) if t.value == "x"));
    assert!(sqlite3_value_dup(None).is_none());
}

// ----------------------------------------------------------------- results

#[test]
fn every_setter_leaves_its_value() {
    let mut ctx = fresh();
    assert!(matches!(value_of(fresh()), Value::Null));
    sqlite3_result_int(Some(&mut ctx), -7);
    assert!(matches!(
        value_of(ctx),
        Value::Numeric(Numeric::Integer(-7))
    ));
    let mut ctx = fresh();
    sqlite3_result_int64(Some(&mut ctx), i64::MIN);
    sqlite3_result_null(Some(&mut ctx));
    assert!(matches!(value_of(ctx), Value::Null));
    let mut ctx = fresh();
    sqlite3_result_double(Some(&mut ctx), float(2.5, "2.5"));
    assert!(matches!(value_of(ctx), Value::Numeric(Numeric::Float(f)) if f.text == "2.5"));
}

#[test]
fn text_results_come_in_every_encoding_and_say_whether_to_free() {
    for (destructor, due) in [(STATIC, false), (TRANSIENT, false), (FREE, true)] {
        let mut ctx = fresh();
        assert_eq!(
            sqlite3_result_text(Some(&mut ctx), Some("zwölf".as_bytes()), destructor),
            due
        );
        assert_eq!(text_of(ctx), "zwölf");
    }
    let mut ctx = fresh();
    assert!(!sqlite3_result_text(Some(&mut ctx), None, FREE));
    assert!(matches!(value_of(ctx), Value::Null));
    assert!(!sqlite3_result_text::<Counts>(None, Some(b"x"), FREE));

    let mut ctx = fresh();
    sqlite3_result_text(Some(&mut ctx), Some(&[b'a', 0xff]), STATIC);
    assert_eq!(text_of(ctx), "a\u{fffd}");

    for big_endian in [false, true] {
        let bytes = utf16("𝄞x", big_endian);
        let mut ctx = fresh();
        assert!(sqlite3_result_text16(
            Some(&mut ctx),
            Some(&bytes),
            FREE,
            big_endian
        ));
        assert_eq!(text_of(ctx), "𝄞x");
    }
    let mut ctx = fresh();
    sqlite3_result_text16le(Some(&mut ctx), Some(&[0x00, 0xd8, b'y', 0]), STATIC);
    assert_eq!(text_of(ctx), "\u{fffd}y", "a surrogate that stands alone");
    let mut ctx = fresh();
    sqlite3_result_text16be(Some(&mut ctx), Some(&[0, b'y', 7]), STATIC);
    assert_eq!(text_of(ctx), "y", "half a code unit is dropped");

    for (encoding, host, bytes) in [
        (SQLITE_UTF8, false, b"hi".to_vec()),
        (SQLITE_UTF16LE, true, utf16("hi", false)),
        (SQLITE_UTF16BE, false, utf16("hi", true)),
        (SQLITE_UTF16, true, utf16("hi", true)),
        (SQLITE_UTF16, false, utf16("hi", false)),
    ] {
        let mut ctx = fresh();
        assert!(sqlite3_result_text64(
            Some(&mut ctx),
            Some(&bytes),
            bytes.len() as u64,
            FREE,
            encoding as u8,
            host
        ));
        assert_eq!(text_of(ctx), "hi");
    }
}

#[test]
fn utf16_arguments_are_counted_in_code_units() {
    assert_eq!(text16_arg_len(3), Some(6));
    assert_eq!(text16_arg_len(0), Some(0));
    assert_eq!(text16_arg_len(-1), None);
}

#[test]
fn results_that_are_too_long_fail() {
    let mut ctx = fresh();
    assert!(sqlite3_result_text64(
        Some(&mut ctx),
        Some(&[]),
        MAX_LENGTH + 1,
        FREE,
        SQLITE_UTF8 as u8,
        false
    ));
    assert_eq!(
        error_of(ctx),
        (SQLITE_TOOBIG, "string or blob too big".to_string())
    );
    let mut ctx = fresh();
    assert!(sqlite3_result_blob64(
        Some(&mut ctx),
        Some(&[]),
        MAX_LENGTH + 1,
        FREE
    ));
    assert_eq!(error_of(ctx).0, SQLITE_TOOBIG);
    let mut ctx = fresh();
    assert_eq!(
        sqlite3_result_zeroblob64(Some(&mut ctx), MAX_LENGTH + 1),
        SQLITE_TOOBIG
    );
    assert_eq!(error_of(ctx).0, SQLITE_TOOBIG);
    assert_eq!(sqlite3_result_zeroblob64::<Counts>(None, 1), SQLITE_MISUSE);
}

#[test]
fn blob_results() {
    let mut ctx = fresh();
    assert!(sqlite3_result_blob(Some(&mut ctx), Some(&[1, 2]), 2, FREE));
    assert_eq!(blob_of(ctx), vec![1, 2]);
    let mut ctx = fresh();
    assert!(!sqlite3_result_blob(Some(&mut ctx), Some(&[]), -1, FREE));
    assert!(matches!(value_of(ctx), Value::Null));
    let mut ctx = fresh();
    assert!(!sqlite3_result_blob64(Some(&mut ctx), Some(&[3]), 1, TRANSIENT));
    assert_eq!(blob_of(ctx), vec![3]);
    let mut ctx = fresh();
    sqlite3_result_zeroblob(Some(&mut ctx), 3);
    assert_eq!(blob_of(ctx), vec![0, 0, 0]);
    let mut ctx = fresh();
    sqlite3_result_zeroblob(Some(&mut ctx), -3);
    assert_eq!(blob_of(ctx), Vec::<u8>::new());
    let mut ctx = fresh();
    assert_eq!(sqlite3_result_zeroblob64(Some(&mut ctx), 1), SQLITE_OK);
    assert_eq!(blob_of(ctx), vec![0]);
}

#[test]
fn a_subtype_comes_after_its_value() {
    let mut ctx = fresh();
    sqlite3_result_int(Some(&mut ctx), 1);
    sqlite3_result_subtype(Some(&mut ctx), 0x1_2a);
    let (value, tag) = finish(ctx);
    assert!(value.is_ok());
    assert_eq!(tag.unwrap().subtype(), 0x2a);

    let mut ctx = fresh();
    sqlite3_result_subtype(Some(&mut ctx), 42);
    sqlite3_result_int(Some(&mut ctx), 1);
    assert!(finish(ctx).1.is_none(), "the later value clears it");
}

#[test]
fn errors_win_over_values_and_keep_their_message() {
    let mut ctx = fresh();
    sqlite3_result_error(Some(&mut ctx), Some(b"broken"));
    sqlite3_result_int(Some(&mut ctx), 1);
    sqlite3_result_error_code(Some(&mut ctx), 19, "constraint failed");
    assert_eq!(error_of(ctx), (19, "broken".to_string()));

    let mut ctx = fresh();
    sqlite3_result_text(Some(&mut ctx), Some(b"from the result"), STATIC);
    sqlite3_result_error_code(Some(&mut ctx), 19, "constraint failed");
    assert_eq!(error_of(ctx), (19, "from the result".to_string()));

    let mut ctx = fresh();
    sqlite3_result_error_code(Some(&mut ctx), 19, "constraint failed");
    assert_eq!(error_of(ctx), (19, "constraint failed".to_string()));

    let mut ctx = fresh();
    sqlite3_result_error16(Some(&mut ctx), Some(&utf16("kaputt", true)), true);
    assert_eq!(error_of(ctx), (SQLITE_ERROR, "kaputt".to_string()));
    let mut ctx = fresh();
    sqlite3_result_error(Some(&mut ctx), None);
    assert_eq!(error_of(ctx), (SQLITE_ERROR, String::new()));
    let mut ctx = fresh();
    sqlite3_result_error_nomem(Some(&mut ctx));
    assert_eq!(error_of(ctx), (SQLITE_NOMEM, "out of memory".to_string()));
    let mut ctx = fresh();
    sqlite3_result_error_toobig(Some(&mut ctx));
    assert_eq!(error_of(ctx).0, SQLITE_TOOBIG);
    let mut ctx = fresh();
    invalid_function(&mut ctx, Some(b"match"));
    assert_eq!(
        error_of(ctx),
        (
            SQLITE_ERROR,
            "unable to use function match in the requested context".to_string()
        )
    );
}

#[test]
fn a_call_knows_what_it_was_registered_with() {
    let ctx = fresh();
    assert_eq!(sqlite3_user_data(Some(&ctx)), 0xa);
    assert_eq!(sqlite3_context_db_handle(Some(&ctx)), DB);
    assert_eq!(sqlite3_user_data::<Counts>(None), 0);
    assert_eq!(sqlite3_context_db_handle::<Counts>(None), 0);
}

#[test]
fn a_pointer_is_read_under_its_own_name_and_freed_once() {
    let runs = Arc::new(AtomicUsize::new(0));
    let mut ctx = fresh();
    sqlite3_result_int(Some(&mut ctx), 1);
    sqlite3_result_pointer(
        Some(&mut ctx),
        0xbeef,
        Some(b"mytype"),
        Some(Counts(runs.clone())),
    );
    let (value, tag) = finish(ctx);
    assert!(matches!(value, Ok(Value::Null)));
    let tag = tag.unwrap();
    assert_eq!(tag.subtype(), b'p');

    let connection = 0usize;
    let args = [ValueRef::Null];
    let tags = [Some(&tag)];
    let core: Core<'_> = FunctionContext::new(&connection)
        .with_args(&args)
        .with_arg_tags(&tags);
    let arg = sqlite3_value::from_arg(&args[0], 0, core.arg_subtype(0));
    assert_eq!(
        sqlite3_value_pointer(Some(&arg), &core, Some(b"mytype")),
        0xbeef
    );
    assert_eq!(sqlite3_value_pointer(Some(&arg), &core, Some(b"other")), 0);
    assert_eq!(sqlite3_value_pointer(Some(&arg), &core, None), 0);
    assert_eq!(
        sqlite3_value_pointer(Some(&arg.dup()), &core, Some(b"mytype")),
        0
    );

    // Handing the argument on hands the pointer on.
    let mut ctx = fresh();
    sqlite3_result_value(Some(&mut ctx), &core, Some(&arg));
    let (_, passed) = finish(ctx);
    assert!(passed.unwrap().is_pointer());
    assert_eq!(runs.load(Ordering::SeqCst), 0);
    drop(core);
    drop(tag);
    assert_eq!(runs.load(Ordering::SeqCst), 1);
}

#[test]
fn a_pointer_without_a_type_name_matches_nothing() {
    let mut ctx = fresh();
    sqlite3_result_pointer(Some(&mut ctx), 0xbeef, None, None);
    let tag = finish(ctx).1.unwrap();
    let connection = 0usize;
    let args = [ValueRef::Null];
    let tags = [Some(&tag)];
    let core: Core<'_> = FunctionContext::new(&connection)
        .with_args(&args)
        .with_arg_tags(&tags);
    let arg = sqlite3_value::from_arg(&args[0], 0, 0);
    assert_eq!(sqlite3_value_pointer(Some(&arg), &core, Some(b"")), 0);
    assert_eq!(sqlite3_value_pointer(Some(&arg), &core, None), 0);
}

#[test]
fn a_result_nobody_can_keep_is_freed_at_once() {
    let runs = Arc::new(AtomicUsize::new(0));
    sqlite3_result_pointer::<Counts>(None, 1, Some(b"t"), Some(Counts(runs.clone())));
    assert_eq!(runs.load(Ordering::SeqCst), 1);
    sqlite3_set_auxdata::<Counts>(None, 0, 1, Some(Counts(runs.clone())));
    assert_eq!(runs.load(Ordering::SeqCst), 2);
    let connection = 0usize;
    let mut core: Core<'_> = FunctionContext::new(&connection);
    sqlite3_set_auxdata(Some(&mut core), 0, 1, Some(Counts(runs.clone())));
    assert_eq!(runs.load(Ordering::SeqCst), 3, "not a scalar call");
}

#[test]
fn auxdata_is_kept_per_argument_and_freed_when_replaced() {
    let runs = Arc::new(AtomicUsize::new(0));
    let connection = 0usize;
    let mut store = AuxDataStore::new();
    {
        let mut core: Core<'_> = FunctionContext::new(&connection).with_auxdata(&mut store, 5);
        assert_eq!(sqlite3_get_auxdata(Some(&core), 0), 0);
        sqlite3_set_auxdata(Some(&mut core), 0, 0x11, Some(Counts(runs.clone())));
        assert_eq!(sqlite3_get_auxdata(Some(&core), 0), 0x11);
        assert_eq!(sqlite3_get_auxdata(Some(&core), 1), 0);
        assert_eq!(sqlite3_get_auxdata(Some(&core), -1), 0);
        sqlite3_set_auxdata(Some(&mut core), 0, 0x22, Some(Counts(runs.clone())));
        assert_eq!(sqlite3_get_auxdata(Some(&core), 0), 0x22);
        assert_eq!(runs.load(Ordering::SeqCst), 1);
        sqlite3_set_auxdata(Some(&mut core), -1, 0x33, Some(Counts(runs.clone())));
        assert_eq!(runs.load(Ordering::SeqCst), 2);
    }
    store.clear();
    assert_eq!(runs.load(Ordering::SeqCst), 3);
    assert_eq!(sqlite3_get_auxdata::<Counts>(None, 0), 0);
}

#[test]
fn the_first_request_fixes_the_size_of_the_accumulator() {
    let mut buffer = AggBuffer::new();
    assert!(buffer.get(0).is_none());
    assert!(buffer.get(-4).is_none());
    let words = buffer.get(9).unwrap();
    assert_eq!(*words, vec![0, 0]);
    words[0] = 7;
    assert_eq!(*buffer.get(100).unwrap(), vec![7, 0]);
    assert_eq!(*buffer.get(0).unwrap(), vec![7, 0]);

    let mut scalar = fresh();
    assert!(sqlite3_aggregate_context(Some(&mut scalar), 8).is_none());
    assert!(sqlite3_aggregate_context::<Counts>(None, 8).is_none());
}

// --------------------------------------------------------------- functions

fn add_args() -> Option<Func> {
    func(|_core, ctx, values| {
        let sum = values
            .iter()
            .map(|v| sqlite3_value_int64(Some(v), None))
            .sum();
        sqlite3_result_int64(Some(ctx), sum);
    })
}

fn add_to(sign: i64) -> Option<Func> {
    func(move |_core, ctx, values| {
        let x = sqlite3_value_int64(Some(&values[0]), None);
        if x == 99 {
            sqlite3_result_error(Some(ctx), Some(b"no 99"));
            return;
        }
        let words = sqlite3_aggregate_context(Some(ctx), 8).unwrap();
        words[0] = (words[0] as i64 + sign * x) as u64;
    })
}

fn total() -> Option<Final> {
    done(|_core, ctx| {
        let total = match sqlite3_aggregate_context(Some(ctx), 0) {
            Some(words) => words[0] as i64,
            None => -1,
        };
        sqlite3_result_int64(Some(ctx), total);
    })
}

fn sum_function(window: bool) -> Function {
    let (value, inverse) = if window {
        (total(), add_to(-1))
    } else {
        (None, None)
    };
    CFunction::new(
        CCallbacks::new(None, add_to(1), total(), value, inverse, 0, DB),
        None,
    )
}

fn integer(value: Result<Value>) -> i64 {
    match value {
        Ok(Value::Numeric(Numeric::Integer(i))) => i,
        other => panic!("not an integer: {other:?}"),
    }
}

fn message(result: LimboError) -> String {
    match result {
        LimboError::UserFunction { code, message } => {
            assert_eq!(code, SQLITE_ERROR);
            message
        }
        other => panic!("not a function's error: {other:?}"),
    }
}

#[test]
fn a_c_aggregate_steps_over_its_accumulator() {
    let connection = 0usize;
    let mut core: Core<'_> = FunctionContext::new(&connection);
    let function = sum_function(true);
    assert!(function.supports_window());
    let mut state = function.new_state();
    for x in [1, 2, 3] {
        state
            .step(&mut core, &[Value::from_i64(x).as_value_ref()])
            .unwrap();
    }
    state
        .inverse(&mut core, &[Value::from_i64(1).as_value_ref()])
        .unwrap();
    assert_eq!(integer(state.value(&mut core)), 5);
    let failed = state.step(&mut core, &[Value::from_i64(99).as_value_ref()]);
    assert_eq!(message(failed.unwrap_err()), "no 99");
    assert_eq!(integer(Box::new(state).finalize(&mut core)), 5);

    let empty = function.init(&mut core).unwrap();
    assert_eq!(integer(empty.finalize(&mut core)), -1);
}

#[test]
fn a_value_callback_works_on_the_accumulator_itself() {
    let connection = 0usize;
    let mut core: Core<'_> = FunctionContext::new(&connection);
    let counting = || {
        done(|_core, ctx| {
            let words = sqlite3_aggregate_context(Some(ctx), 8).unwrap();
            words[0] += 1;
            let count = words[0] as i64;
            sqlite3_result_int64(Some(ctx), count);
        })
    };
    let function: Function = CFunction::new(
        CCallbacks::new(None, add_to(1), counting(), counting(), add_to(-1), 0, DB),
        None,
    );
    let mut state = function.new_state();
    assert_eq!(integer(state.value(&mut core)), 1, "the first allocation stays");
    assert_eq!(integer(state.value(&mut core)), 2);
    assert_eq!(integer(Box::new(state).finalize(&mut core)), 3);
}

#[test]
fn a_callback_that_keeps_no_buffer_starts_over() {
    let connection = 0usize;
    let mut core: Core<'_> = FunctionContext::new(&connection);
    let forgetful = || {
        func(|_core, ctx, values| {
            let x = sqlite3_value_int64(Some(&values[0]), None);
            let words = sqlite3_aggregate_context(Some(ctx), 8).unwrap();
            words[0] += x as u64;
            if x == 7 {
                *ctx = sqlite3_context::new(DB, 0, None);
            }
        })
    };
    let function: Function = CFunction::new(
        CCallbacks::new(None, forgetful(), total(), total(), forgetful(), 0, DB),
        None,
    );
    let mut state = function.new_state();
    let seven = Value::from_i64(7);
    let three = Value::from_i64(3);
    state.step(&mut core, &[three.as_value_ref()]).unwrap();
    assert_eq!(integer(state.value(&mut core)), 3);
    state.step(&mut core, &[seven.as_value_ref()]).unwrap();
    assert_eq!(integer(state.value(&mut core)), -1, "no buffer yet");
    state.step(&mut core, &[three.as_value_ref()]).unwrap();
    state.inverse(&mut core, &[seven.as_value_ref()]).unwrap();
    assert_eq!(integer(Box::new(state).finalize(&mut core)), -1);
}

#[test]
fn two_groups_of_a_c_aggregate_keep_apart() {
    let connection = 0usize;
    let mut core: Core<'_> = FunctionContext::new(&connection);
    let function = sum_function(true);
    let mut odd = function.init(&mut core).unwrap();
    let mut even = function.init(&mut core).unwrap();
    for x in [1, 2, 3, 4] {
        let value = Value::from_i64(x);
        let group = if x % 2 == 1 { &mut odd } else { &mut even };
        group.step(&mut core, &[value.as_value_ref()]).unwrap();
    }
    let two = Value::from_i64(2);
    even.inverse(&mut core, &[two.as_value_ref()]).unwrap();
    assert_eq!(integer(even.value(&mut core)), 4);
    assert_eq!(integer(odd.finalize(&mut core)), 4);
    assert_eq!(integer(even.finalize(&mut core)), 4);
}

#[test]
fn a_final_callback_tags_the_result_of_its_group() {
    let connection = 0usize;
    let mut core: Core<'_> = FunctionContext::new(&connection);
    let tagging = done(|_core, ctx| {
        sqlite3_result_int64(Some(ctx), 1);
        sqlite3_result_subtype(Some(ctx), 5);
    });
    let function: Function = CFunction::new(
        CCallbacks::new(None, add_to(1), tagging, None, None, 0, DB),
        None,
    );
    let group = function.init(&mut core).unwrap();
    assert_eq!(integer(group.finalize(&mut core)), 1);
    assert_eq!(core.take_result_tag().unwrap().subtype(), 5);
}

#[test]
fn a_context_is_handed_over_and_handed_back() {
    let connection = 7usize;
    let core: Core<'_> = FunctionContext::new(&connection);
    let one = Value::from_i64(1);
    let step = add_to(1).unwrap();
    let args = [one.as_value_ref()];
    let (core, r, left) = run_with_args(DB, 0, &step, core, &args, Some(AggBuffer::new()));
    assert!(matches!(r, Ok(Value::Null)));
    assert_eq!(*core.connection, 7);
    let read = total().unwrap();
    let (core, r, left) = run_no_args(DB, 0, &read, core, left);
    assert_eq!(integer(r), 1);
    assert_eq!(*core.connection, 7);
    assert_eq!(left.unwrap().get(0).unwrap()[0], 1);
}

#[test]
fn a_registered_function_runs_its_own_callbacks() {
    let mut h = handle();
    let runs = Arc::new(AtomicUsize::new(0));
    let reports = func(|_core, ctx, _values| {
        assert_eq!(sqlite3_user_data(Some(&*ctx)), 0xa9);
        assert_eq!(sqlite3_context_db_handle(Some(&*ctx)), DB);
        sqlite3_result_int64(Some(ctx), 77);
    });
    let code = sqlite3_create_function_v2(
        Some(&mut h),
        DB,
        Some(b"reports"),
        1,
        SQLITE_UTF8,
        0xa9,
        reports,
        None,
        None,
        Some(Counts(runs.clone())),
        false,
    );
    assert_eq!(code, SQLITE_OK);
    assert_eq!(integer(call(&h, "reports", &[1])), 77);
    let code = sqlite3_create_window_function(
        Some(&mut h),
        DB,
        Some(b"frame"),
        1,
        SQLITE_UTF8,
        0,
        add_to(1),
        done(|_core, ctx| sqlite3_result_int64(Some(ctx), -7)),
        total(),
        add_to(-1),
        None,
        false,
    );
    assert_eq!(code, SQLITE_OK);
    let connection = 0usize;
    let mut core: Core<'_> = FunctionContext::new(&connection);
    let found = h.connection().resolve_function("frame", 1).unwrap();
    assert!(found.supports_window());
    let mut state = found.as_aggregate().unwrap().new_state();
    for x in [3, 4] {
        state
            .step(&mut core, &[Value::from_i64(x).as_value_ref()])
            .unwrap();
    }
    state
        .inverse(&mut core, &[Value::from_i64(3).as_value_ref()])
        .unwrap();
    assert_eq!(integer(state.value(&mut core)), 4);
    assert_eq!(integer(Box::new(state).finalize(&mut core)), -7);
    assert_eq!(runs.load(Ordering::SeqCst), 0);
    drop_all_functions(&mut h);
    assert_eq!(runs.load(Ordering::SeqCst), 1);
}

#[test]
fn a_missing_callback_is_an_error() {
    let connection = 0usize;
    let mut core: Core<'_> = FunctionContext::new(&connection);
    let nothing: Function = CFunction::destructor_only(0, None);
    assert!(!nothing.supports_window());
    assert_eq!(
        message(nothing.call(&mut core, &[]).unwrap_err()),
        "user-defined function has no implementation"
    );
    let mut state = nothing.new_state();
    assert_eq!(
        message(state.step(&mut core, &[]).unwrap_err()),
        "aggregate function has no step implementation"
    );
    for err in [
        state.value(&mut core).unwrap_err(),
        state.inverse(&mut core, &[]).unwrap_err(),
    ] {
        assert_eq!(
            message(err),
            "aggregate may not be used as a window function"
        );
    }
    assert_eq!(
        message(Box::new(state).finalize(&mut core).unwrap_err()),
        "aggregate function has no final implementation"
    );
}

#[test]
fn a_c_scalar_sees_its_arguments_and_their_subtypes() {
    let function: Function = CFunction::new(
        CCallbacks::new(
            func(|core, ctx, values| {
                assert_eq!(sqlite3_user_data(Some(&*ctx)), 0x77);
                assert_eq!(values[1].index(), Some(1));
                assert_eq!(core.args.len(), 2);
                let subtype = sqlite3_value_subtype(Some(&values[0]));
                sqlite3_result_int64(Some(ctx), subtype as i64);
            }),
            None,
            None,
            None,
            None,
            0x77,
            DB,
        ),
        None,
    );
    let connection = 0usize;
    let tag = ValueTag::from_subtype(21);
    let one = Value::from_i64(1);
    let args = [one.as_value_ref(), ValueRef::Null];
    let tags = [Some(&tag), None];
    let mut core: Core<'_> = FunctionContext::new(&connection)
        .with_args(&args)
        .with_arg_tags(&tags);
    assert_eq!(integer(function.call(&mut core, &args)), 21);
}

// ------------------------------------------------------------------ handle

fn handle() -> Handle {
    FunctionHandle::new(Connection::new())
}

fn register(h: &mut Handle, name: &str, n_args: i32, destroy: Option<Counts>, running: bool) -> i32 {
    sqlite3_create_function_v2(
        Some(h),
        DB,
        Some(name.as_bytes()),
        n_args,
        SQLITE_UTF8 | FunctionFlags::DETERMINISTIC as i32,
        0,
        add_args(),
        None,
        None,
        destroy,
        running,
    )
}

fn delete(h: &mut Handle, name: &str, n_args: i32, destroy: Option<Counts>, running: bool) -> i32 {
    sqlite3_create_function_v2(
        Some(h),
        DB,
        Some(name.as_bytes()),
        n_args,
        SQLITE_UTF8,
        0,
        None,
        None,
        None,
        destroy,
        running,
    )
}

fn call(h: &Handle, name: &str, args: &[i64]) -> Result<Value> {
    let func = h.connection().function_for_call(name, args.len())?;
    let values: Vec<Value> = args.iter().map(|i| Value::from_i64(*i)).collect();
    let refs: Vec<ValueRef<'_>> = values.iter().map(|v| v.as_value_ref()).collect();
    let connection = DB;
    let mut core: Core<'_> = FunctionContext::new(&connection).with_args(&refs);
    func.as_scalar().unwrap().call(&mut core, &refs)
}

#[test]
fn a_registered_function_can_be_called_until_it_is_deleted() {
    let runs = Arc::new(AtomicUsize::new(0));
    let mut h = handle();
    assert_eq!(
        register(&mut h, "Add", 2, Some(Counts(runs.clone())), false),
        SQLITE_OK
    );
    assert!(h.knows_function("ADD", 2));
    assert!(!h.knows_function("add", 1));
    assert_eq!(integer(call(&h, "add", &[2, 3])), 5);
    assert!(h
        .connection()
        .resolve_function("add", 2)
        .unwrap()
        .is_deterministic());

    assert_eq!(delete(&mut h, "aDD", 2, None, false), SQLITE_OK);
    assert_eq!(runs.load(Ordering::SeqCst), 1);
    assert!(!h.knows_function("add", 2));
    assert_eq!(
        call(&h, "add", &[2, 3]).unwrap_err().to_string(),
        "Parse error: no such function: add"
    );
    assert_eq!(
        delete(&mut h, "add", 2, Some(Counts(runs.clone())), false),
        SQLITE_OK,
        "there is nothing to delete"
    );
    assert_eq!(runs.load(Ordering::SeqCst), 2);
}

#[test]
fn replacing_a_function_runs_the_destructor_of_the_first() {
    let runs = Arc::new(AtomicUsize::new(0));
    let mut h = handle();
    register(&mut h, "f", 1, Some(Counts(runs.clone())), false);
    register(&mut h, "f", 1, None, false);
    assert_eq!(runs.load(Ordering::SeqCst), 1);
}

#[test]
fn the_destructor_of_a_deletion_waits() {
    let runs = Arc::new(AtomicUsize::new(0));
    let mut h = handle();
    register(&mut h, "f", 1, None, false);
    assert_eq!(
        delete(&mut h, "f", 1, Some(Counts(runs.clone())), false),
        SQLITE_OK
    );
    assert_eq!(runs.load(Ordering::SeqCst), 0);
    register(&mut h, "f", 1, None, false);
    assert_eq!(runs.load(Ordering::SeqCst), 1, "registered again");

    delete(&mut h, "f", 1, Some(Counts(runs.clone())), false);
    drop_all_functions(&mut h);
    assert_eq!(runs.load(Ordering::SeqCst), 2, "the handle closed");
}

#[test]
fn a_definition_may_not_move_under_a_running_statement() {
    let runs = Arc::new(AtomicUsize::new(0));
    let mut h = handle();
    register(&mut h, "f", 1, None, false);
    assert_eq!(
        register(&mut h, "f", 1, Some(Counts(runs.clone())), true),
        SQLITE_BUSY
    );
    assert_eq!(
        h.last_error(),
        Some((
            SQLITE_BUSY,
            "unable to delete/modify user-function due to active statements".to_string()
        ))
    );
    assert_eq!(runs.load(Ordering::SeqCst), 1, "a refused call frees its own");
    assert_eq!(delete(&mut h, "f", 1, None, true), SQLITE_BUSY);
    assert_eq!(register(&mut h, "f", 2, None, true), SQLITE_OK, "it is new");
    assert_eq!(integer(call(&h, "f", &[4])), 4);
}

#[test]
fn what_is_no_registration_is_misuse() {
    let mut h = handle();
    assert_eq!(register(&mut h, "", 1, None, false), SQLITE_MISUSE);
    assert_eq!(
        register(&mut h, &"x".repeat(256), 1, None, false),
        SQLITE_MISUSE
    );
    assert_eq!(register(&mut h, "f", 128, None, false), SQLITE_MISUSE);
    assert_eq!(register(&mut h, "f", -2, None, false), SQLITE_MISUSE);

    let mut create = |name: Option<&[u8]>, x_func, x_step, x_final| {
        sqlite3_create_function(
            Some(&mut h),
            DB,
            name,
            1,
            SQLITE_UTF8,
            0,
            x_func,
            x_step,
            x_final,
            false,
        )
    };
    assert_eq!(create(None, add_args(), None, None), SQLITE_MISUSE);
    assert_eq!(
        create(Some(&[0xff]), add_args(), None, None),
        SQLITE_MISUSE
    );
    assert_eq!(
        create(Some(b"f"), add_args(), add_to(1), total()),
        SQLITE_MISUSE
    );
    assert_eq!(create(Some(b"f"), None, add_to(1), None), SQLITE_MISUSE);
    assert_eq!(create(Some(b"f"), None, add_to(1), total()), SQLITE_OK);
    assert_eq!(
        sqlite3_create_function::<Counts, Func, Final>(
            None,
            DB,
            Some(b"f"),
            1,
            SQLITE_UTF8,
            0,
            add_args(),
            None,
            None,
            false
        ),
        SQLITE_MISUSE
    );
    assert_eq!(
        sqlite3_create_window_function(
            Some(&mut h),
            DB,
            Some(b"w"),
            1,
            SQLITE_UTF8,
            0,
            add_to(1),
            total(),
            total(),
            None,
            None,
            false
        ),
        SQLITE_MISUSE,
        "a running value without an inverse"
    );
    assert_eq!(
        sqlite3_create_window_function(
            Some(&mut h),
            DB,
            Some(b"w"),
            1,
            SQLITE_UTF8,
            0,
            add_to(1),
            total(),
            total(),
            add_to(-1),
            None,
            false
        ),
        SQLITE_OK
    );
    assert!(h
        .connection()
        .resolve_function("w", 1)
        .unwrap()
        .supports_window());
}

#[test]
fn names_come_in_utf16_too() {
    let mut h = handle();
    let name: Vec<u16> = "größe".encode_utf16().collect();
    assert_eq!(
        sqlite3_create_function16(
            Some(&mut h),
            DB,
            Some(&name),
            1,
            SQLITE_UTF16,
            0,
            add_args(),
            None,
            None,
            false
        ),
        SQLITE_OK
    );
    assert!(h.knows_function("GRÖßE", 1));
    assert_eq!(
        sqlite3_create_function16(
            Some(&mut h),
            DB,
            Some(&[0xd800, 0x41]),
            1,
            SQLITE_UTF16,
            0,
            add_args(),
            None,
            None,
            false
        ),
        SQLITE_MISUSE
    );
}

fn overload(h: &mut Handle, name: &[u8], n_args: i32, builtin: bool) -> i32 {
    sqlite3_overload_function(Some(h), DB, Some(name), n_args, builtin)
}

#[test]
fn overloading_registers_a_placeholder_only_where_there_is_nothing() {
    let mut h = handle();
    assert_eq!(overload(&mut h, b"Match", 2, false), SQLITE_OK);
    assert!(h.knows_function("match", 2));
    assert_eq!(
        message(call(&h, "match", &[1, 2]).unwrap_err()),
        "unable to use function Match in the requested context"
    );
    register(&mut h, "f", 1, None, false);
    assert_eq!(overload(&mut h, b"F", 1, false), SQLITE_OK);
    assert!(call(&h, "f", &[1]).is_ok(), "it is there already");
    assert_eq!(overload(&mut h, b"abs", 1, true), SQLITE_OK);
    assert!(!h.knows_function("abs", 1), "it would hide the built-in");
    assert_eq!(overload(&mut h, b"abs", -1, true), SQLITE_OK);
    assert!(h.knows_function("abs", -1));
    assert_eq!(overload(&mut h, b"g", -3, false), SQLITE_MISUSE);
    assert_eq!(overload(&mut h, b"g", -2, false), SQLITE_MISUSE);
    assert_eq!(overload(&mut h, b"g", 128, false), SQLITE_MISUSE);
    assert_eq!(overload(&mut h, b"", 1, false), SQLITE_MISUSE);
    assert_eq!(overload(&mut h, b"a\0b", 1, false), SQLITE_MISUSE);
    assert_eq!(overload(&mut h, &[0xff], 1, false), SQLITE_MISUSE);
    let none: Option<&mut Handle> = None;
    assert_eq!(
        sqlite3_overload_function(none, DB, Some(b"g"), 1, false),
        SQLITE_MISUSE
    );
}

#[test]
fn closing_a_handle_drops_what_it_registered_and_nothing_else() {
    let runs = Arc::new(AtomicUsize::new(0));
    let mut conn: Connection<Function, Function> = Connection::new();
    conn.create_scalar_function(
        "kept",
        0,
        FunctionFlags::empty(),
        CFunction::destructor_only(0, None),
    )
    .unwrap();
    let mut h: Handle = FunctionHandle::new(conn);
    register(&mut h, "f", 1, Some(Counts(runs.clone())), false);
    register(&mut h, "f", 2, Some(Counts(runs.clone())), false);
    drop_all_functions(&mut h);
    assert_eq!(runs.load(Ordering::SeqCst), 2);
    assert!(h.connection().resolve_function("f", 1).is_none());
    assert!(h.connection().resolve_function("kept", 0).is_some());
}

#[test]
fn the_generation_moves_on_with_the_functions_and_only_then() {
    let mut h = handle();
    let generation = |h: &Handle| h.connection().prepare_context_generation();
    assert_eq!(generation(&h), 0);
    assert_eq!(register(&mut h, "f", 1, None, false), SQLITE_OK);
    assert_eq!(generation(&h), 1);
    assert_eq!(register(&mut h, "f", 1, None, false), SQLITE_OK);
    assert_eq!(generation(&h), 2, "replaced");
    assert_eq!(register(&mut h, "f", 1, None, true), SQLITE_BUSY);
    assert_eq!(register(&mut h, "", 1, None, false), SQLITE_MISUSE);
    assert_eq!(register(&mut h, "f", MAX_FUNCTION_ARG + 1, None, false), SQLITE_MISUSE);
    assert_eq!(delete(&mut h, "g", 1, None, false), SQLITE_OK);
    assert_eq!(overload(&mut h, b"f", 1, false), SQLITE_OK);
    assert_eq!(generation(&h), 2, "nothing changed");

    let runs = Arc::new(AtomicUsize::new(0));
    assert_eq!(delete(&mut h, "f", 1, Some(Counts(runs.clone())), false), SQLITE_OK);
    assert_eq!(generation(&h), 3, "deleted");
    assert_eq!(delete(&mut h, "f", 1, None, false), SQLITE_OK);
    assert_eq!(runs.load(Ordering::SeqCst), 1);
    assert_eq!(generation(&h), 3, "only what the deletion left behind went");

    assert_eq!(overload(&mut h, b"g", 1, false), SQLITE_OK);
    assert_eq!(generation(&h), 4, "a placeholder");
    assert_eq!(register(&mut h, "f", 1, None, false), SQLITE_OK);
    assert_eq!(register(&mut h, "f", 2, None, false), SQLITE_OK);
    drop_all_functions(&mut h);
    assert_eq!(generation(&h), 9, "once for each of the three");
}
