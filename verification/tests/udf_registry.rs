//! Functions registered on a database, and how calls find the function they name.

use std::sync::Arc;

use turso_udf::closures::scalar_from_fn;
use turso_udf::context::FunctionContext;
use turso_udf::error::Result;
use turso_udf::flags::FunctionFlags;
use turso_udf::function::{AggregateFunction, AggregateState, ExternalFunc, ScalarFunction};
use turso_udf::registry::{Connection, Database, OpenConnection, OpenDatabase};
use turso_udf::value::{Numeric, Value, ValueRef};

type Ctx<'a> = FunctionContext<'a, (), String>;
type Conn = OpenConnection<(), String>;

fn deterministic() -> FunctionFlags {
    FunctionFlags::from_bits_truncate(FunctionFlags::DETERMINISTIC)
}

fn arg_int(arg: &ValueRef<'_>) -> i64 {
    match arg {
        ValueRef::Numeric(Numeric::Integer(i)) => *i,
        ValueRef::Numeric(Numeric::Float(f)) => f64::from_bits(f.bits) as i64,
        _ => 0,
    }
}

/// Always answers `answer`, so a test can tell which registration ran.
fn constant_function(answer: i64) -> Box<dyn ScalarFunction<(), String>> {
    Box::new(scalar_from_fn(
        move |_ctx: &mut Ctx<'_>, _args: &[ValueRef<'_>]| -> Result<Value> {
            Ok(Value::from_i64(answer))
        },
    ))
}

/// Calls the scalar function `name` with integer arguments.
fn int_of(conn: &Conn, name: &str, args: &[i64]) -> Result<i64> {
    let func = conn.function_for_call(name, args.len())?;
    let values: Vec<Value> = args.iter().map(|i| Value::from_i64(*i)).collect();
    let refs: Vec<ValueRef<'_>> = values.iter().map(|v| v.as_value_ref()).collect();
    let mut ctx = FunctionContext::new(&()).with_args(&refs);
    let scalar = func.as_scalar().expect("a scalar function");
    match scalar.call(&mut ctx, &refs)? {
        Value::Numeric(Numeric::Integer(i)) => Ok(i),
        other => panic!("{name} returned {other:?}"),
    }
}

fn error_of(conn: &Conn, name: &str, arg_count: usize) -> String {
    match conn.function_for_call(name, arg_count) {
        Ok(_) => panic!("{name} should not be found"),
        Err(e) => e.to_string(),
    }
}

#[test]
fn a_database_level_function_is_inherited_by_every_new_connection() {
    let mut db: OpenDatabase<(), String> = Database::new();
    db.create_scalar_function("answer", 0, deterministic(), constant_function(42))
        .unwrap();

    let first = db.connect();
    let second = db.connect();
    assert_eq!(int_of(&first, "answer", &[]).unwrap(), 42);
    assert_eq!(int_of(&second, "answer", &[]).unwrap(), 42);
}

#[test]
fn a_database_level_function_does_not_reach_connections_that_are_already_open() {
    let mut db: OpenDatabase<(), String> = Database::new();
    let early = db.connect();

    db.create_scalar_function("answer", 0, deterministic(), constant_function(42))
        .unwrap();

    assert_eq!(
        error_of(&early, "answer", 0),
        "Parse error: no such function: answer"
    );

    let late = db.connect();
    assert_eq!(int_of(&late, "answer", &[]).unwrap(), 42);
}

#[test]
fn a_connection_registration_shadows_the_database_one() {
    let mut db: OpenDatabase<(), String> = Database::new();
    db.create_scalar_function("answer", 0, deterministic(), constant_function(42))
        .unwrap();

    let mut own = db.connect();
    own.create_scalar_function("answer", 0, deterministic(), constant_function(7))
        .unwrap();
    let inherited = db.connect();

    assert_eq!(int_of(&own, "answer", &[]).unwrap(), 7);
    assert_eq!(
        int_of(&inherited, "answer", &[]).unwrap(),
        42,
        "the connection-level registration is private to the connection that made it"
    );
}

#[test]
fn removing_a_database_level_function_only_affects_future_connections() {
    let mut db: OpenDatabase<(), String> = Database::new();
    db.create_scalar_function("answer", 0, deterministic(), constant_function(42))
        .unwrap();
    let before = db.connect();
    assert_eq!(int_of(&before, "answer", &[]).unwrap(), 42);

    db.remove_function("answer", 0).unwrap();

    assert_eq!(
        int_of(&before, "answer", &[]).unwrap(),
        42,
        "a connection keeps its own copy of the function table"
    );
    let after = db.connect();
    assert_eq!(
        error_of(&after, "answer", 0),
        "Parse error: no such function: answer"
    );

    db.remove_function("answer", 3).unwrap();
    db.remove_function("nothing_here", 1).unwrap();
}

struct SumAggregate;
struct SumAggregateState(i64);

impl AggregateFunction<(), String> for SumAggregate {
    fn init(&self, _ctx: &mut Ctx<'_>) -> Result<Box<dyn AggregateState<(), String>>> {
        Ok(Box::new(SumAggregateState(0)))
    }
}

impl AggregateState<(), String> for SumAggregateState {
    fn step(&mut self, _ctx: &mut Ctx<'_>, args: &[ValueRef<'_>]) -> Result<()> {
        self.0 += arg_int(&args[0]);
        Ok(())
    }

    fn finalize(self: Box<Self>, _ctx: &mut Ctx<'_>) -> Result<Value> {
        Ok(Value::from_i64(self.0))
    }
}

#[test]
fn a_database_level_aggregate_is_inherited_too() {
    let mut db: OpenDatabase<(), String> = Database::new();
    db.create_aggregate_function("mysum", 1, FunctionFlags::empty(), Box::new(SumAggregate))
        .unwrap();

    let conn = db.connect();
    let func = conn.function_for_call("mysum", 1).unwrap();
    assert!(func.is_aggregate());
    let mut ctx = FunctionContext::new(&());
    let mut state = func.as_aggregate().unwrap().init(&mut ctx).unwrap();
    for x in [1, 2, 3] {
        let value = Value::from_i64(x);
        state.step(&mut ctx, &[value.as_value_ref()]).unwrap();
    }
    let total = state.finalize(&mut ctx).unwrap();
    assert!(matches!(total, Value::Numeric(Numeric::Integer(6))));
}

#[test]
fn database_level_registration_validates_its_arguments() {
    let mut db: OpenDatabase<(), String> = Database::new();
    let err = db
        .create_scalar_function("bad", -2, FunctionFlags::empty(), constant_function(1))
        .expect_err("-2 is not a legal argument count");
    assert!(err.to_string().contains("argument count must be between"));

    let long_name = "x".repeat(256);
    let err = db
        .create_scalar_function(&long_name, 0, FunctionFlags::empty(), constant_function(1))
        .expect_err("names longer than 255 bytes are rejected");
    assert!(err.to_string().contains("longer than"));
}

#[test]
fn register_function_on_the_database_takes_a_prebuilt_function() {
    let mut db: OpenDatabase<(), String> = Database::new();
    let func = Arc::new(ExternalFunc::new_scalar(
        "answer".to_string(),
        0,
        deterministic(),
        Arc::new(constant_function(42)),
    ));
    db.register_function(func).unwrap();

    let conn = db.connect();
    assert_eq!(int_of(&conn, "answer", &[]).unwrap(), 42);
}

#[test]
fn a_known_name_called_with_the_wrong_arity_says_so() {
    let mut conn: Conn = Connection::new();
    conn.create_scalar_function("dbl", 1, deterministic(), constant_function(1))
        .unwrap();

    assert_eq!(
        error_of(&conn, "dbl", 2),
        "Parse error: wrong number of arguments to function dbl()"
    );
    assert_eq!(
        error_of(&conn, "dbl", 0),
        "Parse error: wrong number of arguments to function dbl()"
    );
    assert_eq!(
        error_of(&conn, "tripl", 1),
        "Parse error: no such function: tripl"
    );
}

#[test]
fn names_are_found_whatever_their_case() {
    let mut conn: Conn = Connection::new();
    conn.create_scalar_function("MyÄnswer", 0, deterministic(), constant_function(3))
        .unwrap();
    assert_eq!(int_of(&conn, "myänswer", &[]).unwrap(), 3);
    assert_eq!(int_of(&conn, "MYÄNSWER", &[]).unwrap(), 3);
    let func = conn.resolve_function("MyÄnswer", 0).unwrap();
    assert_eq!(func.name(), "myänswer");
    assert_eq!(func.argc(), 0);
    assert!(func.is_deterministic());
    assert!(!func.is_aggregate());
    assert!(!func.supports_window());
}

#[test]
fn a_prebuilt_function_is_filed_under_its_name_as_given() {
    let mut conn: Conn = Connection::new();
    let func = Arc::new(ExternalFunc::new_scalar(
        "Loud".to_string(),
        0,
        deterministic(),
        Arc::new(constant_function(1)),
    ));
    conn.register_function(func).unwrap();
    assert!(conn.resolve_function("loud", 0).is_none());

    let nameless = Arc::new(ExternalFunc::new_scalar(
        String::new(),
        0,
        deterministic(),
        Arc::new(constant_function(1)),
    ));
    assert_eq!(
        conn.register_function(nameless).unwrap_err().to_string(),
        "Invalid argument supplied: function name may not be empty"
    );
}

#[test]
fn every_change_gives_another_generation() {
    let mut conn: Conn = Connection::new();
    let start = conn.prepare_context_generation();
    conn.create_scalar_function("f", 1, deterministic(), constant_function(1))
        .unwrap();
    let registered = conn.prepare_context_generation();
    assert_ne!(registered, start);

    conn.remove_function("g", 1).unwrap();
    assert!(!conn.remove_all_functions_named("g"));
    assert_eq!(conn.prepare_context_generation(), registered);

    conn.remove_function("f", 1).unwrap();
    assert_ne!(conn.prepare_context_generation(), registered);
}

#[test]
fn removing_a_name_removes_every_argument_count() {
    let mut conn: Conn = Connection::new();
    for argc in [-1, 0, 2] {
        conn.create_scalar_function("f", argc, deterministic(), constant_function(1))
            .unwrap();
    }
    conn.create_scalar_function("g", 0, deterministic(), constant_function(9))
        .unwrap();
    assert!(conn.remove_all_functions_named("F"));
    for count in [0, 1, 2] {
        assert_eq!(error_of(&conn, "f", count), "Parse error: no such function: f");
    }
    assert_eq!(int_of(&conn, "g", &[]).unwrap(), 9);
}

#[test]
fn a_variadic_function_takes_the_counts_nobody_registered() {
    let mut conn: Conn = Connection::new();
    conn.create_scalar_function("f", 1, deterministic(), constant_function(1))
        .unwrap();
    conn.create_scalar_function("f", -1, deterministic(), constant_function(2))
        .unwrap();
    assert_eq!(int_of(&conn, "f", &[5]).unwrap(), 1);
    assert_eq!(int_of(&conn, "f", &[5, 6]).unwrap(), 2);
    assert!(conn.resolve_function("f", 1).unwrap().matches_arg_count(1));
    assert!(!conn.resolve_function("f", 1).unwrap().matches_arg_count(2));
    assert!(conn.resolve_function("f", 2).unwrap().matches_arg_count(2));
}
