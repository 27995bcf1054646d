//! Native functions: registering them, calling them, and what a call can reach.

use std::sync::atomic::{AtomicUsize, Ordering};
use std::sync::Arc;

use turso_udf::auxdata::AuxDataStore;
use turso_udf::closures::{aggregate_from_fns, run_step, scalar_from_fn};
use turso_udf::context::FunctionContext;
use turso_udf::error::{LimboError, Result};
use turso_udf::flags::FunctionFlags;
use turso_udf::function::{AggregateFunction, AggregateState, ScalarFunction};
use turso_udf::registry::{
    check_usable_from_schema, Connection, OpenConnection, MAX_FUNCTION_ARG,
};
use turso_udf::tag::{same_pointer, same_tag, PointerValue, ValueTag};
use turso_udf::value::{Numeric, Real, Value, ValueRef};

type Ctx<'a> = FunctionContext<'a, (), String>;
type Conn = OpenConnection<(), String>;
type Tag = ValueTag<String>;

fn flags(bits: u32) -> FunctionFlags {
    FunctionFlags::from_bits_truncate(bits)
}

fn arg_int(arg: &ValueRef<'_>) -> i64 {
    match arg {
        ValueRef::Numeric(Numeric::Integer(i)) => *i,
        ValueRef::Numeric(Numeric::Float(f)) => f64::from_bits(f.bits) as i64,
        _ => 0,
    }
}

fn sum_args(args: &[ValueRef<'_>]) -> i64 {
    args.iter().map(arg_int).sum()
}

fn text(s: &str) -> Value {
    Value::build_text(s.to_string())
}

fn int_of(value: &Value) -> i64 {
    match value {
        Value::Numeric(Numeric::Integer(i)) => *i,
        other => panic!("not an integer: {other:?}"),
    }
}

fn str_of(value: &Value) -> &str {
    match value {
        Value::Text(t) => &t.value,
        other => panic!("not text: {other:?}"),
    }
}

fn boxed<F>(f: F) -> Box<dyn ScalarFunction<(), String>>
where
    F: Fn(&mut Ctx<'_>, &[ValueRef<'_>]) -> Result<Value> + Send + Sync + 'static,
{
    Box::new(scalar_from_fn(f))
}

/// A value a function returned, with the tag it left on it.
struct Tagged {
    value: Value,
    tag: Option<Tag>,
}

fn plain(value: Value) -> Tagged {
    Tagged { value, tag: None }
}

/// Calls the scalar function that a call of `name` with these arguments reaches.
fn call(conn: &Conn, name: &str, args: &[&Tagged]) -> Result<Tagged> {
    call_at(conn, name, args, None)
}

fn call_at(
    conn: &Conn,
    name: &str,
    args: &[&Tagged],
    aux: Option<(&mut AuxDataStore<String>, u32)>,
) -> Result<Tagged> {
    let func = conn.function_for_call(name, args.len())?;
    let refs: Vec<ValueRef<'_>> = args.iter().map(|a| a.value.as_value_ref()).collect();
    let tags: Vec<Option<&Tag>> = args.iter().map(|a| a.tag.as_ref()).collect();
    let mut ctx = FunctionContext::new(&())
        .with_args(&refs)
        .with_arg_tags(&tags);
    if let Some((store, pc)) = aux {
        ctx = ctx.with_auxdata(store, pc);
    }
    let value = func.as_scalar().expect("a scalar").call(&mut ctx, &refs)?;
    let tag = ctx.take_result_tag();
    assert!(ctx.take_result_tag().is_none());
    Ok(Tagged { value, tag })
}

fn ints(values: &[i64]) -> Vec<Tagged> {
    values.iter().map(|i| plain(Value::from_i64(*i))).collect()
}

fn call_ints(conn: &Conn, name: &str, args: &[i64]) -> Result<i64> {
    let owned = ints(args);
    let refs: Vec<&Tagged> = owned.iter().collect();
    Ok(int_of(&call(conn, name, &refs)?.value))
}

/// Runs an aggregate over rows of one integer each.
fn aggregate(conn: &Conn, name: &str, rows: &[i64]) -> Result<Tagged> {
    let func = conn.function_for_call(name, 1)?;
    let mut ctx = FunctionContext::new(&());
    let mut state = func.as_aggregate().expect("an aggregate").init(&mut ctx)?;
    for x in rows {
        let value = Value::from_i64(*x);
        state.step(&mut ctx, &[value.as_value_ref()])?;
    }
    let value = state.finalize(&mut ctx)?;
    Ok(Tagged {
        value,
        tag: ctx.take_result_tag(),
    })
}

// ---------------------------------------------------------------- scalars

#[test]
fn native_scalar_closure_sees_its_arguments() {
    let mut conn: Conn = Connection::new();
    conn.create_scalar_function(
        "triple",
        1,
        flags(FunctionFlags::DETERMINISTIC),
        boxed(|_ctx: &mut Ctx<'_>, args: &[ValueRef<'_>]| Ok(Value::from_i64(arg_int(&args[0]) * 3))),
    )
    .unwrap();

    assert_eq!(call_ints(&conn, "triple", &[7]).unwrap(), 21);
    let rows: Vec<i64> = [1, 2, 3]
        .iter()
        .map(|x| call_ints(&conn, "triple", &[*x]).unwrap())
        .collect();
    assert_eq!(rows, vec![3, 6, 9]);
}

#[test]
fn native_scalar_errors_abort_the_statement() {
    let mut conn: Conn = Connection::new();
    conn.create_scalar_function(
        "boom",
        0,
        FunctionFlags::empty(),
        boxed(|_ctx: &mut Ctx<'_>, _args: &[ValueRef<'_>]| {
            Err(LimboError::ExtensionError("boom happened".to_string()))
        }),
    )
    .unwrap();

    let err = call_ints(&conn, "boom", &[]).unwrap_err();
    assert!(err.to_string().contains("boom happened"));
}

// ------------------------------------------------------------- aggregates

/// Sums its first argument; `window` controls whether it advertises `value` / `inverse`.
struct SumAggregate {
    window: bool,
}

struct SumAggregateState {
    total: i64,
    finals: Option<Arc<AtomicUsize>>,
}

impl AggregateFunction<(), String> for SumAggregate {
    fn init(&self, _ctx: &mut Ctx<'_>) -> Result<Box<dyn AggregateState<(), String>>> {
        Ok(Box::new(SumAggregateState {
            total: 0,
            finals: None,
        }))
    }

    fn supports_window(&self) -> bool {
        self.window
    }
}

impl AggregateState<(), String> for SumAggregateState {
    fn step(&mut self, _ctx: &mut Ctx<'_>, args: &[ValueRef<'_>]) -> Result<()> {
        self.total += sum_args(args);
        Ok(())
    }

    fn finalize(self: Box<Self>, _ctx: &mut Ctx<'_>) -> Result<Value> {
        if let Some(finals) = &self.finals {
            finals.fetch_add(1, Ordering::SeqCst);
        }
        Ok(Value::from_i64(self.total))
    }

    fn value(&mut self, _ctx: &mut Ctx<'_>) -> Result<Value> {
        Ok(Value::from_i64(self.total))
    }

    fn inverse(&mut self, _ctx: &mut Ctx<'_>, args: &[ValueRef<'_>]) -> Result<()> {
        self.total -= sum_args(args);
        Ok(())
    }
}

struct CountingSum {
    finals: Arc<AtomicUsize>,
}

impl AggregateFunction<(), String> for CountingSum {
    fn init(&self, _ctx: &mut Ctx<'_>) -> Result<Box<dyn AggregateState<(), String>>> {
        Ok(Box::new(SumAggregateState {
            total: 0,
            finals: Some(self.finals.clone()),
        }))
    }
}

#[test]
fn native_aggregate_accumulates_per_group() {
    let mut conn: Conn = Connection::new();
    let finals = Arc::new(AtomicUsize::new(0));
    conn.create_aggregate_function(
        "nsum",
        1,
        FunctionFlags::empty(),
        Box::new(CountingSum {
            finals: finals.clone(),
        }),
    )
    .unwrap();

    assert_eq!(int_of(&aggregate(&conn, "nsum", &[1, 2]).unwrap().value), 3);
    assert_eq!(int_of(&aggregate(&conn, "nsum", &[10]).unwrap().value), 10);
    assert_eq!(finals.load(Ordering::SeqCst), 2);

    assert_eq!(int_of(&aggregate(&conn, "nsum", &[]).unwrap().value), 0);
    assert_eq!(finals.load(Ordering::SeqCst), 3);
}

#[test]
fn aggregate_built_from_closures_works() {
    let mut conn: Conn = Connection::new();
    conn.create_aggregate_function(
        "closure_sum",
        1,
        FunctionFlags::empty(),
        Box::new(aggregate_from_fns(
            || 0i64,
            |total: &mut i64, args: &[ValueRef<'_>]| -> Result<()> {
                *total += sum_args(args);
                Ok(())
            },
            |total: i64| -> Result<Value> { Ok(Value::from_i64(total)) },
        )),
    )
    .unwrap();

    assert_eq!(
        int_of(&aggregate(&conn, "closure_sum", &[4, 5, 6]).unwrap().value),
        15
    );
    assert!(!conn
        .function_for_call("closure_sum", 1)
        .unwrap()
        .supports_window());
}

// ------------------------------------------------------------- overloading

fn register_constant(conn: &mut Conn, name: &str, argc: i32, answer: i64) -> Result<()> {
    conn.create_scalar_function(
        name,
        argc,
        flags(FunctionFlags::DETERMINISTIC),
        boxed(move |_ctx: &mut Ctx<'_>, _args: &[ValueRef<'_>]| Ok(Value::from_i64(answer))),
    )
}

#[test]
fn overloading_dispatches_on_argument_count() {
    let mut conn: Conn = Connection::new();
    register_constant(&mut conn, "f", 1, 1).unwrap();
    register_constant(&mut conn, "f", 2, 2).unwrap();
    conn.create_scalar_function(
        "f",
        -1,
        FunctionFlags::empty(),
        boxed(|_ctx: &mut Ctx<'_>, args: &[ValueRef<'_>]| {
            Ok(Value::from_i64(100 + args.len() as i64))
        }),
    )
    .unwrap();

    assert_eq!(call_ints(&conn, "f", &[1]).unwrap(), 1);
    assert_eq!(call_ints(&conn, "f", &[1, 2]).unwrap(), 2);
    assert_eq!(call_ints(&conn, "f", &[1, 2, 3]).unwrap(), 103);
    assert_eq!(call_ints(&conn, "f", &[]).unwrap(), 100);
}

#[test]
fn unknown_name_and_wrong_arity_report_different_errors() {
    let mut conn: Conn = Connection::new();
    register_constant(&mut conn, "f", 1, 1).unwrap();

    assert_eq!(
        call_ints(&conn, "f", &[1, 2]).unwrap_err().to_string(),
        "Parse error: wrong number of arguments to function f()"
    );
    assert_eq!(
        call_ints(&conn, "no_such_udf", &[1])
            .unwrap_err()
            .to_string(),
        "Parse error: no such function: no_such_udf"
    );
}

#[test]
fn re_registering_the_same_arity_replaces_it() {
    let mut conn: Conn = Connection::new();
    register_constant(&mut conn, "f", 1, 1).unwrap();
    assert_eq!(call_ints(&conn, "f", &[0]).unwrap(), 1);

    register_constant(&mut conn, "f", 1, 2).unwrap();
    assert_eq!(call_ints(&conn, "f", &[0]).unwrap(), 2);

    conn.remove_function("f", 1).unwrap();
    assert_eq!(
        call_ints(&conn, "f", &[0]).unwrap_err().to_string(),
        "Parse error: no such function: f",
        "there was only one to remove"
    );
}

#[test]
fn remove_function_only_removes_the_matching_arity() {
    let mut conn: Conn = Connection::new();
    register_constant(&mut conn, "f", 1, 1).unwrap();
    register_constant(&mut conn, "f", 2, 2).unwrap();

    conn.remove_function("f", 1).unwrap();
    assert_eq!(
        call_ints(&conn, "f", &[1]).unwrap_err().to_string(),
        "Parse error: wrong number of arguments to function f()"
    );
    assert_eq!(call_ints(&conn, "f", &[1, 2]).unwrap(), 2);

    conn.remove_function("f", 7).unwrap();
    conn.remove_function("never_registered", 1).unwrap();

    conn.remove_function("f", 2).unwrap();
    assert_eq!(
        call_ints(&conn, "f", &[1, 2]).unwrap_err().to_string(),
        "Parse error: no such function: f"
    );
}

#[test]
fn registration_validates_name_and_argument_count() {
    let mut conn: Conn = Connection::new();
    assert!(register_constant(&mut conn, "", 1, 0).is_err());
    assert!(register_constant(&mut conn, &"x".repeat(256), 1, 0).is_err());
    assert!(register_constant(&mut conn, "f", -2, 0).is_err());
    assert!(register_constant(&mut conn, "f", MAX_FUNCTION_ARG + 1, 0).is_err());

    register_constant(&mut conn, &"x".repeat(255), -1, 0).unwrap();
    register_constant(&mut conn, "g", MAX_FUNCTION_ARG, 0).unwrap();

    assert_eq!(
        register_constant(&mut conn, "", 1, 0).unwrap_err().to_string(),
        "Invalid argument supplied: function name may not be empty"
    );
    assert_eq!(
        register_constant(&mut conn, &"ä".repeat(128), 1, 0)
            .unwrap_err()
            .to_string(),
        "Invalid argument supplied: function name is longer than 255 bytes"
    );
    assert_eq!(
        register_constant(&mut conn, "f", 128, 0)
            .unwrap_err()
            .to_string(),
        "Invalid argument supplied: function argument count must be between -1 and 127, got 128"
    );
}

// ------------------------------------------------------------------ windows

#[test]
fn a_step_closure_leaves_what_it_made_of_the_accumulator() {
    let step = |total: &mut i64, args: &[ValueRef<'_>]| {
        *total += sum_args(args);
        if *total > 10 {
            return Err(LimboError::InvalidArgument("too much".to_string()));
        }
        Ok(())
    };
    let six = Value::from_i64(6);
    let row = [six.as_value_ref()];
    let (total, r) = run_step(&step, 1, &row);
    assert!(r.is_ok());
    assert_eq!(total, 7);
    let (total, r) = run_step(&step, total, &row);
    assert!(matches!(r, Err(LimboError::InvalidArgument(m)) if m == "too much"));
    assert_eq!(total, 13);
}

#[test]
fn closures_fold_the_rows_of_each_group_in_order() {
    let aggregate = aggregate_from_fns(
        || 1i64,
        |total: &mut i64, args: &[ValueRef<'_>]| {
            let x = sum_args(args);
            if x < 0 {
                return Err(LimboError::InvalidArgument("no debts".to_string()));
            }
            *total = *total * 10 + x;
            Ok(())
        },
        |total: i64| {
            if total > 100_000 {
                Err(LimboError::SqlError("too much".to_string()))
            } else {
                Ok(Value::from_i64(total))
            }
        },
    );
    let mut ctx: Ctx<'_> = FunctionContext::new(&());
    assert!(!AggregateFunction::<(), String>::supports_window(&aggregate));
    let mut first = aggregate.new_state();
    let mut second = aggregate.new_state();
    for x in [2, 3] {
        first
            .step(&mut ctx, &[Value::from_i64(x).as_value_ref()])
            .unwrap();
    }
    for x in [9, 9, 9, 9, 9] {
        second
            .step(&mut ctx, &[Value::from_i64(x).as_value_ref()])
            .unwrap();
    }
    let debt = Value::from_i64(-1);
    let err = first.step(&mut ctx, &[debt.as_value_ref()]).unwrap_err();
    assert!(matches!(err, LimboError::InvalidArgument(m) if m == "no debts"));
    assert_eq!(int_of(&Box::new(first).finalize(&mut ctx).unwrap()), 123);
    let err = Box::new(second).finalize(&mut ctx).unwrap_err();
    assert!(matches!(err, LimboError::SqlError(m) if m == "too much"));
    let empty = aggregate.new_state();
    assert_eq!(int_of(&Box::new(empty).finalize(&mut ctx).unwrap()), 1);
}

#[test]
fn window_capable_aggregate_runs_over_a_moving_frame() {
    let mut conn: Conn = Connection::new();
    conn.create_aggregate_function(
        "wsum",
        1,
        FunctionFlags::empty(),
        Box::new(SumAggregate { window: true }),
    )
    .unwrap();
    let func = conn.function_for_call("wsum", 1).unwrap();
    assert!(func.supports_window());

    let mut ctx = FunctionContext::new(&());
    let mut state = func.as_aggregate().unwrap().init(&mut ctx).unwrap();
    let mut rows = Vec::new();
    for x in [1, 2, 3] {
        let value = Value::from_i64(x);
        state.step(&mut ctx, &[value.as_value_ref()]).unwrap();
        rows.push((x, int_of(&state.value(&mut ctx).unwrap())));
    }
    assert_eq!(rows, vec![(1, 1), (2, 3), (3, 6)]);

    let mut state = func.as_aggregate().unwrap().init(&mut ctx).unwrap();
    let mut rows = Vec::new();
    for x in [1, 2, 3] {
        let value = Value::from_i64(x);
        state.step(&mut ctx, &[value.as_value_ref()]).unwrap();
        if x > 2 {
            let left = Value::from_i64(x - 2);
            state.inverse(&mut ctx, &[left.as_value_ref()]).unwrap();
        }
        rows.push((x, int_of(&state.value(&mut ctx).unwrap())));
    }
    assert_eq!(rows, vec![(1, 1), (2, 3), (3, 5)]);
}

/// Has neither `value` nor `inverse`.
struct Blind;

impl AggregateState<(), String> for Blind {
    fn step(&mut self, _ctx: &mut Ctx<'_>, _args: &[ValueRef<'_>]) -> Result<()> {
        Ok(())
    }

    fn finalize(self: Box<Self>, _ctx: &mut Ctx<'_>) -> Result<Value> {
        Ok(Value::Null)
    }
}

#[test]
fn an_aggregate_without_window_support_cannot_be_read_in_a_frame() {
    let mut ctx = FunctionContext::new(&());
    let mut state = Blind;
    for err in [
        state.value(&mut ctx).unwrap_err(),
        state.inverse(&mut ctx, &[]).unwrap_err(),
    ] {
        assert_eq!(
            err.to_string(),
            "Parse error: aggregate may not be used as a window function"
        );
    }
}

#[test]
fn a_running_statement_keeps_the_function_it_started_with() {
    let mut conn: Conn = Connection::new();
    register_constant(&mut conn, "f", 1, 1).unwrap();

    let held = conn.function_for_call("f", 1).unwrap();
    register_constant(&mut conn, "f", 1, 2).unwrap();

    let arg = Value::from_i64(1);
    let mut ctx = FunctionContext::new(&());
    let value = held
        .as_scalar()
        .unwrap()
        .call(&mut ctx, &[arg.as_value_ref()])
        .unwrap();
    assert_eq!(int_of(&value), 1);
    assert_eq!(call_ints(&conn, "f", &[0]).unwrap(), 2);
}

// ----------------------------------------------------------------- aux data

/// Stashes the "compiled" first argument in aux data and counts how often it had to recompile.
fn register_compiling_matcher(conn: &mut Conn, counter: Arc<AtomicUsize>) {
    conn.create_scalar_function(
        "matcher",
        2,
        flags(FunctionFlags::DETERMINISTIC),
        boxed(move |ctx: &mut Ctx<'_>, args: &[ValueRef<'_>]| {
            let stored = ctx.get_auxdata(0).cloned();
            let compiled = match stored {
                Some(compiled) => compiled,
                None => {
                    counter.fetch_add(1, Ordering::SeqCst);
                    let compiled = match &args[0] {
                        ValueRef::Text(text) => format!("<{}>", text.value),
                        other => format!("<{}>", arg_int(other)),
                    };
                    ctx.set_auxdata(0, compiled.clone());
                    compiled
                }
            };
            Ok(Value::build_text(format!("{compiled}{}", arg_int(&args[1]))))
        }),
    )
    .unwrap();
}

const ONLY_FIRST_IS_CONSTANT: i32 = 0b01;
const NOTHING_IS_CONSTANT: i32 = 0;

/// One row of a scan: the call at `pc`, and then what the engine does between rows.
fn match_row(
    conn: &Conn,
    store: &mut AuxDataStore<String>,
    pc: u32,
    pattern: &Value,
    x: i64,
    mask: i32,
) -> String {
    let pattern = plain(pattern.clone());
    let x = plain(Value::from_i64(x));
    let found = call_at(conn, "matcher", &[&pattern, &x], Some((&mut *store, pc))).unwrap();
    store.drop_non_constant(pc, mask);
    str_of(&found.value).to_string()
}

#[test]
fn auxdata_for_a_constant_argument_is_computed_once_for_the_whole_scan() {
    let mut conn: Conn = Connection::new();
    let compiles = Arc::new(AtomicUsize::new(0));
    register_compiling_matcher(&mut conn, compiles.clone());

    let mut store = AuxDataStore::new();
    let rows: Vec<String> = (1..=5)
        .map(|x| match_row(&conn, &mut store, 4, &text("abc"), x, ONLY_FIRST_IS_CONSTANT))
        .collect();
    assert_eq!(rows, vec!["<abc>1", "<abc>2", "<abc>3", "<abc>4", "<abc>5"]);
    assert_eq!(
        compiles.load(Ordering::SeqCst),
        1,
        "a constant first argument is compiled once and reused for every row"
    );
}

#[test]
fn auxdata_for_a_column_argument_is_thrown_away_after_every_row() {
    let mut conn: Conn = Connection::new();
    let compiles = Arc::new(AtomicUsize::new(0));
    register_compiling_matcher(&mut conn, compiles.clone());

    let mut store = AuxDataStore::new();
    let rows: Vec<String> = (1..=5)
        .map(|x| {
            match_row(
                &conn,
                &mut store,
                4,
                &Value::from_i64(x),
                x,
                NOTHING_IS_CONSTANT,
            )
        })
        .collect();
    assert_eq!(rows.len(), 5);
    assert_eq!(rows[0], "<1>1");
    assert_eq!(rows[4], "<5>5");
    assert_eq!(
        compiles.load(Ordering::SeqCst),
        5,
        "a column argument is a different value each row, so nothing is kept"
    );
    assert!(store.is_empty());
}

#[test]
fn auxdata_does_not_survive_a_statement_reset() {
    let mut conn: Conn = Connection::new();
    let compiles = Arc::new(AtomicUsize::new(0));
    register_compiling_matcher(&mut conn, compiles.clone());

    let mut store = AuxDataStore::new();
    for x in [1, 2] {
        match_row(&conn, &mut store, 4, &text("abc"), x, ONLY_FIRST_IS_CONSTANT);
    }
    assert_eq!(compiles.load(Ordering::SeqCst), 1);
    assert!(!store.is_empty());

    store.clear();
    assert!(store.is_empty());
    for x in [1, 2] {
        match_row(&conn, &mut store, 4, &text("abc"), x, ONLY_FIRST_IS_CONSTANT);
    }
    assert_eq!(
        compiles.load(Ordering::SeqCst),
        2,
        "the second run starts with an empty aux-data store"
    );
}

#[test]
fn two_call_sites_of_the_same_function_keep_separate_auxdata() {
    let mut conn: Conn = Connection::new();
    let compiles = Arc::new(AtomicUsize::new(0));
    register_compiling_matcher(&mut conn, compiles.clone());

    let mut store = AuxDataStore::new();
    let mut rows = Vec::new();
    for x in [1, 2, 3] {
        let a = match_row(&conn, &mut store, 4, &text("a"), x, ONLY_FIRST_IS_CONSTANT);
        let b = match_row(&conn, &mut store, 9, &text("b"), x, ONLY_FIRST_IS_CONSTANT);
        rows.push((a, b));
    }
    assert_eq!(rows[0], ("<a>1".to_string(), "<b>1".to_string()));
    assert_eq!(rows[2], ("<a>3".to_string(), "<b>3".to_string()));
    assert_eq!(
        compiles.load(Ordering::SeqCst),
        2,
        "one compile per call site, not one per row"
    );
}

#[test]
fn only_the_first_32_arguments_can_be_constant() {
    let mut store: AuxDataStore<u8> = AuxDataStore::new();
    for arg in [0, 31, 32, 40] {
        store.set(7, arg, arg as u8);
        store.set(8, arg, arg as u8);
    }
    store.set(7, 0, 99);
    store.drop_non_constant(7, i32::MIN | 1);
    assert_eq!(store.get(7, 0), Some(&99));
    assert_eq!(store.get(7, 31), Some(&31));
    assert_eq!(store.get(7, 32), None);
    assert_eq!(store.get(7, 40), None);
    assert_eq!(store.get(8, 32), Some(&32));
    assert_eq!(store.get(9, 0), None);
}

#[test]
fn auxdata_outside_a_scalar_call_is_discarded() {
    let mut ctx: Ctx<'_> = FunctionContext::new(&());
    ctx.set_auxdata(0, "lost".to_string());
    assert!(ctx.get_auxdata(0).is_none());
}

// -------------------------------------------------------------- error codes

fn error_of(result: Result<Tagged>) -> (String, i32) {
    match result {
        Ok(_) => panic!("should have failed"),
        Err(LimboError::UserFunction { code, message }) => (message, code),
        Err(other) => panic!("not a function's own error: {other:?}"),
    }
}

#[test]
fn a_function_picks_the_result_code_the_statement_fails_with() {
    let mut conn: Conn = Connection::new();
    conn.create_scalar_function(
        "plain_error",
        0,
        FunctionFlags::empty(),
        boxed(|ctx: &mut Ctx<'_>, _args: &[ValueRef<'_>]| {
            Err(ctx.error("something went wrong".to_string()))
        }),
    )
    .unwrap();
    conn.create_scalar_function(
        "coded_error",
        0,
        FunctionFlags::empty(),
        boxed(|ctx: &mut Ctx<'_>, _args: &[ValueRef<'_>]| {
            Err(ctx.error_code(19, "constraint-ish".to_string()))
        }),
    )
    .unwrap();
    conn.create_scalar_function(
        "too_big",
        0,
        FunctionFlags::empty(),
        boxed(|ctx: &mut Ctx<'_>, _args: &[ValueRef<'_>]| Err(ctx.error_toobig())),
    )
    .unwrap();
    conn.create_scalar_function(
        "no_mem",
        0,
        FunctionFlags::empty(),
        boxed(|ctx: &mut Ctx<'_>, _args: &[ValueRef<'_>]| Err(ctx.error_nomem())),
    )
    .unwrap();

    for (name, code, message) in [
        ("plain_error", 1, "something went wrong"),
        ("coded_error", 19, "constraint-ish"),
        ("too_big", 18, "string or blob too big"),
        ("no_mem", 7, "out of memory"),
    ] {
        let (text, result_code) = error_of(call(&conn, name, &[]));
        assert_eq!(text, message, "{name}");
        assert_eq!(result_code, code, "{name}");
    }
}

// ---------------------------------------------------------------- subtypes

const TEST_SUBTYPE: u8 = 42;

/// `tag(x, n)` returns text `x` with subtype `n`; `subtype_of(x)` reports the subtype it was handed.
fn register_subtype_functions(conn: &mut Conn) {
    conn.create_scalar_function(
        "tag",
        2,
        flags(FunctionFlags::DETERMINISTIC | FunctionFlags::RESULT_SUBTYPE),
        boxed(|_ctx: &mut Ctx<'_>, args: &[ValueRef<'_>]| {
            let ValueRef::Text(text) = &args[0] else {
                return Ok(Value::Null);
            };
            Ok(Value::text_with_subtype(
                text.value.to_string(),
                arg_int(&args[1]) as u8,
            ))
        }),
    )
    .unwrap();
    conn.create_scalar_function(
        "subtype_of",
        1,
        flags(FunctionFlags::DETERMINISTIC | FunctionFlags::SUBTYPE),
        boxed(|ctx: &mut Ctx<'_>, args: &[ValueRef<'_>]| {
            assert_eq!(ctx.arg_subtype(0), args[0].subtype());
            Ok(Value::from_i64(ctx.arg_subtype(0) as i64))
        }),
    )
    .unwrap();
}

fn tagged_text(conn: &Conn, s: &str, subtype: i64) -> Tagged {
    let s = plain(text(s));
    let n = plain(Value::from_i64(subtype));
    call(conn, "tag", &[&s, &n]).unwrap()
}

#[test]
fn a_result_subtype_reaches_the_next_function() {
    let mut conn: Conn = Connection::new();
    register_subtype_functions(&mut conn);

    for n in [200, 255, 0] {
        let value = tagged_text(&conn, "hi", n);
        assert_eq!(int_of(&call(&conn, "subtype_of", &[&value]).unwrap().value), n);
        assert_eq!(str_of(&value.value), "hi");
    }
    let untagged = plain(text("hi"));
    assert_eq!(
        int_of(&call(&conn, "subtype_of", &[&untagged]).unwrap().value),
        0
    );

    let seven = tagged_text(&conn, "hi", 7);
    let n = plain(Value::from_i64(200));
    let again = call(&conn, "tag", &[&seven, &n]).unwrap();
    assert_eq!(int_of(&call(&conn, "subtype_of", &[&again]).unwrap().value), 200);
}

#[test]
fn a_result_subtype_reaches_the_caller_reading_the_row() {
    let mut conn: Conn = Connection::new();
    register_subtype_functions(&mut conn);

    assert_eq!(tagged_text(&conn, "hi", 200).value.subtype(), 200);
    assert_eq!(tagged_text(&conn, "hi", 0).value.subtype(), 0);
    assert_eq!(text("hi").subtype(), 0);
    assert_eq!(Value::from_i64(1).subtype(), 0);
}

#[test]
fn only_text_values_carry_a_subtype() {
    let mut conn: Conn = Connection::new();
    register_subtype_functions(&mut conn);
    for value in [
        Value::from_i64(1).with_subtype(200),
        Value::from_slice(b"xy").with_subtype(200),
        Value::Null.with_subtype(200),
    ] {
        let value = plain(value);
        assert_eq!(int_of(&call(&conn, "subtype_of", &[&value]).unwrap().value), 0);
    }
    assert_eq!(text("x").with_subtype(200).subtype(), 200);
}

/// `st(x)` reports the subtype of whatever it was handed, of any type.
fn register_general_subtype_reader(conn: &mut Conn) {
    conn.create_scalar_function(
        "st",
        1,
        flags(FunctionFlags::DETERMINISTIC | FunctionFlags::SUBTYPE),
        boxed(|ctx: &mut Ctx<'_>, _args: &[ValueRef<'_>]| {
            Ok(Value::from_i64(ctx.arg_subtype(0) as i64))
        }),
    )
    .unwrap();
}

/// One nullary function per value type, each attaching `TEST_SUBTYPE` to its result.
fn register_subtyped_producers(conn: &mut Conn) {
    let producers: Vec<(&str, fn() -> Value)> = vec![
        ("sub_int", || Value::from_i64(7)),
        ("sub_real", || {
            Value::Numeric(Numeric::Float(Real {
                bits: 1.5f64.to_bits(),
                text: "1.5".to_string(),
            }))
        }),
        ("sub_blob", || Value::from_slice(b"xy")),
        ("sub_null", || Value::Null),
        ("sub_text", || Value::build_text("hi".to_string())),
    ];
    for (name, make) in producers {
        conn.create_scalar_function(
            name,
            0,
            flags(FunctionFlags::DETERMINISTIC | FunctionFlags::RESULT_SUBTYPE),
            boxed(move |ctx: &mut Ctx<'_>, _args: &[ValueRef<'_>]| {
                ctx.set_result_subtype(TEST_SUBTYPE);
                Ok(make())
            }),
        )
        .unwrap();
    }
}

#[test]
fn a_function_can_put_a_subtype_on_a_result_of_any_type() {
    let mut conn: Conn = Connection::new();
    register_general_subtype_reader(&mut conn);
    register_subtyped_producers(&mut conn);

    for producer in ["sub_int", "sub_real", "sub_blob", "sub_null", "sub_text"] {
        let made = call(&conn, producer, &[]).unwrap();
        assert_eq!(
            int_of(&call(&conn, "st", &[&made]).unwrap().value),
            TEST_SUBTYPE as i64,
            "{producer}"
        );
    }
    assert_eq!(int_of(&call(&conn, "sub_int", &[]).unwrap().value), 7);
}

#[test]
fn a_value_nobody_tagged_has_no_subtype() {
    let mut conn: Conn = Connection::new();
    register_general_subtype_reader(&mut conn);
    for value in [
        Value::from_i64(1),
        text("hi"),
        Value::from_slice(&[1, 2]),
        Value::Null,
    ] {
        let value = plain(value);
        assert_eq!(int_of(&call(&conn, "st", &[&value]).unwrap().value), 0);
    }
}

/// Sums its argument and stamps `TEST_SUBTYPE` on the result, from both `finalize` and `value`.
struct SubtypedSum;

struct SubtypedSumState {
    total: i64,
}

impl AggregateFunction<(), String> for SubtypedSum {
    fn init(&self, _ctx: &mut Ctx<'_>) -> Result<Box<dyn AggregateState<(), String>>> {
        Ok(Box::new(SubtypedSumState { total: 0 }))
    }

    fn supports_window(&self) -> bool {
        true
    }
}

impl AggregateState<(), String> for SubtypedSumState {
    fn step(&mut self, _ctx: &mut Ctx<'_>, args: &[ValueRef<'_>]) -> Result<()> {
        self.total += sum_args(args);
        Ok(())
    }

    fn finalize(self: Box<Self>, ctx: &mut Ctx<'_>) -> Result<Value> {
        ctx.set_result_subtype(TEST_SUBTYPE);
        Ok(Value::from_i64(self.total))
    }

    fn value(&mut self, ctx: &mut Ctx<'_>) -> Result<Value> {
        ctx.set_result_subtype(TEST_SUBTYPE);
        Ok(Value::from_i64(self.total))
    }

    fn inverse(&mut self, _ctx: &mut Ctx<'_>, args: &[ValueRef<'_>]) -> Result<()> {
        self.total -= sum_args(args);
        Ok(())
    }
}

#[test]
fn an_aggregate_can_put_a_subtype_on_its_result() {
    let mut conn: Conn = Connection::new();
    register_general_subtype_reader(&mut conn);
    conn.create_aggregate_function("subsum", 1, FunctionFlags::empty(), Box::new(SubtypedSum))
        .unwrap();

    let total = aggregate(&conn, "subsum", &[1, 2, 3]).unwrap();
    assert_eq!(int_of(&total.value), 6);
    assert_eq!(
        int_of(&call(&conn, "st", &[&total]).unwrap().value),
        TEST_SUBTYPE as i64
    );

    let empty = aggregate(&conn, "subsum", &[]).unwrap();
    assert_eq!(
        int_of(&call(&conn, "st", &[&empty]).unwrap().value),
        TEST_SUBTYPE as i64
    );
}

/// Reports the subtype its `step` saw on the last row's argument.
struct SubtypeWatchingState {
    last_subtype: u8,
}

impl AggregateState<(), String> for SubtypeWatchingState {
    fn step(&mut self, ctx: &mut Ctx<'_>, _args: &[ValueRef<'_>]) -> Result<()> {
        self.last_subtype = ctx.arg_subtype(0);
        Ok(())
    }

    fn finalize(self: Box<Self>, _ctx: &mut Ctx<'_>) -> Result<Value> {
        Ok(Value::from_i64(self.last_subtype as i64))
    }
}

#[test]
fn an_aggregate_step_sees_the_subtype_of_its_argument() {
    let mut conn: Conn = Connection::new();
    register_subtyped_producers(&mut conn);

    let tagged = call(&conn, "sub_int", &[]).unwrap();
    let untagged = plain(Value::from_i64(1));
    for (arg, seen) in [(&tagged, TEST_SUBTYPE), (&untagged, 0)] {
        let mut state = Box::new(SubtypeWatchingState { last_subtype: 0 });
        for _ in 0..2 {
            let refs = [arg.value.as_value_ref()];
            let tags = [arg.tag.as_ref()];
            let mut ctx = FunctionContext::new(&())
                .with_args(&refs)
                .with_arg_tags(&tags);
            state.step(&mut ctx, &refs).unwrap();
        }
        let mut ctx = FunctionContext::new(&());
        assert_eq!(int_of(&state.finalize(&mut ctx).unwrap()), seen as i64);
    }
}

// --------------------------------------------------------- pointer values

/// `mk()` returns "payload" as a pointer under "mytype"; `rd(x)` asks for "mytype", `rd_wrong(x)` for another name.
fn register_pointer_functions(conn: &mut Conn) {
    conn.create_scalar_function(
        "mk",
        0,
        flags(FunctionFlags::DETERMINISTIC | FunctionFlags::RESULT_SUBTYPE),
        boxed(|ctx: &mut Ctx<'_>, _args: &[ValueRef<'_>]| {
            ctx.set_result_pointer(Arc::new(String::from("payload")), "mytype".to_string());
            Ok(Value::from_i64(1))
        }),
    )
    .unwrap();
    for (name, ptype) in [("rd", "mytype"), ("rd_wrong", "othertype"), ("rd_case", "MyType")] {
        conn.create_scalar_function(
            name,
            1,
            flags(FunctionFlags::DETERMINISTIC | FunctionFlags::SUBTYPE),
            boxed(move |ctx: &mut Ctx<'_>, _args: &[ValueRef<'_>]| {
                match ctx.arg_pointer(0, ptype) {
                    Some(object) => Ok(Value::build_text(object.to_string())),
                    None => Ok(Value::Null),
                }
            }),
        )
        .unwrap();
    }
}

#[test]
fn a_pointer_result_reaches_the_next_function() {
    let mut conn: Conn = Connection::new();
    register_pointer_functions(&mut conn);
    register_general_subtype_reader(&mut conn);

    let made = call(&conn, "mk", &[]).unwrap();
    let tag = made.tag.as_ref().unwrap();
    assert!(tag.is_pointer());
    assert_eq!(tag.pointer().unwrap().ptype(), "mytype");

    assert_eq!(str_of(&call(&conn, "rd", &[&made]).unwrap().value), "payload");
    for name in ["rd_wrong", "rd_case"] {
        let got = call(&conn, name, &[&made]).unwrap();
        assert!(matches!(got.value, Value::Null), "{name}");
    }
    for value in [Value::Null, Value::from_i64(1)] {
        let got = call(&conn, "rd", &[&plain(value)]).unwrap();
        assert!(matches!(got.value, Value::Null));
    }
    assert_eq!(
        int_of(&call(&conn, "st", &[&made]).unwrap().value),
        b'p' as i64
    );
}

#[test]
fn a_pointer_survives_a_register_copy() {
    let mut conn: Conn = Connection::new();
    register_pointer_functions(&mut conn);
    let made = call(&conn, "mk", &[]).unwrap();
    let copy = Tagged {
        value: Value::Null,
        tag: made.tag.clone(),
    };
    assert_eq!(str_of(&call(&conn, "rd", &[&copy]).unwrap().value), "payload");
}

#[test]
fn tags_are_equal_when_they_hold_the_same_object() {
    let object = Arc::new("payload".to_string());
    let pointer = |object: &Arc<String>, name: &str| {
        Tag::from_pointer(Arc::new(PointerValue::new(object.clone(), name.to_string())))
    };
    assert!(pointer(&object, "mytype") == pointer(&object, "mytype"));
    assert!(pointer(&object, "mytype") != pointer(&object, "othertype"));
    let twin = Arc::new("payload".to_string());
    assert!(pointer(&object, "mytype") != pointer(&twin, "mytype"));
    assert!(pointer(&object, "mytype") != Tag::from_subtype(b'p'));
    assert!(Tag::from_subtype(3) == Tag::from_subtype(3));
    assert!(Tag::from_subtype(3) != Tag::from_subtype(4));
    assert!(Tag::default() == Tag::from_subtype(0));
}

#[test]
fn equal_pointers_need_one_name_and_one_object() {
    assert!(same_pointer("t", "t", true));
    assert!(!same_pointer("t", "T", true));
    assert!(!same_pointer("t", "t", false));
    assert!(same_tag(3, 3, false, false, false));
    assert!(!same_tag(3, 4, false, false, false));
    assert!(same_tag(112, 112, true, true, true));
    assert!(!same_tag(112, 112, true, true, false));
    assert!(!same_tag(112, 112, true, false, true));
}

// ------------------------------- DIRECTONLY / INNOCUOUS and trusted_schema

#[test]
fn with_trusted_schema_off_only_innocuous_functions_run_from_a_view() {
    let innocuous = flags(FunctionFlags::DETERMINISTIC | FunctionFlags::INNOCUOUS);
    let neither = flags(FunctionFlags::DETERMINISTIC);
    let direct = flags(FunctionFlags::DIRECTONLY | FunctionFlags::INNOCUOUS);

    assert!(check_usable_from_schema("plain_fn", neither, true).is_ok());
    assert!(check_usable_from_schema("innocuous_fn", innocuous, false).is_ok());
    assert_eq!(
        check_usable_from_schema("plain_fn", neither, false)
            .unwrap_err()
            .to_string(),
        "Parse error: unsafe use of plain_fn()"
    );
    for trusted in [true, false] {
        assert_eq!(
            check_usable_from_schema("unsafe_fn", direct, trusted)
                .unwrap_err()
                .to_string(),
            "Parse error: unsafe use of unsafe_fn()"
        );
    }
}

#[test]
fn flags_keep_only_bits_that_mean_something() {
    let all = FunctionFlags::from_bits_truncate(u32::MAX);
    assert_eq!(all.bits(), 0x0138_0800);
    let some = FunctionFlags::from_bits_truncate(0x801);
    assert_eq!(some.bits(), FunctionFlags::DETERMINISTIC);
    assert!(some.contains(FunctionFlags::DETERMINISTIC));
    assert!(!some.contains(FunctionFlags::DIRECTONLY));
    assert!(!some.contains(FunctionFlags::DETERMINISTIC | FunctionFlags::DIRECTONLY));
    let both = some.union(flags(FunctionFlags::DIRECTONLY));
    assert!(both.contains(FunctionFlags::DETERMINISTIC | FunctionFlags::DIRECTONLY));
    assert_eq!(FunctionFlags::empty().bits(), 0);
}
