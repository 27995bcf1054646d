//! Functions supplied by extensions.

use std::sync::atomic::{AtomicUsize, Ordering};
use std::sync::{Arc, Mutex};

use turso_udf::context::FunctionContext;
use turso_udf::error::LimboError;
use turso_udf::ext_adapter::{
    run_ptr_final, run_ptr_step, ExtAggPtrState, ExtAggState, ExtAggregateAdapter,
    ExtAggregatePtrAdapter, ExtScalarAdapter, ExtScalarPtrAdapter,
};
use turso_udf::extension::{
    not_a_window_aggregate, to_ext_values, AggFunc, ExtPayload, ExtValue, ScalarFunc,
    FIRST_ABI_VERSION_WITH_SUBTYPES,
};
use turso_udf::function::{AggregateFunction, AggregateState, ScalarFunction};
use turso_udf::tag::ValueTag;
use turso_udf::value::{Numeric, Real, Value, ValueRef};

type Ctx<'a> = FunctionContext<'a, (), String>;

const CONTEXT: usize = 0xc0;

struct Counts(Arc<AtomicUsize>);

impl Drop for Counts {
    fn drop(&mut self) {
        self.0.fetch_add(1, Ordering::SeqCst);
    }
}

fn ext(payload: ExtPayload) -> ExtValue {
    ExtValue {
        payload,
        subtype: 0,
    }
}

fn integer_of(value: &ExtValue) -> i64 {
    match value.payload {
        ExtPayload::Integer(i) => i,
        _ => 0,
    }
}

fn total_of(value: Value) -> i64 {
    match value {
        Value::Numeric(Numeric::Integer(i)) => i,
        other => panic!("not an integer: {other:?}"),
    }
}

fn failure(err: LimboError) -> String {
    match err {
        LimboError::ExtensionError(m) => m,
        other => panic!("not an extension's error: {other:?}"),
    }
}

#[test]
fn values_cross_and_come_back() {
    let real = Value::Numeric(Numeric::Float(Real {
        bits: 1.5f64.to_bits(),
        text: "1.5".to_string(),
    }));
    for value in [
        Value::Null,
        Value::from_i64(-3),
        real,
        Value::build_text("hi".to_string()),
        Value::from_slice(&[1, 2]),
    ] {
        let back = ExtValue::from_value_ref(&value.as_value_ref())
            .into_value()
            .unwrap();
        assert_eq!(format!("{back:?}"), format!("{value:?}"));
    }
    let json = Value::text_with_subtype("{}".to_string(), 74);
    assert_eq!(ExtValue::from_value_ref(&json.as_value_ref()).subtype(), 74);
    assert_eq!(
        failure(
            ExtValue::error_with_message("bad".to_string())
                .into_value()
                .unwrap_err()
        ),
        "bad"
    );
}

#[test]
fn arguments_cross_with_the_subtype_of_the_call() {
    let tag = ValueTag::from_subtype(9);
    let one = Value::from_i64(1);
    let json = Value::text_with_subtype("{}".to_string(), 74);
    let args = [one.as_value_ref(), json.as_value_ref(), ValueRef::Null];
    let tags = [Some(&tag), None, None];
    let ctx: Ctx<'_> = FunctionContext::new(&())
        .with_args(&args)
        .with_arg_tags(&tags);
    let subtypes: Vec<u8> = to_ext_values(&ctx, &args)
        .iter()
        .map(|v| v.subtype())
        .collect();
    assert_eq!(subtypes, vec![9, 74, 0]);
}

#[test]
fn a_scalar_of_an_extension_is_called_with_copies() {
    let runs = Arc::new(AtomicUsize::new(0));
    let adapter = ExtScalarAdapter::new(
        CONTEXT,
        |context: usize, argc: i32, args: &Vec<ExtValue>| {
            assert_eq!(context, CONTEXT);
            assert_eq!(argc, args.len() as i32);
            let sum = args.iter().map(integer_of).sum();
            ext(ExtPayload::Integer(sum)).with_subtype(33)
        },
        Some(Counts(runs.clone())),
    );
    let values = [Value::from_i64(2), Value::from_i64(3)];
    let args: Vec<ValueRef<'_>> = values.iter().map(|v| v.as_value_ref()).collect();
    let mut ctx: Ctx<'_> = FunctionContext::new(&());
    assert_eq!(total_of(adapter.call(&mut ctx, &args).unwrap()), 5);
    assert!(
        ctx.take_result_tag().is_none(),
        "the first version of the interface has no subtypes"
    );

    let adapter = adapter.with_abi_version(FIRST_ABI_VERSION_WITH_SUBTYPES);
    adapter.call(&mut ctx, &args).unwrap();
    assert_eq!(ctx.take_result_tag().unwrap().subtype(), 33);
    assert_eq!(runs.load(Ordering::SeqCst), 0);
    drop(adapter);
    assert_eq!(runs.load(Ordering::SeqCst), 1);
}

#[test]
fn the_failure_of_an_extension_fails_the_call() {
    let adapter: ExtScalarAdapter<Counts, _> = ExtScalarAdapter::new(
        CONTEXT,
        |_context: usize, _argc: i32, _args: &Vec<ExtValue>| {
            ExtValue::error_with_message("refused".to_string())
        },
        None,
    );
    let mut ctx: Ctx<'_> = FunctionContext::new(&());
    assert_eq!(failure(adapter.call(&mut ctx, &[]).unwrap_err()), "refused");
}

#[test]
fn a_callback_may_leave_its_result_in_place() {
    let adapter: ExtScalarPtrAdapter<Counts, _> = ExtScalarPtrAdapter::new(
        CONTEXT,
        |_context: usize, _argc: i32, args: &Vec<ExtValue>, result: &mut ExtValue| {
            if !args.is_empty() {
                *result = ext(ExtPayload::Integer(args[0].subtype() as i64)).with_subtype(5);
            }
        },
        None,
    );
    let tag = ValueTag::from_subtype(9);
    let args = [ValueRef::Null];
    let tags = [Some(&tag)];
    let mut ctx: Ctx<'_> = FunctionContext::new(&())
        .with_args(&args)
        .with_arg_tags(&tags);
    assert_eq!(total_of(adapter.call(&mut ctx, &args).unwrap()), 9);
    assert!(ctx.take_result_tag().is_none());
    assert!(matches!(adapter.call(&mut ctx, &[]), Ok(Value::Null)));
}

/// Accumulators by address; each is handed back when its guard drops.
#[derive(Clone, Default)]
struct Memory {
    totals: Arc<Mutex<Vec<i64>>>,
    freed: Arc<AtomicUsize>,
}

impl Memory {
    fn make(&self) -> Option<(usize, Counts)> {
        let mut totals = self.totals.lock().unwrap();
        totals.push(0);
        Some((totals.len() - 1, Counts(self.freed.clone())))
    }

    fn add(&self, state: usize, sign: i64, args: &[ExtValue]) -> ExtValue {
        let x = integer_of(&args[0]);
        if x == 99 {
            return ExtValue::error_with_message("no 99".to_string());
        }
        self.totals.lock().unwrap()[state] += sign * x;
        ExtValue::null()
    }

    fn read(&self, state: usize) -> ExtValue {
        ext(ExtPayload::Integer(self.totals.lock().unwrap()[state])).with_subtype(8)
    }
}

type Step = Box<dyn Fn(usize, usize, i32, &Vec<ExtValue>) -> ExtValue + Send + Sync>;
type Read = Box<dyn Fn(usize, usize) -> ExtValue + Send + Sync>;
type Init = Box<dyn Fn(usize) -> Option<(usize, Counts)> + Send + Sync>;
type Summing = ExtAggregateAdapter<Counts, Counts, Init, Step, Read>;

fn step_with(memory: &Memory, sign: i64) -> Step {
    let memory = memory.clone();
    Box::new(move |context, state, argc, args| {
        assert_eq!((context, argc), (CONTEXT, 1));
        memory.add(state, sign, args)
    })
}

fn read_with(memory: &Memory) -> Read {
    let memory = memory.clone();
    Box::new(move |_context, state| memory.read(state))
}

fn init_with(memory: &Memory) -> Init {
    let memory = memory.clone();
    Box::new(move |_context| memory.make())
}

fn windowed(memory: &Memory) -> Summing {
    ExtAggregateAdapter::new_window(
        CONTEXT,
        init_with(memory),
        step_with(memory, 1),
        read_with(memory),
        read_with(memory),
        step_with(memory, -1),
        None,
    )
}

fn steps<S: AggregateState<(), String>>(state: &mut S, rows: &[i64]) {
    let mut ctx: Ctx<'_> = FunctionContext::new(&());
    for x in rows {
        state
            .step(&mut ctx, &[Value::from_i64(*x).as_value_ref()])
            .unwrap();
    }
}

#[test]
fn an_aggregate_of_an_extension_hands_its_accumulator_back_once() {
    let memory = Memory::default();
    let adapter = windowed(&memory).with_abi_version(2);
    assert!(adapter.can_window());
    let mut ctx: Ctx<'_> = FunctionContext::new(&());
    let mut state = adapter.new_state().unwrap();
    steps(&mut state, &[1, 2, 3]);
    state
        .inverse(&mut ctx, &[Value::from_i64(1).as_value_ref()])
        .unwrap();
    assert_eq!(total_of(state.value(&mut ctx).unwrap()), 5);
    assert_eq!(ctx.take_result_tag().unwrap().subtype(), 8);
    assert_eq!(memory.freed.load(Ordering::SeqCst), 0);
    assert_eq!(total_of(Box::new(state).finalize(&mut ctx).unwrap()), 5);
    assert_eq!(memory.freed.load(Ordering::SeqCst), 1);

    let unused = adapter.init(&mut ctx).unwrap();
    drop(unused);
    assert_eq!(memory.freed.load(Ordering::SeqCst), 2, "never finalized");
}

#[test]
fn a_failed_step_ends_the_aggregate() {
    let memory = Memory::default();
    let mut ctx: Ctx<'_> = FunctionContext::new(&());
    let mut state: ExtAggState<Counts, Step, Read> = windowed(&memory).new_state().unwrap();
    let ninety_nine = Value::from_i64(99);
    let bad = [ninety_nine.as_value_ref()];
    assert_eq!(failure(state.step(&mut ctx, &bad).unwrap_err()), "no 99");
    assert_eq!(memory.freed.load(Ordering::SeqCst), 1);
    assert!(!state.destroy());
    assert_eq!(
        failure(state.step(&mut ctx, &bad).unwrap_err()),
        "extension aggregate stepped after it was finalized"
    );
    assert_eq!(
        failure(state.inverse(&mut ctx, &bad).unwrap_err()),
        "extension aggregate inverse-stepped after it was finalized"
    );
    assert_eq!(
        failure(state.value(&mut ctx).unwrap_err()),
        "extension aggregate read after it was finalized"
    );
    assert_eq!(
        failure(Box::new(state).finalize(&mut ctx).unwrap_err()),
        "extension aggregate finalized twice"
    );
    assert_eq!(memory.freed.load(Ordering::SeqCst), 1);
}

#[test]
fn an_aggregate_without_window_callbacks_cannot_be_read_early() {
    let memory = Memory::default();
    let adapter: Summing = ExtAggregateAdapter::new(
        CONTEXT,
        init_with(&memory),
        step_with(&memory, 1),
        read_with(&memory),
        None,
    );
    assert!(!adapter.can_window());
    let mut ctx: Ctx<'_> = FunctionContext::new(&());
    let mut state = adapter.new_state().unwrap();
    assert_eq!(
        failure(state.value(&mut ctx).unwrap_err()),
        "extension aggregate has no xValue callback"
    );
    assert_eq!(
        failure(state.inverse(&mut ctx, &[]).unwrap_err()),
        "extension aggregate has no xInverse callback"
    );
    assert!(state.destroy());
}

#[test]
fn an_extension_must_make_an_accumulator() {
    let memory = Memory::default();
    let none: Init = Box::new(|_context| None);
    let adapter: Summing = ExtAggregateAdapter::new(
        CONTEXT,
        none,
        step_with(&memory, 1),
        read_with(&memory),
        None,
    );
    let mut ctx: Ctx<'_> = FunctionContext::new(&());
    assert_eq!(
        failure(adapter.init(&mut ctx).err().unwrap()),
        "aggregate init returned a null accumulator"
    );
}

type PtrStep = Box<dyn Fn(usize, usize, i32, &Vec<ExtValue>, &mut ExtValue) + Send + Sync>;
type PtrRead = Box<dyn Fn(usize, usize, &mut ExtValue) + Send + Sync>;

fn ptr_step(memory: &Memory, sign: i64) -> PtrStep {
    let memory = memory.clone();
    Box::new(move |_context, state, _argc, args, result| {
        let answer = memory.add(state, sign, args);
        if let ExtPayload::Error(_) = answer.payload {
            *result = answer;
        }
    })
}

fn ptr_read(memory: &Memory) -> PtrRead {
    let memory = memory.clone();
    Box::new(move |_context, state, result| *result = memory.read(state))
}

fn ptr_adapter(
    memory: &Memory,
    window: bool,
) -> ExtAggregatePtrAdapter<Counts, Counts, Init, PtrStep, PtrRead> {
    let callbacks = if window {
        Some((ptr_read(memory), ptr_step(memory, -1)))
    } else {
        None
    };
    ExtAggregatePtrAdapter::new(
        CONTEXT,
        init_with(memory),
        ptr_step(memory, 1),
        ptr_read(memory),
        callbacks,
        None,
    )
}

#[test]
fn an_aggregate_may_leave_its_results_in_place() {
    let memory = Memory::default();
    let mut ctx: Ctx<'_> = FunctionContext::new(&());
    let adapter = ptr_adapter(&memory, true);
    assert!(adapter.can_window());
    let mut state: ExtAggPtrState<Counts, PtrStep, PtrRead> = adapter.new_state().unwrap();
    steps(&mut state, &[4, 5]);
    state
        .inverse(&mut ctx, &[Value::from_i64(4).as_value_ref()])
        .unwrap();
    assert_eq!(total_of(state.value(&mut ctx).unwrap()), 5);
    assert_eq!(total_of(Box::new(state).finalize(&mut ctx).unwrap()), 5);
    assert!(ctx.take_result_tag().is_none());
    assert_eq!(memory.freed.load(Ordering::SeqCst), 1);

    let mut state = ptr_adapter(&memory, false).new_state().unwrap();
    assert_eq!(
        failure(state.value(&mut ctx).unwrap_err()),
        "extension aggregate has no xValue callback"
    );
    assert_eq!(
        failure(state.inverse(&mut ctx, &[]).unwrap_err()),
        "extension aggregate has no xInverse callback"
    );
    let ninety_nine = Value::from_i64(99);
    let bad = [ninety_nine.as_value_ref()];
    assert_eq!(failure(state.step(&mut ctx, &bad).unwrap_err()), "no 99");
    assert_eq!(
        failure(state.step(&mut ctx, &bad).unwrap_err()),
        "extension aggregate stepped after it was finalized"
    );
    assert!(!state.destroy());
    assert_eq!(
        failure(Box::new(state).finalize(&mut ctx).unwrap_err()),
        "extension aggregate finalized twice"
    );
}

/// Steps two groups of one aggregate in turn and finishes both.
fn two_groups<F: AggregateFunction<(), String>>(function: &F) -> (i64, i64) {
    let mut ctx: Ctx<'_> = FunctionContext::new(&());
    let mut odd = function.init(&mut ctx).unwrap();
    let mut even = function.init(&mut ctx).unwrap();
    for x in [1, 2, 3, 4] {
        let value = Value::from_i64(x);
        let group = if x % 2 == 1 { &mut odd } else { &mut even };
        group.step(&mut ctx, &[value.as_value_ref()]).unwrap();
    }
    let even = total_of(even.finalize(&mut ctx).unwrap());
    (total_of(odd.finalize(&mut ctx).unwrap()), even)
}

#[test]
fn two_groups_of_an_extension_keep_apart() {
    let memory = Memory::default();
    assert_eq!(two_groups(&windowed(&memory)), (4, 6));
    assert_eq!(memory.freed.load(Ordering::SeqCst), 2);
    assert_eq!(two_groups(&ptr_adapter(&memory, false)), (4, 6));
    assert_eq!(memory.freed.load(Ordering::SeqCst), 4);
}

#[test]
fn a_callback_that_writes_nothing_leaves_null() {
    let memory = Memory::default();
    let (address, _guard) = memory.make().unwrap();
    let args = vec![ext(ExtPayload::Integer(6))];
    let stepped = run_ptr_step(&ptr_step(&memory, 1), CONTEXT, address, 1, &args);
    assert!(matches!(stepped.payload, ExtPayload::Null));
    let read = run_ptr_final(&ptr_read(&memory), CONTEXT, address);
    assert_eq!((integer_of(&read), read.subtype()), (6, 8));
}

/// An aggregate that implements nothing it does not have to.
struct Count;

impl AggFunc for Count {
    type State = i64;
    type Error = String;
    const NAME: &'static str = "mycount";
    const ARGS: i32 = 1;

    fn step(state: &mut i64, _args: &Vec<ExtValue>) {
        *state += 1;
    }

    fn finalize(state: i64) -> Result<ExtValue, String> {
        Ok(ext(ExtPayload::Integer(state)))
    }
}

struct Twice;

impl ScalarFunc for Twice {
    type State = i64;
    const NAME: &'static str = "twice";

    fn init() -> i64 {
        2
    }

    fn call(state: &i64, args: &Vec<ExtValue>) -> ExtValue {
        ext(ExtPayload::Integer(state * integer_of(&args[0])))
    }
}

#[test]
fn what_an_extension_need_not_implement() {
    let mut state = 0;
    Count::step(&mut state, &vec![]);
    Count::inverse(&mut state, &vec![]);
    assert_eq!(state, 1);
    assert!(!Count::WINDOW);
    let refused = Count::value(&state).unwrap();
    assert!(matches!(
        refused.payload,
        ExtPayload::Error(m) if m == "mycount() may not be used as a window function"
    ));
    assert!(matches!(
        not_a_window_aggregate("f").payload,
        ExtPayload::Error(_)
    ));
    assert_eq!(integer_of(&Count::finalize(state).unwrap()), 1);

    assert_eq!(Twice::ARGC, -1);
    assert!(Twice::ALIAS.is_none());
    assert!(!Twice::DETERMINISTIC);
    let four = Twice::call(&Twice::init(), &vec![ext(ExtPayload::Integer(2))]);
    assert_eq!(integer_of(&four), 4);
}
