//! What functions written in Java are called with and what becomes of what they return, said of
//! arguments, states and results.

use vstd::prelude::*;

use crate::context::FunctionContext;
use crate::error::{LimboError, Result};
use crate::flags::FunctionFlags;
use crate::function::{AggregateFunction, AggregateState, ScalarFunction};
use crate::java::{
    function_flags, local_refs_needed, take_exception_message, JavaAggregate,
    JavaAggregateFunction, JavaAggregateState, JavaMethod, JavaObject, JavaOutcome,
    JavaScalarFunction, Thrown, UdfError,
};
use crate::turns::{Call, Turn};
use crate::value::{Numeric, Value, ValueRef};

verus! {

/// The message a thrown exception is told with: its own, its class where it has none, and otherwise
/// that nothing is known.
pub open spec fn told(thrown: Option<Thrown>) -> Seq<char> {
    "user-defined function raised exception: "@ + (if thrown is Some && thrown->0.message is Some
        && thrown->0.message->0@.len() > 0 {
        thrown->0.message->0@
    } else if thrown is Some && thrown->0.class_name is Some {
        thrown->0.class_name->0@
    } else {
        "unknown error"@
    })
}

/// Whether a failure is code 1 with this message.
pub open spec fn failed<X>(r: Result<X>, said: Seq<char>) -> bool {
    r matches Err(LimboError::UserFunction { code, message }) && code == 1 && message@ == said
}

/// Whether a call ends with what Java did: the value of the object it returned, or an error with what
/// it threw or how it failed.
pub open spec fn ends_with(outcome: JavaOutcome<JavaObject>, r: Result<Value>) -> bool {
    match outcome {
        JavaOutcome::Threw(thrown) => failed(r, told(thrown)),
        JavaOutcome::Failed(err) => failed(
            r,
            "JNI error while calling user-defined function: "@ + err@,
        ),
        JavaOutcome::Returned(JavaObject::Null) => r matches Ok(Value::Null),
        JavaOutcome::Returned(JavaObject::Integral(i)) => r matches Ok(
            Value::Numeric(Numeric::Integer(j)),
        ) && j == i,
        JavaOutcome::Returned(JavaObject::Text(t)) => r matches Ok(Value::Text(u)) && u.value@ == t@
            && u.subtype == 0,
        JavaOutcome::Returned(JavaObject::Real(f)) => r matches Ok(
            Value::Numeric(Numeric::Float(g)),
        ) && g.bits == f.bits && g.text@ == f.text@,
        JavaOutcome::Returned(JavaObject::Boolean(b)) => r matches Ok(
            Value::Numeric(Numeric::Integer(i)),
        ) && i == (if b {
            1int
        } else {
            0
        }),
        JavaOutcome::Returned(JavaObject::Character(unit)) => r matches Ok(Value::Text(u))
            && u.subtype == 0 && u.value@.len() == 1 && u.value@[0] as u32 == (if 0xD800 <= unit
            <= 0xDFFF {
            0xFFFDu32
        } else {
            unit as u32
        }),
        JavaOutcome::Returned(JavaObject::Bytes(b)) => r matches Ok(Value::Blob(c)) && c@ == b@,
        JavaOutcome::Returned(JavaObject::Other(name)) => failed(
            r,
            "unsupported return type from user-defined function: "@ + (if name is Some {
                name->0@
            } else {
                "unknown"@
            }),
        ),
    }
}

proof fn lemma_ends_with(outcome: JavaOutcome<JavaObject>, r: Result<Value>)
    requires
        crate::java::value_settled(outcome, r),
    ensures
        ends_with(outcome, r),
{
    if let JavaOutcome::Returned(JavaObject::Character(unit)) = outcome {
        reveal_with_fuel(crate::utf16::decode_lossy, 2);
        assert(seq![unit].skip(1) =~= Seq::<u16>::empty());
        let text = crate::utf16::decode_lossy(seq![unit]);
        assert(text.len() == 1);
    }
}

/// Whether a group goes on from a step as Java left it: with the state it returned, or with the one
/// it had and the error.
pub open spec fn goes_on<T>(
    outcome: JavaOutcome<Option<T>>,
    before: Option<T>,
    after: Option<T>,
    r: Result<()>,
) -> bool {
    match outcome {
        JavaOutcome::Returned(state) => r is Ok && after == state,
        JavaOutcome::Threw(thrown) => failed(r, told(thrown)) && after == before,
        JavaOutcome::Failed(err) => failed(
            r,
            "JNI error while calling user-defined function: "@ + err@,
        ) && after == before,
    }
}

/// An exception is told with its message, or its class, or as unknown.
pub proof fn law_an_exception_is_told(thrown: Option<Thrown>, r: String)
    requires
        call_ensures(take_exception_message, (thrown,), r),
    ensures
        r@ == told(thrown),
{
}

/// A call needs room for its arguments and eight more, and its flags are those of any function.
pub proof fn law_a_call_needs_room_for_its_arguments(
    arg_count: usize,
    refs: i32,
    bits: i32,
    flags: FunctionFlags,
    any: FunctionFlags,
)
    requires
        arg_count <= i32::MAX - 8,
        call_ensures(local_refs_needed, (arg_count,), refs),
        call_ensures(function_flags, (bits,), flags),
        call_ensures(FunctionFlags::from_bits_truncate, (bits as u32,), any),
    ensures
        refs == arg_count + 8,
        flags == any,
{
}

/// A call of a scalar function calls its callback once with the arguments and ends with what it did.
pub proof fn law_a_scalar_answers_for_its_arguments<F, C, O>(
    callback: F,
    made: JavaScalarFunction<F>,
    f: &JavaScalarFunction<F>,
    ctx: &mut FunctionContext<'_, C, O>,
    args: &[ValueRef<'_>],
    r: Result<Value>,
) where F: Fn(&[ValueRef<'_>]) -> JavaOutcome<JavaObject> + Send + Sync + 'static
    requires
        call_ensures(JavaScalarFunction::<F>::new, (callback,), made),
        call_ensures(<JavaScalarFunction<F> as ScalarFunction<C, O>>::call, (f, ctx, args), r),
    ensures
        made.spec_callback() == callback,
        *final(ctx) == *old(ctx),
        exists|outcome: JavaOutcome<JavaObject>| #[trigger]
            call_ensures(f.spec_callback(), (args,), outcome) && ends_with(outcome, r),
{
    let outcome = choose|outcome: JavaOutcome<JavaObject>| #[trigger]
        call_ensures(f.spec_callback(), (args,), outcome) && crate::java::value_settled(outcome, r);
    lemma_ends_with(outcome, r);
    assert(call_ensures(f.spec_callback(), (args,), outcome));
}

/// An aggregate holds the callbacks it was made of and whether it can be a window.
pub proof fn law_an_aggregate_holds_its_callbacks<T, I, A, R, C, O>(
    init: I,
    accumulate: A,
    read: R,
    callback: JavaAggregate<T, I, A, R>,
    window: bool,
    f: JavaAggregateFunction<T, I, A, R>,
    windows: bool,
) where
    T: Send + Sync + 'static,
    I: Fn() -> JavaOutcome<Option<T>> + Send + Sync + 'static,
    A: Fn(JavaMethod, &Option<T>, &[ValueRef<'_>]) -> JavaOutcome<Option<T>>
        + Send
        + Sync
        + 'static,
    R: Fn(JavaMethod, &Option<T>) -> JavaOutcome<JavaObject> + Send + Sync + 'static,

    requires
        call_ensures(JavaAggregate::<T, I, A, R>::new, (init, accumulate, read), callback),
        call_ensures(JavaAggregateFunction::<T, I, A, R>::new, (callback, window), f),
        call_ensures(
            <JavaAggregateFunction<T, I, A, R> as AggregateFunction<C, O>>::supports_window,
            (&f,),
            windows,
        ),
    ensures
        f.spec_callback().spec_init() == init,
        f.spec_callback().spec_accumulate() == accumulate,
        f.spec_callback().spec_read() == read,
        f.spec_window() == window,
        windows == window,
{
}

/// A group starts with the state that making one returned, or fails as that did.
pub proof fn law_a_group_starts_with_what_was_made<T, I, A, R>(
    f: &JavaAggregateFunction<T, I, A, R>,
    r: Result<JavaAggregateState<T, I, A, R>>,
) where
    I: Fn() -> JavaOutcome<Option<T>> + Send + Sync + 'static,
    A: Fn(JavaMethod, &Option<T>, &[ValueRef<'_>]) -> JavaOutcome<Option<T>>
        + Send
        + Sync
        + 'static,
    R: Fn(JavaMethod, &Option<T>) -> JavaOutcome<JavaObject> + Send + Sync + 'static,

    requires
        call_ensures(JavaAggregateFunction::<T, I, A, R>::new_state, (f,), r),
    ensures
        r matches Ok(made) ==> made.spec_callback() == f.spec_callback() && made.spec_window()
            == f.spec_window(),
        exists|outcome: JavaOutcome<Option<T>>|
            {
                &&& #[trigger] call_ensures(f.spec_callback().spec_init(), (), outcome)
                &&& match outcome {
                    JavaOutcome::Returned(state) => r matches Ok(made) && made.spec_state()
                        == state,
                    JavaOutcome::Threw(thrown) => failed(r, told(thrown)),
                    JavaOutcome::Failed(err) => failed(
                        r,
                        "JNI error while calling user-defined function: "@ + err@,
                    ),
                }
            },
{
    let (outcome, first) = choose|outcome: JavaOutcome<Option<T>>, first: Result<Option<T>>|
        {
            &&& call_ensures(f.spec_callback().spec_init(), (), outcome)
            &&& #[trigger] crate::java::state_settled(outcome, first)
            &&& match (first, r) {
                (Ok(state), Ok(made)) => {
                    &&& made.spec_state() == state
                    &&& made.spec_callback() == f.spec_callback()
                    &&& made.spec_window() == f.spec_window()
                },
                (Err(e), Err(got)) => got == e,
                _ => false,
            }
        };
    assert(call_ensures(f.spec_callback().spec_init(), (), outcome));
}

proof fn lemma_goes_on<T, I, A, R>(
    callback: JavaAggregate<T, I, A, R>,
    method: JavaMethod,
    before: Option<T>,
    after: Option<T>,
    args: &[ValueRef<'_>],
    r: Result<()>,
) -> (outcome: JavaOutcome<Option<T>>) where
    I: Fn() -> JavaOutcome<Option<T>> + Send + Sync + 'static,
    A: Fn(JavaMethod, &Option<T>, &[ValueRef<'_>]) -> JavaOutcome<Option<T>>
        + Send
        + Sync
        + 'static,
    R: Fn(JavaMethod, &Option<T>) -> JavaOutcome<JavaObject> + Send + Sync + 'static,

    requires
        crate::java::accumulated(callback, method, before, after, args, r),
    ensures
        call_ensures(callback.spec_accumulate(), (method, &before, args), outcome),
        goes_on(outcome, before, after, r),
{
    let (outcome, next) = choose|outcome: JavaOutcome<Option<T>>, next: Result<Option<T>>|
        {
            &&& call_ensures(callback.spec_accumulate(), (method, &before, args), outcome)
            &&& #[trigger] crate::java::state_settled(outcome, next)
            &&& match next {
                Ok(state) => r is Ok && after == state,
                Err(e) => r == Err::<(), LimboError>(e) && after == before,
            }
        };
    outcome
}

/// A step calls the step method with the state so far and the arguments and goes on with what it
/// returned; a failure leaves the state.
pub proof fn law_a_step_goes_on_with_what_it_returned<T, I, A, R, C, O>(
    state: &mut JavaAggregateState<T, I, A, R>,
    ctx: &mut FunctionContext<'_, C, O>,
    args: &[ValueRef<'_>],
    r: Result<()>,
) where
    T: Send + Sync + 'static,
    I: Fn() -> JavaOutcome<Option<T>> + Send + Sync + 'static,
    A: Fn(JavaMethod, &Option<T>, &[ValueRef<'_>]) -> JavaOutcome<Option<T>>
        + Send
        + Sync
        + 'static,
    R: Fn(JavaMethod, &Option<T>) -> JavaOutcome<JavaObject> + Send + Sync + 'static,

    requires
        call_ensures(
            <JavaAggregateState<T, I, A, R> as AggregateState<C, O>>::step,
            (state, ctx, args),
            r,
        ),
    ensures
        *final(ctx) == *old(ctx),
        final(state).spec_callback() == old(state).spec_callback(),
        final(state).spec_window() == old(state).spec_window(),
        exists|outcome: JavaOutcome<Option<T>>|
            {
                &&& #[trigger] call_ensures(
                    old(state).spec_callback().spec_accumulate(),
                    (JavaMethod::Step, &old(state).spec_state(), args),
                    outcome,
                )
                &&& goes_on(outcome, old(state).spec_state(), final(state).spec_state(), r)
            },
{
    let outcome = lemma_goes_on(
        old(state).spec_callback(),
        JavaMethod::Step,
        old(state).spec_state(),
        final(state).spec_state(),
        args,
        r,
    );
}

/// The undoing of a step does the same with the method for it; an aggregate that is no window fails
/// and keeps its state.
pub proof fn law_an_undone_step_goes_on_with_what_it_returned<T, I, A, R, C, O>(
    state: &mut JavaAggregateState<T, I, A, R>,
    ctx: &mut FunctionContext<'_, C, O>,
    args: &[ValueRef<'_>],
    r: Result<()>,
) where
    T: Send + Sync + 'static,
    I: Fn() -> JavaOutcome<Option<T>> + Send + Sync + 'static,
    A: Fn(JavaMethod, &Option<T>, &[ValueRef<'_>]) -> JavaOutcome<Option<T>>
        + Send
        + Sync
        + 'static,
    R: Fn(JavaMethod, &Option<T>) -> JavaOutcome<JavaObject> + Send + Sync + 'static,

    requires
        call_ensures(
            <JavaAggregateState<T, I, A, R> as AggregateState<C, O>>::inverse,
            (state, ctx, args),
            r,
        ),
    ensures
        *final(ctx) == *old(ctx),
        final(state).spec_callback() == old(state).spec_callback(),
        final(state).spec_window() == old(state).spec_window(),
        !old(state).spec_window() ==> (r matches Err(LimboError::ParseError(m)) && m@
            == "aggregate may not be used as a window function"@) && *final(state) == *old(state),
        old(state).spec_window() ==> exists|outcome: JavaOutcome<Option<T>>|
            {
                &&& #[trigger] call_ensures(
                    old(state).spec_callback().spec_accumulate(),
                    (JavaMethod::Inverse, &old(state).spec_state(), args),
                    outcome,
                )
                &&& goes_on(outcome, old(state).spec_state(), final(state).spec_state(), r)
            },
{
    if old(state).spec_window() {
        let outcome = lemma_goes_on(
            old(state).spec_callback(),
            JavaMethod::Inverse,
            old(state).spec_state(),
            final(state).spec_state(),
            args,
            r,
        );
    }
}

proof fn lemma_read<T, I, A, R>(
    callback: JavaAggregate<T, I, A, R>,
    method: JavaMethod,
    state: Option<T>,
    r: Result<Value>,
) -> (outcome: JavaOutcome<JavaObject>) where
    I: Fn() -> JavaOutcome<Option<T>> + Send + Sync + 'static,
    A: Fn(JavaMethod, &Option<T>, &[ValueRef<'_>]) -> JavaOutcome<Option<T>>
        + Send
        + Sync
        + 'static,
    R: Fn(JavaMethod, &Option<T>) -> JavaOutcome<JavaObject> + Send + Sync + 'static,

    requires
        crate::java::java_read(callback, method, state, r),
    ensures
        call_ensures(callback.spec_read(), (method, &state), outcome),
        ends_with(outcome, r),
{
    let outcome = choose|outcome: JavaOutcome<JavaObject>|
        call_ensures(callback.spec_read(), (method, &state), outcome)
            && #[trigger] crate::java::value_settled(outcome, r);
    lemma_ends_with(outcome, r);
    outcome
}

/// The value of a group is what the value method returns of its state, and its result what the
/// result method does. An aggregate that is no window has no value on the way.
pub proof fn law_a_group_reads_as_its_methods_return<T, I, A, R, C, O>(
    state: &mut JavaAggregateState<T, I, A, R>,
    ctx: &mut FunctionContext<'_, C, O>,
    r: Result<Value>,
    last: Box<JavaAggregateState<T, I, A, R>>,
    end: &mut FunctionContext<'_, C, O>,
    q: Result<Value>,
) where
    T: Send + Sync + 'static,
    I: Fn() -> JavaOutcome<Option<T>> + Send + Sync + 'static,
    A: Fn(JavaMethod, &Option<T>, &[ValueRef<'_>]) -> JavaOutcome<Option<T>>
        + Send
        + Sync
        + 'static,
    R: Fn(JavaMethod, &Option<T>) -> JavaOutcome<JavaObject> + Send + Sync + 'static,

    requires
        call_ensures(
            <JavaAggregateState<T, I, A, R> as AggregateState<C, O>>::value,
            (state, ctx),
            r,
        ),
        call_ensures(
            <JavaAggregateState<T, I, A, R> as AggregateState<C, O>>::finalize,
            (last, end),
            q,
        ),
    ensures
        *final(state) == *old(state),
        *final(ctx) == *old(ctx),
        *final(end) == *old(end),
        !old(state).spec_window() ==> (r matches Err(LimboError::ParseError(m)) && m@
            == "aggregate may not be used as a window function"@),
        old(state).spec_window() ==> exists|outcome: JavaOutcome<JavaObject>|
            {
                &&& #[trigger] call_ensures(
                    old(state).spec_callback().spec_read(),
                    (JavaMethod::Value, &old(state).spec_state()),
                    outcome,
                )
                &&& ends_with(outcome, r)
            },
        exists|outcome: JavaOutcome<JavaObject>|
            {
                &&& #[trigger] call_ensures(
                    last.spec_callback().spec_read(),
                    (JavaMethod::Result, &last.spec_state()),
                    outcome,
                )
                &&& ends_with(outcome, q)
            },
{
    if old(state).spec_window() {
        let outcome = lemma_read(
            old(state).spec_callback(),
            JavaMethod::Value,
            old(state).spec_state(),
            r,
        );
    }
    let outcome = lemma_read(last.spec_callback(), JavaMethod::Result, last.spec_state(), q);
}

/// A group that is begun goes through the turns of its methods, from the state that making one
/// returned on; where that failed there is no group.
pub proof fn law_a_java_group_begins_with_what_was_made<'a, T, I, A, R, C, O>(
    f: &JavaAggregateFunction<T, I, A, R>,
    ctx: &mut FunctionContext<'_, C, O>,
    made: Result<Box<dyn AggregateState<C, O>>>,
    turns: Seq<Turn<'a, C, O>>,
) where
    T: Send + Sync + 'static,
    I: Fn() -> JavaOutcome<Option<T>> + Send + Sync + 'static,
    A: Fn(JavaMethod, &Option<T>, &[ValueRef<'_>]) -> JavaOutcome<Option<T>>
        + Send
        + Sync
        + 'static,
    R: Fn(JavaMethod, &Option<T>) -> JavaOutcome<JavaObject> + Send + Sync + 'static,

    requires
        call_ensures(
            <JavaAggregateFunction<T, I, A, R> as AggregateFunction<C, O>>::init,
            (f, ctx),
            made,
        ),
        made is Ok ==> made->Ok_0.may(turns),
    ensures
        *final(ctx) == *old(ctx),
        exists|outcome: JavaOutcome<Option<T>>|
            {
                &&& #[trigger] call_ensures(f.spec_callback().spec_init(), (), outcome)
                &&& match outcome {
                    JavaOutcome::Returned(state) => made is Ok && crate::turns::traced(
                        crate::java::java_rules(f.spec_callback(), f.spec_window()),
                        state,
                        turns,
                    ),
                    JavaOutcome::Threw(thrown) => failed(made, told(thrown)),
                    JavaOutcome::Failed(err) => failed(
                        made,
                        "JNI error while calling user-defined function: "@ + err@,
                    ),
                }
            },
{
    let (outcome, first) = choose|outcome: JavaOutcome<Option<T>>, first: Result<Option<T>>|
        {
            &&& call_ensures(f.spec_callback().spec_init(), (), outcome)
            &&& #[trigger] crate::java::state_settled(outcome, first)
            &&& match (first, made) {
                (Ok(state), Ok(_)) => forall|t: Seq<Turn<'_, C, O>>| #[trigger]
                    made->Ok_0.may(t) ==> crate::turns::traced(
                        crate::java::java_rules(f.spec_callback(), f.spec_window()),
                        state,
                        t,
                    ),
                (Err(e), Err(got)) => got == e,
                _ => false,
            }
        };
    assert(call_ensures(f.spec_callback().spec_init(), (), outcome));
}

/// Each of those turns is one call of the method for it with the state so far, and the next begins
/// with the state that is left.
pub proof fn law_a_java_turn_is_a_method<'a, T, I, A, R, C, O>(
    callback: JavaAggregate<T, I, A, R>,
    window: bool,
    a: Option<T>,
    turn: Turn<'a, C, O>,
    rest: Seq<Turn<'a, C, O>>,
) where
    T: Send + Sync + 'static,
    I: Fn() -> JavaOutcome<Option<T>> + Send + Sync + 'static,
    A: Fn(JavaMethod, &Option<T>, &[ValueRef<'_>]) -> JavaOutcome<Option<T>>
        + Send
        + Sync
        + 'static,
    R: Fn(JavaMethod, &Option<T>) -> JavaOutcome<JavaObject> + Send + Sync + 'static,

    requires
        crate::turns::traced(crate::java::java_rules(callback, window), a, seq![turn] + rest),
    ensures
        turn.after == turn.before,
        turn.call matches Call::Step { args, r } ==> exists|
            outcome: JavaOutcome<Option<T>>,
            b: Option<T>,
        |
            {
                &&& #[trigger] call_ensures(
                    callback.spec_accumulate(),
                    (JavaMethod::Step, &a, args),
                    outcome,
                )
                &&& goes_on(outcome, a, b, r)
                &&& #[trigger] crate::turns::traced(
                    crate::java::java_rules::<'a, T, I, A, R, C, O>(callback, window),
                    b,
                    rest,
                )
            },
        turn.call matches Call::Inverse { args, r } ==> window ==> exists|
            outcome: JavaOutcome<Option<T>>,
            b: Option<T>,
        |
            {
                &&& #[trigger] call_ensures(
                    callback.spec_accumulate(),
                    (JavaMethod::Inverse, &a, args),
                    outcome,
                )
                &&& goes_on(outcome, a, b, r)
                &&& #[trigger] crate::turns::traced(
                    crate::java::java_rules::<'a, T, I, A, R, C, O>(callback, window),
                    b,
                    rest,
                )
            },
        turn.call matches Call::Inverse { args, r } ==> !window ==> (r matches Err(
            LimboError::ParseError(m),
        ) && m@ == "aggregate may not be used as a window function"@) && crate::turns::traced(
            crate::java::java_rules(callback, window),
            a,
            rest,
        ),
        turn.call matches Call::Value { r } ==> {
            &&& crate::turns::traced(crate::java::java_rules(callback, window), a, rest)
            &&& !window ==> (r matches Err(LimboError::ParseError(m)) && m@
                == "aggregate may not be used as a window function"@)
            &&& window ==> exists|outcome: JavaOutcome<JavaObject>| #[trigger]
                call_ensures(callback.spec_read(), (JavaMethod::Value, &a), outcome) && ends_with(
                    outcome,
                    r,
                )
        },
        turn.call matches Call::Finalize { r } ==> rest.len() == 0 && exists|
            outcome: JavaOutcome<JavaObject>,
        | #[trigger]
            call_ensures(callback.spec_read(), (JavaMethod::Result, &a), outcome) && ends_with(
                outcome,
                r,
            ),
{
    let rules = crate::java::java_rules::<'a, T, I, A, R, C, O>(callback, window);
    crate::turns::law_turns_follow_their_rules(rules, a, turn, rest);
    match turn.call {
        Call::Step { args, r } => {
            let b = choose|b: Option<T>| #[trigger]
                crate::turns::traced(rules, b, rest) && (rules.step)(
                    a,
                    turn.before,
                    b,
                    turn.after,
                    args,
                    r,
                );
            let outcome = lemma_goes_on(callback, JavaMethod::Step, a, b, args, r);
        },
        Call::Inverse { args, r } => {
            let b = choose|b: Option<T>| #[trigger]
                crate::turns::traced(rules, b, rest) && (rules.inverse)(
                    a,
                    turn.before,
                    b,
                    turn.after,
                    args,
                    r,
                );
            if window {
                let outcome = lemma_goes_on(callback, JavaMethod::Inverse, a, b, args, r);
            }
        },
        Call::Value { r } => {
            if window {
                let outcome = lemma_read(callback, JavaMethod::Value, a, r);
            }
        },
        Call::Finalize { r } => {
            let outcome = lemma_read(callback, JavaMethod::Result, a, r);
        },
    }
}

/// A failure of a call is code 1, with what Java said or with the message as it is.
pub proof fn law_a_java_failure_is_told(e: UdfError, r: LimboError)
    requires
        call_ensures(UdfError::into_core, (e,), r),
    ensures
        match e {
            UdfError::Jni(said) => r matches LimboError::UserFunction { code, message } && code == 1
                && message@ == "JNI error while calling user-defined function: "@ + said@,
            UdfError::Message(said) => r matches LimboError::UserFunction { code, message } && code
                == 1 && message@ == said@,
        },
{
}

}
