//! What functions written in Rust are called with and what becomes of what they return, said of
//! closures, states and results.

use vstd::prelude::*;

use crate::closures::{
    aggregate_from_fns, run_step, scalar_from_fn, ClosureAggregate, ClosureAggregateState,
    ClosureScalar,
};
use crate::context::FunctionContext;
use crate::error::{LimboError, Result};
use crate::function::{AggregateFunction, AggregateState, ScalarFunction};
use crate::rust_api;
use crate::turns::{Call, Turn};
use crate::value::{Numeric, Value, ValueRef};

verus! {

/// A scalar function made of a closure calls it, on the engine's call as it is and with the
/// arguments, and returns what it returned.
pub proof fn law_a_closure_answers_for_its_arguments<C, O, F>(
    f: F,
    made: ClosureScalar<C, O, F>,
    function: &ClosureScalar<C, O, F>,
    ctx: &mut FunctionContext<'_, C, O>,
    args: &[ValueRef<'_>],
    r: Result<Value>,
) where
    F: Fn(&mut FunctionContext<'_, C, O>, &[ValueRef<'_>]) -> Result<Value> + Send + Sync + 'static,

    requires
        call_ensures(scalar_from_fn::<C, O, F>, (f,), made),
        call_ensures(
            <ClosureScalar<C, O, F> as ScalarFunction<C, O>>::call,
            (function, ctx, args),
            r,
        ),
    ensures
        made.spec_fn() == f,
        exists|c: &mut FunctionContext<'_, C, O>|
            {
                &&& *c == *old(ctx)
                &&& *final(c) == *final(ctx)
                &&& call_ensures(function.spec_fn(), (c, args), r)
            },
{
}

/// An aggregate made of closures starts each group with what the first returns, and keeps the other
/// two for it.
pub proof fn law_closures_make_an_aggregate<S, I, St, Fin>(
    init: I,
    step: St,
    finalize: Fin,
    made: ClosureAggregate<S, I, St, Fin>,
    state: ClosureAggregateState<S, St, Fin>,
) where
    S: Send + 'static,
    I: Fn() -> S + Send + Sync + 'static,
    St: Fn(&mut S, &[ValueRef<'_>]) -> Result<()> + Send + Sync + 'static,
    Fin: Fn(S) -> Result<Value> + Send + Sync + 'static,

    requires
        call_ensures(aggregate_from_fns::<S, I, St, Fin>, (init, step, finalize), made),
        call_ensures(ClosureAggregate::<S, I, St, Fin>::new_state, (&made,), state),
    ensures
        state.spec_state() matches Some(first) && call_ensures(init, (), first),
        state.step_fn() == step,
        state.finalize_fn() == finalize,
{
}

/// A step of a group calls the closure for it on the state and the arguments, and the result is what
/// the last closure makes of the state; the engine's call is not touched.
pub proof fn law_a_group_goes_through_its_closures<S, St, Fin, C, O>(
    state: &mut ClosureAggregateState<S, St, Fin>,
    ctx: &mut FunctionContext<'_, C, O>,
    args: &[ValueRef<'_>],
    r: Result<()>,
    last: Box<ClosureAggregateState<S, St, Fin>>,
    end: &mut FunctionContext<'_, C, O>,
    q: Result<Value>,
) where
    S: Send + 'static,
    St: Fn(&mut S, &[ValueRef<'_>]) -> Result<()> + Send + Sync + 'static,
    Fin: Fn(S) -> Result<Value> + Send + Sync + 'static,

    requires
        call_ensures(
            <ClosureAggregateState<S, St, Fin> as AggregateState<C, O>>::step,
            (state, ctx, args),
            r,
        ),
        call_ensures(
            <ClosureAggregateState<S, St, Fin> as AggregateState<C, O>>::finalize,
            (last, end),
            q,
        ),
    ensures
        *final(ctx) == *old(ctx),
        *final(end) == *old(end),
        final(state).step_fn() == old(state).step_fn(),
        final(state).finalize_fn() == old(state).finalize_fn(),
        old(state).spec_state() is Some ==> final(state).spec_state() is Some && exists|s: &mut S|
            {
                &&& *s == old(state).spec_state()->0
                &&& *final(s) == final(state).spec_state()->0
                &&& call_ensures(old(state).step_fn(), (s, args), r)
            },
        last.spec_state() matches Some(t) ==> call_ensures(last.finalize_fn(), (t,), q),
{
    if old(state).spec_state() is Some {
        assert(call_ensures(
            run_step::<S, St>,
            (&old(state).step_fn(), old(state).spec_state()->0, args),
            (final(state).spec_state()->0, r),
        ));
    }
}

/// Whether an application's argument holds what an SQL value holds, text as its bytes.
pub open spec fn lent(public: rust_api::ValueRef<'_>, v: ValueRef<'_>) -> bool {
    match v {
        ValueRef::Null => public is Null,
        ValueRef::Numeric(Numeric::Integer(i)) => public matches rust_api::ValueRef::Integer(j) && j
            == *i,
        ValueRef::Numeric(Numeric::Float(f)) => public matches rust_api::ValueRef::Real(g) && g.bits
            == f.bits && g.text@ == f.text@,
        ValueRef::Text(t) => public matches rust_api::ValueRef::Text(b) && b@
            == vstd::utf8::encode_utf8(t.value@),
        ValueRef::Blob(b) => public matches rust_api::ValueRef::Blob(c) && c@ == b@,
    }
}

/// Whether an application gets the arguments of a call, each in its place.
pub open spec fn all_lent(
    public: Seq<rust_api::ValueRef<'_>>,
    args: Seq<ValueRef<'_>>,
) -> bool {
    &&& public.len() == args.len()
    &&& forall|i: int| 0 <= i < args.len() ==> lent(#[trigger] public[i], args[i])
}

/// Whether a failure is code 1 with this message.
pub open spec fn failed<T>(r: Result<T>, said: Seq<char>) -> bool {
    r matches Err(LimboError::UserFunction { code, message }) && code == 1 && message@ == said
}

/// Whether the engine gets what an application returned: the value it is, or its message.
pub open spec fn handed_back(
    public: rust_api::Result<rust_api::Value>,
    r: Result<Value>,
) -> bool {
    match public {
        Ok(rust_api::Value::Null) => r matches Ok(Value::Null),
        Ok(rust_api::Value::Integer(i)) => r matches Ok(Value::Numeric(Numeric::Integer(j))) && j
            == i,
        Ok(rust_api::Value::Real(f)) => r matches Ok(Value::Numeric(Numeric::Float(g))) && g.bits
            == f.bits && g.text@ == f.text@,
        Ok(rust_api::Value::Text(t)) => r matches Ok(Value::Text(u)) && u.value@ == t@ && u.subtype
            == 0,
        Ok(rust_api::Value::Blob(b)) => r matches Ok(Value::Blob(c)) && c@ == b@,
        Err(rust_api::Error::Misuse(m)) => failed(r, m@),
        Err(rust_api::Error::Error(m)) => failed(r, m@),
    }
}

/// Whether the engine gets of a step what an application returned: that it went well, or its
/// message.
pub open spec fn step_handed_back(public: rust_api::Result<()>, r: Result<()>) -> bool {
    match public {
        Ok(_) => r is Ok,
        Err(rust_api::Error::Misuse(m)) => failed(r, m@),
        Err(rust_api::Error::Error(m)) => failed(r, m@),
    }
}

proof fn lemma_all_lent(public: Seq<rust_api::ValueRef<'_>>, args: Seq<ValueRef<'_>>)
    requires
        rust_api::are_public(public, args),
    ensures
        all_lent(public, args),
{
    assert forall|i: int| 0 <= i < args.len() implies lent(#[trigger] public[i], args[i]) by {
        assert(rust_api::is_public(public[i], args[i]@));
    }
}

/// Single values and errors cross between the engine and an application as they are.
pub proof fn law_values_cross_as_they_are<'a, C, O>(
    v: ValueRef<'a>,
    public: rust_api::ValueRef<'a>,
    own: rust_api::Value,
    core: Value,
    ctx: &FunctionContext<'_, C, O>,
    error: rust_api::Error,
    raised: LimboError,
    line: String,
    integer: Option<&i64>,
)
    requires
        call_ensures(rust_api::to_public_value_ref, (v,), public),
        call_ensures(rust_api::to_core_value, (own,), core),
        call_ensures(rust_api::to_core_error::<C, O>, (ctx, error), raised),
        call_ensures(rust_api::Error::to_string, (&error,), line),
        call_ensures(rust_api::ValueRef::<'a>::as_integer, (&public,), integer),
    ensures
        lent(public, v),
        handed_back(Ok(own), Ok(core)),
        raised matches LimboError::UserFunction { code, message } && code == 1 && message@ == line@,
        error matches rust_api::Error::Misuse(m) ==> line@ == m@,
        error matches rust_api::Error::Error(m) ==> line@ == m@,
        public matches rust_api::ValueRef::Integer(i) ==> (integer matches Some(j) && *j == i),
        !(public is Integer) ==> integer is None,
{
}

/// A closure of an application is called with the arguments and answers for itself.
pub proof fn law_an_application_closure_answers<F>(
    f: F,
    made: rust_api::ClosureFunction<F>,
    function: &rust_api::ClosureFunction<F>,
    args: &[rust_api::ValueRef<'_>],
    r: rust_api::Result<rust_api::Value>,
) where
    F: Fn(&[rust_api::ValueRef<'_>]) -> rust_api::Result<rust_api::Value> + Send + Sync + 'static,

    requires
        call_ensures(rust_api::scalar_from_fn::<F>, (f,), made),
        call_ensures(
            <rust_api::ClosureFunction<F> as rust_api::ScalarFunction>::call,
            (function, args),
            r,
        ),
    ensures
        made.spec_fn() == f,
        call_ensures(function.spec_fn(), (args,), r),
{
}

/// A call of a scalar function of an application calls it once with the arguments, and the engine
/// gets what it returned.
pub proof fn law_an_application_answers_for_its_arguments<F: rust_api::ScalarFunction, C, O>(
    function: &rust_api::ScalarAdapter<F>,
    ctx: &mut FunctionContext<'_, C, O>,
    args: &[ValueRef<'_>],
    r: Result<Value>,
)
    requires
        call_ensures(
            <rust_api::ScalarAdapter<F> as ScalarFunction<C, O>>::call,
            (function, ctx, args),
            r,
        ),
    ensures
        *final(ctx) == *old(ctx),
        exists|public: &[rust_api::ValueRef<'_>], result: rust_api::Result<rust_api::Value>|
            {
                &&& all_lent(public@, args@)
                &&& #[trigger] call_ensures(F::call, (&function.0, public), result)
                &&& handed_back(result, r)
            },
{
    let (public, result) = choose|
        public: &[rust_api::ValueRef<'_>],
        result: rust_api::Result<rust_api::Value>,
    |
        {
            &&& #[trigger] rust_api::are_public(public@, args@)
            &&& call_ensures(F::call, (&function.0, public), result)
            &&& #[trigger] rust_api::adapted(result, r)
        };
    lemma_all_lent(public@, args@);
    assert(call_ensures(F::call, (&function.0, public), result));
}

/// A step of a group of an application calls its step on the state with the arguments, and the engine
/// gets whether it went well.
pub proof fn law_an_application_steps<S: rust_api::AggregateState, C, O>(
    state: &mut rust_api::AggregateStateAdapter<S>,
    ctx: &mut FunctionContext<'_, C, O>,
    args: &[ValueRef<'_>],
    r: Result<()>,
)
    requires
        call_ensures(
            <rust_api::AggregateStateAdapter<S> as AggregateState<C, O>>::step,
            (state, ctx, args),
            r,
        ),
    ensures
        *final(ctx) == *old(ctx),
        exists|s: &mut S, public: &[rust_api::ValueRef<'_>], result: rust_api::Result<()>|
            {
                &&& *s == old(state).0
                &&& *final(s) == final(state).0
                &&& all_lent(public@, args@)
                &&& #[trigger] call_ensures(S::step, (s, public), result)
                &&& step_handed_back(result, r)
            },
{
}

/// The undoing of a step does the same with the state's own.
pub proof fn law_an_application_undoes_steps<S: rust_api::AggregateState, C, O>(
    state: &mut rust_api::AggregateStateAdapter<S>,
    ctx: &mut FunctionContext<'_, C, O>,
    args: &[ValueRef<'_>],
    r: Result<()>,
)
    requires
        call_ensures(
            <rust_api::AggregateStateAdapter<S> as AggregateState<C, O>>::inverse,
            (state, ctx, args),
            r,
        ),
    ensures
        *final(ctx) == *old(ctx),
        exists|s: &mut S, public: &[rust_api::ValueRef<'_>], result: rust_api::Result<()>|
            {
                &&& *s == old(state).0
                &&& *final(s) == final(state).0
                &&& all_lent(public@, args@)
                &&& #[trigger] call_ensures(S::inverse, (s, public), result)
                &&& step_handed_back(result, r)
            },
{
}

/// The value of a group of an application is what its state says it is, and its result what ending
/// the state gives.
pub proof fn law_an_application_ends_a_group<S: rust_api::AggregateState, C, O>(
    state: &mut rust_api::AggregateStateAdapter<S>,
    ctx: &mut FunctionContext<'_, C, O>,
    r: Result<Value>,
    last: Box<rust_api::AggregateStateAdapter<S>>,
    end: &mut FunctionContext<'_, C, O>,
    q: Result<Value>,
)
    requires
        call_ensures(
            <rust_api::AggregateStateAdapter<S> as AggregateState<C, O>>::value,
            (state, ctx),
            r,
        ),
        call_ensures(
            <rust_api::AggregateStateAdapter<S> as AggregateState<C, O>>::finalize,
            (last, end),
            q,
        ),
    ensures
        *final(ctx) == *old(ctx),
        *final(end) == *old(end),
        *final(state) == *old(state),
        exists|result: rust_api::Result<rust_api::Value>| #[trigger]
            call_ensures(S::value, (&old(state).0,), result) && handed_back(result, r),
        exists|result: rust_api::Result<rust_api::Value>| #[trigger]
            call_ensures(S::finalize, (Box::new(last.0),), result) && handed_back(result, q),
{
}

/// Whether a call of an application's state is what a turn of the engine is: the arguments lent and
/// the result handed back.
pub open spec fn stands_for(app: rust_api::AppCall<'_>, call: Call<'_>) -> bool {
    match call {
        Call::Step { args, r } => app matches rust_api::AppCall::Step { args: public, r: q }
            && all_lent(public@, args@) && step_handed_back(q, r),
        Call::Inverse { args, r } => app matches rust_api::AppCall::Inverse { args: public, r: q }
            && all_lent(public@, args@) && step_handed_back(q, r),
        Call::Value { r } => app matches rust_api::AppCall::Value { r: q } && handed_back(q, r),
        Call::Finalize { r } => app matches rust_api::AppCall::Finalize { r: q } && handed_back(
            q,
            r,
        ),
    }
}

/// A group of an application that is begun is the state it made: whatever the engine's turns are, the
/// state goes through calls that they stand for. Where it made none the engine gets its message.
pub proof fn law_an_application_begins_a_group<'a, F: rust_api::AggregateFunction, C, O>(
    f: &rust_api::AggregateAdapter<F>,
    ctx: &mut FunctionContext<'_, C, O>,
    made: Result<Box<dyn AggregateState<C, O>>>,
    turns: Seq<Turn<'a, C, O>>,
    windows: bool,
)
    requires
        call_ensures(
            <rust_api::AggregateAdapter<F> as AggregateFunction<C, O>>::init,
            (f, ctx),
            made,
        ),
        made is Ok ==> made->Ok_0.may(turns),
        call_ensures(
            <rust_api::AggregateAdapter<F> as AggregateFunction<C, O>>::supports_window,
            (f,),
            windows,
        ),
    ensures
        call_ensures(F::supports_window, (&f.0,), windows),
        *final(ctx) == *old(ctx),
        exists|own: rust_api::Result<Box<dyn rust_api::AggregateState>>|
            {
                &&& #[trigger] call_ensures(F::init, (&f.0,), own)
                &&& own is Ok <==> made is Ok
                &&& own matches Err(e) ==> failed(made, e.text())
                &&& own is Ok ==> exists|calls: Seq<rust_api::AppCall<'_>>| #[trigger]
                    rust_api::adapted_turns(calls, turns) && own->Ok_0.may(calls)
            },
{
}

/// The calls that turns stand for are in the turns' order, one for each turn but those that were
/// refused because the state is no window; the engine's call is not touched by any.
pub proof fn law_turns_stand_for_calls<'a, 'b, C, O>(
    calls: Seq<rust_api::AppCall<'b>>,
    turn: Turn<'a, C, O>,
    rest: Seq<Turn<'a, C, O>>,
)
    requires
        rust_api::adapted_turns(calls, seq![turn] + rest),
    ensures
        turn.after == turn.before,
        ({
            ||| calls.len() > 0 && stands_for(calls[0], turn.call) && rust_api::adapted_turns(
                calls.skip(1),
                rest,
            )
            ||| rust_api::adapted_turns(calls, rest) && (match turn.call {
                Call::Inverse { args, r } => failed(
                    r,
                    "aggregate may not be used as a window function"@,
                ),
                Call::Value { r } => failed(r, "aggregate may not be used as a window function"@),
                _ => false,
            })
        }),
{
    let turns = seq![turn] + rest;
    assert(turns[0] == turn);
    assert(turns.skip(1) =~= rest);
    if calls.len() > 0 {
        match (calls[0], turn.call) {
            (rust_api::AppCall::Step { args: public, .. }, Call::Step { args, .. }) => {
                if rust_api::are_public(public@, args@) {
                    lemma_all_lent(public@, args@);
                }
            },
            (rust_api::AppCall::Inverse { args: public, .. }, Call::Inverse { args, .. }) => {
                if rust_api::are_public(public@, args@) {
                    lemma_all_lent(public@, args@);
                }
            },
            _ => {},
        }
    }
}

/// A group of closures that has no state any more fails, and no group of closures is a window.
pub proof fn law_a_group_of_closures_is_no_window<S, St, Fin, C, O>(
    state: &mut ClosureAggregateState<S, St, Fin>,
    ctx: &mut FunctionContext<'_, C, O>,
    args: &[ValueRef<'_>],
    r: Result<()>,
    last: Box<ClosureAggregateState<S, St, Fin>>,
    end: &mut FunctionContext<'_, C, O>,
    q: Result<Value>,
    read: &mut ClosureAggregateState<S, St, Fin>,
    reading: &mut FunctionContext<'_, C, O>,
    value: Result<Value>,
    undone: &mut ClosureAggregateState<S, St, Fin>,
    undoing: &mut FunctionContext<'_, C, O>,
    inverse: Result<()>,
) where
    S: Send + 'static,
    St: Fn(&mut S, &[ValueRef<'_>]) -> Result<()> + Send + Sync + 'static,
    Fin: Fn(S) -> Result<Value> + Send + Sync + 'static,

    requires
        call_ensures(
            <ClosureAggregateState<S, St, Fin> as AggregateState<C, O>>::step,
            (state, ctx, args),
            r,
        ),
        call_ensures(
            <ClosureAggregateState<S, St, Fin> as AggregateState<C, O>>::finalize,
            (last, end),
            q,
        ),
        call_ensures(
            <ClosureAggregateState<S, St, Fin> as AggregateState<C, O>>::value,
            (read, reading),
            value,
        ),
        call_ensures(
            <ClosureAggregateState<S, St, Fin> as AggregateState<C, O>>::inverse,
            (undone, undoing, args),
            inverse,
        ),
    ensures
        old(state).spec_state() is None ==> *final(state) == *old(state) && (r matches Err(
            LimboError::InternalError(m),
        ) && m@ == "the accumulator is gone"@),
        last.spec_state() is None ==> (q matches Err(LimboError::InternalError(m)) && m@
            == "the accumulator is gone"@),
        value matches Err(LimboError::ParseError(m)) && m@
            == "aggregate may not be used as a window function"@,
        inverse matches Err(LimboError::ParseError(m)) && m@
            == "aggregate may not be used as a window function"@,
{
}

}
