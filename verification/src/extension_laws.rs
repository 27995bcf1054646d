//! What crosses between the engine and a loaded extension, said of the values on both sides.

use vstd::prelude::*;

use crate::context::FunctionContext;
use crate::error::{LimboError, Result};
use crate::ext_adapter::{
    run_ptr_final, run_ptr_step, ExtAggPtrState, ExtAggState, ExtAggregateAdapter,
    ExtAggregatePtrAdapter, ExtScalarAdapter, ExtScalarPtrAdapter,
};
use crate::extension::{
    not_a_window_aggregate, take_ext_result, to_ext_values, ExtPayload, ExtValue,
};
use crate::function::{AggregateFunction, AggregateState, ScalarFunction};
use crate::turns::{Call, Rules, Turn};
use crate::value::{Numeric, Value, ValueRef};

verus! {

/// The value an extension returned is the same number, the same characters or the same bytes in
/// SQL, text without a subtype inside it; its failure is an error with the message it gave.
pub proof fn law_an_extension_returns_what_it_holds(v: ExtValue, r: Result<Value>)
    requires
        call_ensures(ExtValue::into_value, (v,), r),
    ensures
        match v.payload {
            ExtPayload::Null => r matches Ok(Value::Null),
            ExtPayload::Integer(i) => r matches Ok(Value::Numeric(Numeric::Integer(j))) && j == i,
            ExtPayload::Real(f) => r matches Ok(Value::Numeric(Numeric::Float(g))) && g.bits
                == f.bits && g.text@ == f.text@,
            ExtPayload::Text(t) => r matches Ok(Value::Text(u)) && u.value@ == t@ && u.subtype == 0,
            ExtPayload::Blob(b) => r matches Ok(Value::Blob(c)) && c@ == b@,
            ExtPayload::Error(m) => r matches Err(LimboError::ExtensionError(n)) && n@ == m@,
        },
{
}

/// An argument an extension gets is the same number, the same characters or the same bytes, and the
/// subtype inside text goes beside it.
pub proof fn law_an_extension_gets_what_sql_holds(v: ValueRef<'_>, r: ExtValue)
    requires
        call_ensures(ExtValue::from_value_ref, (&v,), r),
    ensures
        match v {
            ValueRef::Null => r.payload is Null && r.subtype == 0,
            ValueRef::Numeric(Numeric::Integer(i)) => r.subtype == 0 && (
            r.payload matches ExtPayload::Integer(j) && j == *i),
            ValueRef::Numeric(Numeric::Float(f)) => r.subtype == 0 && (
            r.payload matches ExtPayload::Real(g) && g.bits == f.bits && g.text@ == f.text@),
            ValueRef::Text(t) => r.subtype == t.subtype && (r.payload matches ExtPayload::Text(u)
                && u@ == t.value@),
            ValueRef::Blob(b) => r.subtype == 0 && (r.payload matches ExtPayload::Blob(c) && c@
                == b@),
        },
{
}

/// An extension gets as many arguments as the call has, each in its own place and holding what the
/// argument there holds. Its subtype is the one the call says the argument has; where the call says
/// none, it is the one text carries inside itself.
pub proof fn law_every_argument_crosses_in_its_place<C, O>(
    ctx: &FunctionContext<'_, C, O>,
    args: &[ValueRef<'_>],
    r: Vec<ExtValue>,
    i: int,
    asked: u8,
)
    requires
        call_ensures(to_ext_values::<C, O>, (ctx, args), r),
        0 <= i < args@.len() <= usize::MAX,
        call_ensures(FunctionContext::<'_, C, O>::arg_subtype, (ctx, i as usize), asked),
    ensures
        r@.len() == args@.len(),
        match args@[i] {
            ValueRef::Null => r@[i].payload is Null,
            ValueRef::Numeric(Numeric::Integer(n)) => r@[i].payload matches ExtPayload::Integer(m)
                && m == *n,
            ValueRef::Numeric(Numeric::Float(f)) => r@[i].payload matches ExtPayload::Real(g)
                && g.bits == f.bits && g.text@ == f.text@,
            ValueRef::Text(t) => r@[i].payload matches ExtPayload::Text(u) && u@ == t.value@,
            ValueRef::Blob(b) => r@[i].payload matches ExtPayload::Blob(c) && c@ == b@,
        },
        asked != 0 ==> r@[i].subtype == asked,
        asked == 0 ==> (match args@[i] {
            ValueRef::Text(t) => r@[i].subtype == t.subtype,
            _ => r@[i].subtype == 0,
        }),
{
}

/// What the engine takes of an extension's result is that result, and a subtype with it exactly
/// when the result is kept, there is one, and the extension's version of the interface is not the
/// first, which had none. Nothing else of the call changes.
pub proof fn law_a_subtype_is_trusted_from_the_second_version_on<C, O>(
    ctx: &mut FunctionContext<'_, C, O>,
    abi_version: u32,
    keeps_result: bool,
    result: ExtValue,
    r: Result<Value>,
    alone: Result<Value>,
)
    requires
        call_ensures(take_ext_result::<C, O>, (ctx, abi_version, keeps_result, result), r),
        call_ensures(ExtValue::into_value, (result,), alone),
    ensures
        match (alone, r) {
            (Ok(v), Ok(w)) => w@ == v@,
            (Err(e), Err(f)) => f@ == e@,
            _ => false,
        },
        keeps_result && 2 <= abi_version && result.subtype != 0 ==> {
            &&& final(ctx).result_tag is Some
            &&& final(ctx).result_tag->0.spec_subtype() == result.subtype
            &&& final(ctx).result_tag->0.spec_pointer() is None
        },
        !keeps_result || abi_version < 2 || result.subtype == 0 ==> {
            final(ctx).result_tag == old(ctx).result_tag
        },
        final(ctx).connection == old(ctx).connection,
        final(ctx).args@ == old(ctx).args@,
        final(ctx).arg_tags@ == old(ctx).arg_tags@,
        final(ctx).aux == old(ctx).aux,
{
}

/// Whether an extension's value holds what an SQL value holds.
pub open spec fn carries(payload: ExtPayload, arg: ValueRef<'_>) -> bool {
    match arg {
        ValueRef::Null => payload is Null,
        ValueRef::Numeric(Numeric::Integer(n)) => payload matches ExtPayload::Integer(m) && m == *n,
        ValueRef::Numeric(Numeric::Float(f)) => payload matches ExtPayload::Real(g) && g.bits
            == f.bits && g.text@ == f.text@,
        ValueRef::Text(t) => payload matches ExtPayload::Text(u) && u@ == t.value@,
        ValueRef::Blob(b) => payload matches ExtPayload::Blob(c) && c@ == b@,
    }
}

/// Whether an extension gets the arguments of a call: as many, each in its place, with the subtype
/// that the engine's tag there has, or that text carries where there is none.
pub open spec fn carried<C, O>(
    ctx: FunctionContext<'_, C, O>,
    args: Seq<ValueRef<'_>>,
    ext: Seq<ExtValue>,
) -> bool {
    &&& ext.len() == args.len()
    &&& forall|i: int|
        0 <= i < args.len() ==> {
            let asked = if i < ctx.arg_tags@.len() && ctx.arg_tags@[i] is Some {
                ctx.arg_tags@[i]->0.spec_subtype()
            } else if i < ctx.args@.len() {
                text_subtype(ctx.args@[i])
            } else {
                0
            };
            &&& carries((#[trigger] ext[i]).payload, args[i])
            &&& asked != 0 ==> ext[i].subtype == asked
            &&& asked == 0 ==> ext[i].subtype == text_subtype(args[i])
        }
}

/// The subtype text carries inside itself, and 0 for any other value.
pub open spec fn text_subtype(v: ValueRef<'_>) -> u8 {
    match v {
        ValueRef::Text(t) => t.subtype,
        _ => 0,
    }
}

/// Whether an SQL result is what an extension's value holds.
pub open spec fn received(r: Result<Value>, payload: ExtPayload) -> bool {
    match payload {
        ExtPayload::Null => r matches Ok(Value::Null),
        ExtPayload::Integer(i) => r matches Ok(Value::Numeric(Numeric::Integer(j))) && j == i,
        ExtPayload::Real(f) => r matches Ok(Value::Numeric(Numeric::Float(g))) && g.bits == f.bits
            && g.text@ == f.text@,
        ExtPayload::Text(t) => r matches Ok(Value::Text(u)) && u.value@ == t@ && u.subtype == 0,
        ExtPayload::Blob(b) => r matches Ok(Value::Blob(c)) && c@ == b@,
        ExtPayload::Error(m) => r matches Err(LimboError::ExtensionError(n)) && n@ == m@,
    }
}

/// Whether a call's result is tagged with the subtype of an extension's value: where there is one and
/// the extension's version of the interface is not the first.
pub open spec fn tagged<C, O>(
    before: FunctionContext<'_, C, O>,
    after: FunctionContext<'_, C, O>,
    abi_version: u32,
    result: ExtValue,
) -> bool {
    if abi_version >= 2 && result.subtype != 0 {
        after.result_tag matches Some(tag) && tag.spec_subtype() == result.subtype
            && tag.spec_pointer() is None
    } else {
        after.result_tag == before.result_tag
    }
}

/// A scalar function of an extension is called once, with its own context, the number of arguments,
/// and the arguments in their order; the call's answer is what it returned for exactly those.
pub proof fn law_a_scalar_of_an_extension_answers_for_its_arguments<D, F, C, O>(
    adapter: &ExtScalarAdapter<D, F>,
    ctx: &mut FunctionContext<'_, C, O>,
    args: &[ValueRef<'_>],
    r: Result<Value>,
) where
    D: Send + Sync + 'static,
    F: Fn(usize, i32, &Vec<ExtValue>) -> ExtValue + Send + Sync + 'static,

    requires
        args@.len() <= i32::MAX,
        call_ensures(
            <ExtScalarAdapter<D, F> as ScalarFunction<C, O>>::call,
            (adapter, ctx, args),
            r,
        ),
    ensures
        exists|ext: Vec<ExtValue>, result: ExtValue|
            {
                &&& carried(*old(ctx), args@, ext@)
                &&& #[trigger] call_ensures(
                    adapter.spec_callback(),
                    (adapter.spec_context(), args@.len() as i32, &ext),
                    result,
                )
                &&& received(r, result.payload)
                &&& tagged(*old(ctx), *final(ctx), adapter.spec_abi_version(), result)
            },
{
    let (ext, result) = choose|ext: Vec<ExtValue>, result: ExtValue|
        {
            &&& crate::extension::ext_copies(*old(ctx), args@, ext@)
            &&& call_ensures(
                adapter.spec_callback(),
                (adapter.spec_context(), args@.len() as i32, &ext),
                result,
            )
            &&& crate::extension::taken(
                *old(ctx),
                *final(ctx),
                adapter.spec_abi_version(),
                true,
                result,
                r,
            )
        };
    assert(carried(*old(ctx), args@, ext@));
    assert(call_ensures(
        adapter.spec_callback(),
        (adapter.spec_context(), args@.len() as i32, &ext),
        result,
    ));
}

/// One step of a row of an extension's aggregate: while the accumulator is there, the step callback is called once with
/// the accumulator's address and the arguments in their order. Where it fails, the step fails with
/// its message and the accumulator is handed back; otherwise the accumulator stays. Once the
/// accumulator is gone every step fails and changes nothing.
pub proof fn law_a_step_of_a_row_runs_its_callback<G, S, Fi, C, O>(
    state: &mut ExtAggState<G, S, Fi>,
    ctx: &mut FunctionContext<'_, C, O>,
    args: &[ValueRef<'_>],
    r: Result<()>,
) where
    G: Send + 'static,
    S: Fn(usize, usize, i32, &Vec<ExtValue>) -> ExtValue + Send + Sync + 'static,
    Fi: Fn(usize, usize) -> ExtValue + Send + Sync + 'static,

    requires
        args@.len() <= i32::MAX,
        call_ensures(
            <ExtAggState<G, S, Fi> as AggregateState<C, O>>::step,
            (state, ctx, args),
            r,
        ),
    ensures
        old(state).spec_accumulator() is Some ==> exists|ext: Vec<ExtValue>, result: ExtValue|
            {
                &&& carried(*old(ctx), args@, ext@)
                &&& #[trigger] call_ensures(old(state).spec_step(), (old(state).spec_context(), old(state).spec_state(), args@.len() as i32, &ext), result)
                &&& match result.payload {
                    ExtPayload::Error(m) => {
                        &&& r matches Err(LimboError::ExtensionError(n)) && n@ == m@
                        &&& final(state).spec_accumulator() is None
                    },
                    _ => {
                        &&& r is Ok
                        &&& final(state).spec_accumulator() == old(state).spec_accumulator()
                    },
                }
            },
        old(state).spec_accumulator() is None ==> {
            &&& r matches Err(LimboError::ExtensionError(n)) && n@
                == "extension aggregate stepped after it was finalized"@
            &&& final(state).spec_accumulator() is None
        },
        final(ctx).result_tag == old(ctx).result_tag,
        final(ctx).connection == old(ctx).connection,
        final(ctx).args@ == old(ctx).args@,
        final(ctx).arg_tags@ == old(ctx).arg_tags@,
        final(ctx).aux == old(ctx).aux,
        final(state).spec_context() == old(state).spec_context(),
        final(state).spec_state() == old(state).spec_state(),
        final(state).spec_step() == old(state).spec_step(),
        final(state).spec_finalize() == old(state).spec_finalize(),
        final(state).spec_window() == old(state).spec_window(),
{
    if old(state).spec_accumulator() is Some {
        let (ext, result, value) = choose|ext: Vec<ExtValue>, result: ExtValue, value: Result<Value>|
            {
                &&& #[trigger] crate::extension::ext_copies(*old(ctx), args@, ext@)
                &&& (old(state).spec_calls().step)(args@.len() as i32, ext, result)
                &&& #[trigger] crate::extension::taken(
                    *old(ctx),
                    *final(ctx),
                    old(state).spec_abi_version(),
                    false,
                    result,
                    value,
                )
                &&& match value {
                    Ok(_) => r is Ok,
                    Err(e) => r == Err::<(), LimboError>(e),
                }
            };
        assert(carried(*old(ctx), args@, ext@));
        assert(call_ensures(old(state).spec_step(), (old(state).spec_context(), old(state).spec_state(), args@.len() as i32, &ext), result));
    }
}

/// The undoing of a step of an extension's aggregate does the same with the callback that undoes one, and fails without
/// touching anything where the aggregate has none.
pub proof fn law_an_undone_step_of_a_row_runs_its_callback<G, S, Fi, C, O>(
    state: &mut ExtAggState<G, S, Fi>,
    ctx: &mut FunctionContext<'_, C, O>,
    args: &[ValueRef<'_>],
    r: Result<()>,
) where
    G: Send + 'static,
    S: Fn(usize, usize, i32, &Vec<ExtValue>) -> ExtValue + Send + Sync + 'static,
    Fi: Fn(usize, usize) -> ExtValue + Send + Sync + 'static,

    requires
        args@.len() <= i32::MAX,
        call_ensures(
            <ExtAggState<G, S, Fi> as AggregateState<C, O>>::inverse,
            (state, ctx, args),
            r,
        ),
    ensures
        old(state).spec_window() is None ==> {
            &&& r matches Err(LimboError::ExtensionError(n)) && n@
                == "extension aggregate has no xInverse callback"@
            &&& final(state).spec_accumulator() == old(state).spec_accumulator()
        },
        old(state).spec_window() is Some && old(state).spec_accumulator() is None ==> {
            &&& r matches Err(LimboError::ExtensionError(n)) && n@
                == "extension aggregate inverse-stepped after it was finalized"@
            &&& final(state).spec_accumulator() is None
        },
        old(state).spec_window() is Some && old(state).spec_accumulator() is Some ==> exists|
            ext: Vec<ExtValue>,
            result: ExtValue,
        |
            {
                &&& carried(*old(ctx), args@, ext@)
                &&& #[trigger] call_ensures((old(state).spec_window()->0).1, (old(state).spec_context(), old(state).spec_state(), args@.len() as i32, &ext), result)
                &&& match result.payload {
                    ExtPayload::Error(m) => {
                        &&& r matches Err(LimboError::ExtensionError(n)) && n@ == m@
                        &&& final(state).spec_accumulator() is None
                    },
                    _ => {
                        &&& r is Ok
                        &&& final(state).spec_accumulator() == old(state).spec_accumulator()
                    },
                }
            },
        final(ctx).result_tag == old(ctx).result_tag,
        final(ctx).connection == old(ctx).connection,
        final(ctx).args@ == old(ctx).args@,
        final(ctx).arg_tags@ == old(ctx).arg_tags@,
        final(ctx).aux == old(ctx).aux,
        final(state).spec_context() == old(state).spec_context(),
        final(state).spec_state() == old(state).spec_state(),
        final(state).spec_step() == old(state).spec_step(),
        final(state).spec_finalize() == old(state).spec_finalize(),
        final(state).spec_window() == old(state).spec_window(),
{
    if old(state).spec_window() is Some && old(state).spec_accumulator() is Some {
        let inverse = (old(state).spec_calls().window->0).1;
        let (ext, result, value) = choose|ext: Vec<ExtValue>, result: ExtValue, value: Result<Value>|
            {
                &&& #[trigger] crate::extension::ext_copies(*old(ctx), args@, ext@)
                &&& inverse(args@.len() as i32, ext, result)
                &&& #[trigger] crate::extension::taken(
                    *old(ctx),
                    *final(ctx),
                    old(state).spec_abi_version(),
                    false,
                    result,
                    value,
                )
                &&& match value {
                    Ok(_) => r is Ok,
                    Err(e) => r == Err::<(), LimboError>(e),
                }
            };
        assert(carried(*old(ctx), args@, ext@));
        assert(call_ensures((old(state).spec_window()->0).1, (old(state).spec_context(), old(state).spec_state(), args@.len() as i32, &ext), result));
    }
}

/// The answer of a group of an extension's aggregate is what the final callback returned for its accumulator, and its
/// running value what the reading callback did; a group whose accumulator is gone has neither.
pub proof fn law_an_answer_of_a_row_runs_its_callback<G, S, Fi, C, O>(
    state: &mut ExtAggState<G, S, Fi>,
    last: Box<ExtAggState<G, S, Fi>>,
    ctx: &mut FunctionContext<'_, C, O>,
    end: &mut FunctionContext<'_, C, O>,
    running: Result<Value>,
    answer: Result<Value>,
) where
    G: Send + 'static,
    S: Fn(usize, usize, i32, &Vec<ExtValue>) -> ExtValue + Send + Sync + 'static,
    Fi: Fn(usize, usize) -> ExtValue + Send + Sync + 'static,

    requires
        call_ensures(<ExtAggState<G, S, Fi> as AggregateState<C, O>>::value, (state, ctx), running),
        call_ensures(<ExtAggState<G, S, Fi> as AggregateState<C, O>>::finalize, (last, end), answer),
    ensures
        *final(state) == *old(state),
        last.spec_accumulator() is Some ==> exists|result: ExtValue|
            #[trigger] call_ensures(last.spec_finalize(), (last.spec_context(), last.spec_state()), result) && received(
                answer,
                result.payload,
            ) && tagged(*old(end), *final(end), last.spec_abi_version(), result),
        last.spec_accumulator() is None ==> (answer matches Err(LimboError::ExtensionError(n)) && n@
            == "extension aggregate finalized twice"@),
        old(state).spec_window() is None ==> (running matches Err(LimboError::ExtensionError(n))
            && n@ == "extension aggregate has no xValue callback"@),
        old(state).spec_window() is Some && old(state).spec_accumulator() is None ==> (
        running matches Err(LimboError::ExtensionError(n)) && n@
            == "extension aggregate read after it was finalized"@),
        old(state).spec_window() is Some && old(state).spec_accumulator() is Some ==> exists|
            result: ExtValue,
        |
            #[trigger] call_ensures((old(state).spec_window()->0).0, (old(state).spec_context(), old(state).spec_state()), result)
                && received(running, result.payload) && tagged(
                *old(ctx),
                *final(ctx),
                old(state).spec_abi_version(),
                result,
            ),
{
    if last.spec_accumulator() is Some {
        let result = choose|result: ExtValue|
            (last.spec_calls().finalize)(result) && #[trigger] crate::extension::taken(
                *old(end),
                *final(end),
                last.spec_abi_version(),
                true,
                result,
                answer,
            );
        assert(call_ensures(last.spec_finalize(), (last.spec_context(), last.spec_state()), result));
    }
    if old(state).spec_window() is Some && old(state).spec_accumulator() is Some {
        let read = (old(state).spec_calls().window->0).0;
        let result = choose|result: ExtValue|
            read(result) && #[trigger] crate::extension::taken(
                *old(ctx),
                *final(ctx),
                old(state).spec_abi_version(),
                true,
                result,
                running,
            );
        assert(call_ensures((old(state).spec_window()->0).0, (old(state).spec_context(), old(state).spec_state()), result));
    }
}

/// One step of a row of an aggregate whose callbacks write their result: while the accumulator is there, the step callback is called once with
/// the accumulator's address and the arguments in their order. Where it fails, the step fails with
/// its message and the accumulator is handed back; otherwise the accumulator stays. Once the
/// accumulator is gone every step fails and changes nothing.
pub proof fn law_a_step_runs_a_callback_that_writes<G, S, Fi, C, O>(
    state: &mut ExtAggPtrState<G, S, Fi>,
    ctx: &mut FunctionContext<'_, C, O>,
    args: &[ValueRef<'_>],
    r: Result<()>,
) where
    G: Send + 'static,
    S: Fn(usize, usize, i32, &Vec<ExtValue>, &mut ExtValue) + Send + Sync + 'static,
    Fi: Fn(usize, usize, &mut ExtValue) + Send + Sync + 'static,

    requires
        args@.len() <= i32::MAX,
        call_ensures(
            <ExtAggPtrState<G, S, Fi> as AggregateState<C, O>>::step,
            (state, ctx, args),
            r,
        ),
    ensures
        old(state).spec_accumulator() is Some ==> exists|ext: Vec<ExtValue>, result: ExtValue|
            {
                &&& carried(*old(ctx), args@, ext@)
                &&& #[trigger] call_ensures(run_ptr_step::<S>, (&old(state).spec_step(), old(state).spec_context(), old(state).spec_state(), args@.len() as i32, &ext), result)
                &&& match result.payload {
                    ExtPayload::Error(m) => {
                        &&& r matches Err(LimboError::ExtensionError(n)) && n@ == m@
                        &&& final(state).spec_accumulator() is None
                    },
                    _ => {
                        &&& r is Ok
                        &&& final(state).spec_accumulator() == old(state).spec_accumulator()
                    },
                }
            },
        old(state).spec_accumulator() is None ==> {
            &&& r matches Err(LimboError::ExtensionError(n)) && n@
                == "extension aggregate stepped after it was finalized"@
            &&& final(state).spec_accumulator() is None
        },
        final(ctx).result_tag == old(ctx).result_tag,
        final(ctx).connection == old(ctx).connection,
        final(ctx).args@ == old(ctx).args@,
        final(ctx).arg_tags@ == old(ctx).arg_tags@,
        final(ctx).aux == old(ctx).aux,
        final(state).spec_context() == old(state).spec_context(),
        final(state).spec_state() == old(state).spec_state(),
        final(state).spec_step() == old(state).spec_step(),
        final(state).spec_finalize() == old(state).spec_finalize(),
        final(state).spec_window() == old(state).spec_window(),
{
    if old(state).spec_accumulator() is Some {
        let (ext, result, value) = choose|ext: Vec<ExtValue>, result: ExtValue, value: Result<Value>|
            {
                &&& #[trigger] crate::extension::ext_copies(*old(ctx), args@, ext@)
                &&& (old(state).spec_calls().step)(args@.len() as i32, ext, result)
                &&& #[trigger] crate::extension::taken(
                    *old(ctx),
                    *final(ctx),
                    1,
                    false,
                    result,
                    value,
                )
                &&& match value {
                    Ok(_) => r is Ok,
                    Err(e) => r == Err::<(), LimboError>(e),
                }
            };
        assert(carried(*old(ctx), args@, ext@));
        assert(call_ensures(run_ptr_step::<S>, (&old(state).spec_step(), old(state).spec_context(), old(state).spec_state(), args@.len() as i32, &ext), result));
    }
}

/// The undoing of a step of an aggregate whose callbacks write their result does the same with the callback that undoes one, and fails without
/// touching anything where the aggregate has none.
pub proof fn law_an_undone_step_runs_a_callback_that_writes<G, S, Fi, C, O>(
    state: &mut ExtAggPtrState<G, S, Fi>,
    ctx: &mut FunctionContext<'_, C, O>,
    args: &[ValueRef<'_>],
    r: Result<()>,
) where
    G: Send + 'static,
    S: Fn(usize, usize, i32, &Vec<ExtValue>, &mut ExtValue) + Send + Sync + 'static,
    Fi: Fn(usize, usize, &mut ExtValue) + Send + Sync + 'static,

    requires
        args@.len() <= i32::MAX,
        call_ensures(
            <ExtAggPtrState<G, S, Fi> as AggregateState<C, O>>::inverse,
            (state, ctx, args),
            r,
        ),
    ensures
        old(state).spec_window() is None ==> {
            &&& r matches Err(LimboError::ExtensionError(n)) && n@
                == "extension aggregate has no xInverse callback"@
            &&& final(state).spec_accumulator() == old(state).spec_accumulator()
        },
        old(state).spec_window() is Some && old(state).spec_accumulator() is None ==> {
            &&& r matches Err(LimboError::ExtensionError(n)) && n@
                == "extension aggregate inverse-stepped after it was finalized"@
            &&& final(state).spec_accumulator() is None
        },
        old(state).spec_window() is Some && old(state).spec_accumulator() is Some ==> exists|
            ext: Vec<ExtValue>,
            result: ExtValue,
        |
            {
                &&& carried(*old(ctx), args@, ext@)
                &&& #[trigger] call_ensures(run_ptr_step::<S>, (&(old(state).spec_window()->0).1, old(state).spec_context(), old(state).spec_state(), args@.len() as i32, &ext), result)
                &&& match result.payload {
                    ExtPayload::Error(m) => {
                        &&& r matches Err(LimboError::ExtensionError(n)) && n@ == m@
                        &&& final(state).spec_accumulator() is None
                    },
                    _ => {
                        &&& r is Ok
                        &&& final(state).spec_accumulator() == old(state).spec_accumulator()
                    },
                }
            },
        final(ctx).result_tag == old(ctx).result_tag,
        final(ctx).connection == old(ctx).connection,
        final(ctx).args@ == old(ctx).args@,
        final(ctx).arg_tags@ == old(ctx).arg_tags@,
        final(ctx).aux == old(ctx).aux,
        final(state).spec_context() == old(state).spec_context(),
        final(state).spec_state() == old(state).spec_state(),
        final(state).spec_step() == old(state).spec_step(),
        final(state).spec_finalize() == old(state).spec_finalize(),
        final(state).spec_window() == old(state).spec_window(),
{
    if old(state).spec_window() is Some && old(state).spec_accumulator() is Some {
        let inverse = (old(state).spec_calls().window->0).1;
        let (ext, result, value) = choose|ext: Vec<ExtValue>, result: ExtValue, value: Result<Value>|
            {
                &&& #[trigger] crate::extension::ext_copies(*old(ctx), args@, ext@)
                &&& inverse(args@.len() as i32, ext, result)
                &&& #[trigger] crate::extension::taken(
                    *old(ctx),
                    *final(ctx),
                    1,
                    false,
                    result,
                    value,
                )
                &&& match value {
                    Ok(_) => r is Ok,
                    Err(e) => r == Err::<(), LimboError>(e),
                }
            };
        assert(carried(*old(ctx), args@, ext@));
        assert(call_ensures(run_ptr_step::<S>, (&(old(state).spec_window()->0).1, old(state).spec_context(), old(state).spec_state(), args@.len() as i32, &ext), result));
    }
}

/// The answer of a group of an aggregate whose callbacks write their result is what the final callback returned for its accumulator, and its
/// running value what the reading callback did; a group whose accumulator is gone has neither.
pub proof fn law_an_answer_runs_a_callback_that_writes<G, S, Fi, C, O>(
    state: &mut ExtAggPtrState<G, S, Fi>,
    last: Box<ExtAggPtrState<G, S, Fi>>,
    ctx: &mut FunctionContext<'_, C, O>,
    end: &mut FunctionContext<'_, C, O>,
    running: Result<Value>,
    answer: Result<Value>,
) where
    G: Send + 'static,
    S: Fn(usize, usize, i32, &Vec<ExtValue>, &mut ExtValue) + Send + Sync + 'static,
    Fi: Fn(usize, usize, &mut ExtValue) + Send + Sync + 'static,

    requires
        call_ensures(<ExtAggPtrState<G, S, Fi> as AggregateState<C, O>>::value, (state, ctx), running),
        call_ensures(<ExtAggPtrState<G, S, Fi> as AggregateState<C, O>>::finalize, (last, end), answer),
    ensures
        *final(state) == *old(state),
        last.spec_accumulator() is Some ==> exists|result: ExtValue|
            #[trigger] call_ensures(run_ptr_final::<Fi>, (&last.spec_finalize(), last.spec_context(), last.spec_state()), result) && received(
                answer,
                result.payload,
            ) && final(end).result_tag == old(end).result_tag,
        last.spec_accumulator() is None ==> (answer matches Err(LimboError::ExtensionError(n)) && n@
            == "extension aggregate finalized twice"@),
        old(state).spec_window() is None ==> (running matches Err(LimboError::ExtensionError(n))
            && n@ == "extension aggregate has no xValue callback"@),
        old(state).spec_window() is Some && old(state).spec_accumulator() is None ==> (
        running matches Err(LimboError::ExtensionError(n)) && n@
            == "extension aggregate read after it was finalized"@),
        old(state).spec_window() is Some && old(state).spec_accumulator() is Some ==> exists|
            result: ExtValue,
        |
            #[trigger] call_ensures(run_ptr_final::<Fi>, (&(old(state).spec_window()->0).0, old(state).spec_context(), old(state).spec_state()), result)
                && received(running, result.payload) && final(ctx).result_tag
                == old(ctx).result_tag,
{
    if last.spec_accumulator() is Some {
        let result = choose|result: ExtValue|
            (last.spec_calls().finalize)(result) && #[trigger] crate::extension::taken(
                *old(end),
                *final(end),
                1,
                true,
                result,
                answer,
            );
        assert(call_ensures(run_ptr_final::<Fi>, (&last.spec_finalize(), last.spec_context(), last.spec_state()), result));
    }
    if old(state).spec_window() is Some && old(state).spec_accumulator() is Some {
        let read = (old(state).spec_calls().window->0).0;
        let result = choose|result: ExtValue|
            read(result) && #[trigger] crate::extension::taken(
                *old(ctx),
                *final(ctx),
                1,
                true,
                result,
                running,
            );
        assert(call_ensures(run_ptr_final::<Fi>, (&(old(state).spec_window()->0).0, old(state).spec_context(), old(state).spec_state()), result));
    }
}

/// A scalar function of an extension that writes its result is called once, on a NULL, with its own
/// context, the number of arguments, and the arguments in their order; the call's answer is what it
/// left there.
pub proof fn law_a_scalar_that_writes_answers_for_its_arguments<D, F, C, O>(
    adapter: &ExtScalarPtrAdapter<D, F>,
    ctx: &mut FunctionContext<'_, C, O>,
    args: &[ValueRef<'_>],
    r: Result<Value>,
) where
    D: Send + Sync + 'static,
    F: Fn(usize, i32, &Vec<ExtValue>, &mut ExtValue) + Send + Sync + 'static,

    requires
        args@.len() <= i32::MAX,
        call_ensures(
            <ExtScalarPtrAdapter<D, F> as ScalarFunction<C, O>>::call,
            (adapter, ctx, args),
            r,
        ),
    ensures
        exists|ext: Vec<ExtValue>, out: &mut ExtValue|
            {
                &&& carried(*old(ctx), args@, ext@)
                &&& (*out).payload is Null
                &&& #[trigger] call_ensures(
                    adapter.spec_callback(),
                    (adapter.spec_context(), args@.len() as i32, &ext, out),
                    (),
                )
                &&& received(r, (*final(out)).payload)
            },
        final(ctx).result_tag == old(ctx).result_tag,
{
}

/// The values an extension makes itself: NULL, an error with its message, a value with another
/// subtype, and the error of a window it is not.
pub proof fn law_an_extension_makes_its_values(
    none: ExtValue,
    message: String,
    error: ExtValue,
    v: ExtValue,
    subtype: u8,
    tagged: ExtValue,
    read: u8,
    name: &str,
    refusal: ExtValue,
)
    requires
        call_ensures(ExtValue::null, (), none),
        call_ensures(ExtValue::error_with_message, (message,), error),
        call_ensures(ExtValue::with_subtype, (v, subtype), tagged),
        call_ensures(ExtValue::subtype, (&tagged,), read),
        call_ensures(not_a_window_aggregate, (name,), refusal),
    ensures
        none.payload is Null && none.subtype == 0,
        error.subtype == 0 && (error.payload matches ExtPayload::Error(m) && m@ == message@),
        tagged.payload == v.payload,
        read == subtype,
        refusal.subtype == 0 && (refusal.payload matches ExtPayload::Error(m) && m@ == name@
            + "() may not be used as a window function"@),
{
}

/// A scalar of an extension holds what it was made of, of the first version until it is told another
/// one.
pub proof fn law_a_scalar_adapter_holds_what_it_was_made_of<D, F, P>(
    context: usize,
    callback: F,
    destructor: Option<D>,
    made: ExtScalarAdapter<D, F>,
    version: u32,
    told: ExtScalarAdapter<D, F>,
    writing: P,
    ptr: ExtScalarPtrAdapter<D, P>,
) where
    D: Send + Sync + 'static,
    F: Fn(usize, i32, &Vec<ExtValue>) -> ExtValue + Send + Sync + 'static,
    P: Fn(usize, i32, &Vec<ExtValue>, &mut ExtValue) + Send + Sync + 'static,

    requires
        call_ensures(ExtScalarAdapter::<D, F>::new, (context, callback, destructor), made),
        call_ensures(ExtScalarAdapter::<D, F>::with_abi_version, (made, version), told),
        call_ensures(ExtScalarPtrAdapter::<D, P>::new, (context, writing, destructor), ptr),
    ensures
        made.spec_abi_version() == 1,
        told.spec_abi_version() == version,
        told.spec_context() == context,
        told.spec_callback() == callback,
        told.spec_destructor() == destructor,
        ptr.spec_context() == context,
        ptr.spec_callback() == writing,
        ptr.spec_destructor() == destructor,
{
}

/// An aggregate of an extension holds what it was made of in the same way; it can be a window where
/// it was made as one.
pub proof fn law_an_aggregate_adapter_holds_what_it_was_made_of<D, G, I, S, Fi, C, O>(
    context: usize,
    init: I,
    step: S,
    finalize: Fi,
    value: Fi,
    inverse: S,
    destructor: Option<D>,
    plain: ExtAggregateAdapter<D, G, I, S, Fi>,
    window: ExtAggregateAdapter<D, G, I, S, Fi>,
    version: u32,
    told: ExtAggregateAdapter<D, G, I, S, Fi>,
    plain_windows: bool,
    windows: bool,
) where
    D: Send + Sync + 'static,
    G: Send + 'static,
    I: Fn(usize) -> Option<(usize, G)> + Send + Sync + 'static,
    S: Fn(usize, usize, i32, &Vec<ExtValue>) -> ExtValue + Send + Sync + 'static,
    Fi: Fn(usize, usize) -> ExtValue + Send + Sync + 'static,

    requires
        call_ensures(
            ExtAggregateAdapter::<D, G, I, S, Fi>::new,
            (context, init, step, finalize, destructor),
            plain,
        ),
        call_ensures(
            ExtAggregateAdapter::<D, G, I, S, Fi>::new_window,
            (context, init, step, finalize, value, inverse, destructor),
            window,
        ),
        call_ensures(ExtAggregateAdapter::<D, G, I, S, Fi>::with_abi_version, (window, version), told),
        call_ensures(ExtAggregateAdapter::<D, G, I, S, Fi>::can_window, (&plain,), plain_windows),
        call_ensures(
            <ExtAggregateAdapter<D, G, I, S, Fi> as AggregateFunction<C, O>>::supports_window,
            (&told,),
            windows,
        ),
    ensures
        plain.spec_context() == context,
        plain.spec_init() == init,
        plain.spec_step() == step,
        plain.spec_finalize() == finalize,
        plain.spec_destructor() == destructor,
        plain.spec_abi_version() == 1,
        window.spec_abi_version() == 1,
        !plain_windows,
        windows,
        told.spec_abi_version() == version,
        told.spec_context() == context,
        told.spec_init() == init,
        told.spec_step() == step,
        told.spec_finalize() == finalize,
        told.spec_destructor() == destructor,
        told.spec_window() matches Some(w) && w.0 == value && w.1 == inverse,
{
}

/// A group of an extension starts with the accumulator that making one gave, at its address and with
/// the callbacks of the aggregate; without one it fails. Destroying it says whether there was one.
pub proof fn law_a_group_of_an_extension_starts<D, G, I, S, Fi>(
    agg: &ExtAggregateAdapter<D, G, I, S, Fi>,
    r: Result<ExtAggState<G, S, Fi>>,
    state: &mut ExtAggState<G, S, Fi>,
    was: bool,
) where
    D: Send + Sync + 'static,
    G: Send + 'static,
    I: Fn(usize) -> Option<(usize, G)> + Send + Sync + 'static,
    S: Fn(usize, usize, i32, &Vec<ExtValue>) -> ExtValue + Send + Sync + 'static,
    Fi: Fn(usize, usize) -> ExtValue + Send + Sync + 'static,

    requires
        call_ensures(ExtAggregateAdapter::<D, G, I, S, Fi>::new_state, (agg,), r),
        call_ensures(ExtAggState::<G, S, Fi>::destroy, (state,), was),
    ensures
        exists|made: Option<(usize, G)>| #[trigger]
            call_ensures(agg.spec_init(), (agg.spec_context(),), made) && match made {
                Some(m) => r matches Ok(s) && s.spec_state() == m.0 && s.spec_accumulator() == Some(
                    m.1,
                ),
                None => r matches Err(LimboError::ExtensionError(e)) && e@
                    == "aggregate init returned a null accumulator"@,
            },
        r matches Ok(s) ==> {
            &&& s.spec_context() == agg.spec_context()
            &&& s.spec_step() == agg.spec_step()
            &&& s.spec_finalize() == agg.spec_finalize()
            &&& s.spec_window() == agg.spec_window()
            &&& s.spec_abi_version() == agg.spec_abi_version()
        },
        was <==> old(state).spec_accumulator() is Some,
        final(state).spec_accumulator() is None,
        final(state).spec_state() == old(state).spec_state(),
        final(state).spec_step() == old(state).spec_step(),
        final(state).spec_finalize() == old(state).spec_finalize(),
        final(state).spec_window() == old(state).spec_window(),
{
}

/// The same of an aggregate whose callbacks write their result.
pub proof fn law_a_group_that_writes_starts<D, G, I, S, Fi, C, O>(
    context: usize,
    init: I,
    step: S,
    finalize: Fi,
    window: Option<(Fi, S)>,
    destructor: Option<D>,
    agg: ExtAggregatePtrAdapter<D, G, I, S, Fi>,
    can: bool,
    windows: bool,
    r: Result<ExtAggPtrState<G, S, Fi>>,
    state: &mut ExtAggPtrState<G, S, Fi>,
    was: bool,
) where
    D: Send + Sync + 'static,
    G: Send + 'static,
    I: Fn(usize) -> Option<(usize, G)> + Send + Sync + 'static,
    S: Fn(usize, usize, i32, &Vec<ExtValue>, &mut ExtValue) + Send + Sync + 'static,
    Fi: Fn(usize, usize, &mut ExtValue) + Send + Sync + 'static,

    requires
        call_ensures(
            ExtAggregatePtrAdapter::<D, G, I, S, Fi>::new,
            (context, init, step, finalize, window, destructor),
            agg,
        ),
        call_ensures(ExtAggregatePtrAdapter::<D, G, I, S, Fi>::can_window, (&agg,), can),
        call_ensures(
            <ExtAggregatePtrAdapter<D, G, I, S, Fi> as AggregateFunction<C, O>>::supports_window,
            (&agg,),
            windows,
        ),
        call_ensures(ExtAggregatePtrAdapter::<D, G, I, S, Fi>::new_state, (&agg,), r),
        call_ensures(ExtAggPtrState::<G, S, Fi>::destroy, (state,), was),
    ensures
        agg.spec_context() == context,
        agg.spec_destructor() == destructor,
        can <==> window is Some,
        windows <==> window is Some,
        exists|made: Option<(usize, G)>| #[trigger]
            call_ensures(init, (context,), made) && match made {
                Some(m) => r matches Ok(s) && s.spec_state() == m.0 && s.spec_accumulator() == Some(
                    m.1,
                ),
                None => r matches Err(LimboError::ExtensionError(e)) && e@
                    == "aggregate init returned a null accumulator"@,
            },
        r matches Ok(s) ==> {
            &&& s.spec_context() == context
            &&& s.spec_step() == step
            &&& s.spec_finalize() == finalize
            &&& s.spec_window() == window
        },
        was <==> old(state).spec_accumulator() is Some,
        final(state).spec_accumulator() is None,
        final(state).spec_state() == old(state).spec_state(),
        final(state).spec_step() == old(state).spec_step(),
        final(state).spec_finalize() == old(state).spec_finalize(),
        final(state).spec_window() == old(state).spec_window(),
{
}

/// A callback that writes its result is given a NULL without a subtype to write over, and the result
/// is what it left there.
pub proof fn law_a_callback_writes_over_a_null<S, Fi>(
    step: S,
    finalize: Fi,
    context: usize,
    state: usize,
    argc: i32,
    args: &Vec<ExtValue>,
    r: ExtValue,
    q: ExtValue,
) where
    S: Fn(usize, usize, i32, &Vec<ExtValue>, &mut ExtValue),
    Fi: Fn(usize, usize, &mut ExtValue),

    requires
        call_ensures(run_ptr_step::<S>, (&step, context, state, argc, args), r),
        call_ensures(run_ptr_final::<Fi>, (&finalize, context, state), q),
    ensures
        exists|out: &mut ExtValue|
            {
                &&& (*out).payload is Null && (*out).subtype == 0
                &&& #[trigger] call_ensures(step, (context, state, argc, args, out), ())
                &&& *final(out) == r
            },
        exists|out: &mut ExtValue|
            {
                &&& (*out).payload is Null && (*out).subtype == 0
                &&& #[trigger] call_ensures(finalize, (context, state, out), ())
                &&& *final(out) == q
            },
{
}

/// Whether a row ends as its callback did: with its error, which takes the accumulator with it, or
/// well, with the accumulator there for the next.
pub open spec fn row_ends<'a, G, C, O>(
    rules: Rules<'a, Option<G>, C, O>,
    a: Option<G>,
    rest: Seq<Turn<'a, C, O>>,
    result: ExtValue,
    r: Result<()>,
) -> bool {
    match result.payload {
        ExtPayload::Error(m) => {
            &&& r matches Err(LimboError::ExtensionError(n)) && n@ == m@
            &&& crate::turns::traced(rules, None, rest)
        },
        _ => r is Ok && crate::turns::traced(rules, a, rest),
    }
}

proof fn lemma_row<'a, G, C, O>(
    call: spec_fn(i32, Vec<ExtValue>, ExtValue) -> bool,
    rules: Rules<'a, Option<G>, C, O>,
    abi_version: u32,
    a: Option<G>,
    turn: Turn<'a, C, O>,
    args: &'a [ValueRef<'a>],
    r: Result<()>,
    rest: Seq<Turn<'a, C, O>>,
) -> (found: (Vec<ExtValue>, ExtValue))
    requires
        exists|b: Option<G>| #[trigger]
            crate::turns::traced(rules, b, rest) && crate::ext_adapter::ext_stepped(
                call,
                abi_version,
                a,
                turn.before,
                b,
                turn.after,
                args@,
                r,
            ),
    ensures
        carried(turn.before, args@, found.0@),
        call(args@.len() as i32, found.0, found.1),
        row_ends(rules, a, rest, found.1, r),
{
    let b = choose|b: Option<G>| #[trigger]
        crate::turns::traced(rules, b, rest) && crate::ext_adapter::ext_stepped(
            call,
            abi_version,
            a,
            turn.before,
            b,
            turn.after,
            args@,
            r,
        );
    let (ext, result, value) = choose|ext: Vec<ExtValue>, result: ExtValue, value: Result<Value>|
        {
            &&& #[trigger] crate::extension::ext_copies(turn.before, args@, ext@)
            &&& call(args@.len() as i32, ext, result)
            &&& #[trigger] crate::extension::taken(
                turn.before,
                turn.after,
                abi_version,
                false,
                result,
                value,
            )
            &&& match value {
                Ok(_) => r is Ok,
                Err(e) => r == Err::<(), LimboError>(e),
            }
        };
    assert(carried(turn.before, args@, ext@));
    (ext, result)
}

/// A group of an extension that is begun goes through the turns of its callbacks, from the accumulator
/// that making one gave on; without one there is no group.
pub proof fn law_a_group_of_an_extension_begins_with_what_was_made<'a, D, G, I, S, Fi, C, O>(
    agg: &ExtAggregateAdapter<D, G, I, S, Fi>,
    ctx: &mut FunctionContext<'_, C, O>,
    made: Result<Box<dyn AggregateState<C, O>>>,
    turns: Seq<Turn<'a, C, O>>,
) where
    D: Send + Sync + 'static,
    G: Send + 'static,
    I: Fn(usize) -> Option<(usize, G)> + Send + Sync + 'static,
    S: Fn(usize, usize, i32, &Vec<ExtValue>) -> ExtValue + Send + Sync + 'static,
    Fi: Fn(usize, usize) -> ExtValue + Send + Sync + 'static,

    requires
        call_ensures(
            <ExtAggregateAdapter<D, G, I, S, Fi> as AggregateFunction<C, O>>::init,
            (agg, ctx),
            made,
        ),
        made is Ok ==> made->Ok_0.may(turns),
    ensures
        *final(ctx) == *old(ctx),
        exists|first: Option<(usize, G)>| #[trigger]
            call_ensures(agg.spec_init(), (agg.spec_context(),), first) && match first {
                Some(f) => made is Ok && crate::turns::traced(
                    crate::ext_adapter::ext_rules(
                        crate::ext_adapter::agg_calls(
                            agg.spec_context(),
                            f.0,
                            agg.spec_step(),
                            agg.spec_finalize(),
                            agg.spec_window(),
                        ),
                        agg.spec_abi_version(),
                    ),
                    Some(f.1),
                    turns,
                ),
                None => made matches Err(LimboError::ExtensionError(e)) && e@
                    == "aggregate init returned a null accumulator"@,
            },
{
}

/// Each of those turns is one call of the callback for it with the accumulator's address, and an
/// accumulator whose callback failed is gone for the turns behind it.
pub proof fn law_a_turn_of_an_extension_is_a_callback<'a, G, S, Fi, C, O>(
    context: usize,
    address: usize,
    step: S,
    finalize: Fi,
    window: Option<(Fi, S)>,
    abi_version: u32,
    a: Option<G>,
    turn: Turn<'a, C, O>,
    rest: Seq<Turn<'a, C, O>>,
) where
    S: Fn(usize, usize, i32, &Vec<ExtValue>) -> ExtValue + Send + Sync + 'static,
    Fi: Fn(usize, usize) -> ExtValue + Send + Sync + 'static,

    requires
        crate::turns::traced(
            crate::ext_adapter::ext_rules(
                crate::ext_adapter::agg_calls(context, address, step, finalize, window),
                abi_version,
            ),
            a,
            seq![turn] + rest,
        ),
    ensures
        ({
            let rules = crate::ext_adapter::ext_rules::<'a, G, C, O>(
                crate::ext_adapter::agg_calls(context, address, step, finalize, window),
                abi_version,
            );
            match turn.call {
                Call::Step { args, r } => if a is None {
                    &&& r matches Err(LimboError::ExtensionError(m)) && m@
                        == "extension aggregate stepped after it was finalized"@
                    &&& crate::turns::traced(rules, a, rest)
                } else {
                    exists|ext: Vec<ExtValue>, result: ExtValue|
                        {
                            &&& carried(turn.before, args@, ext@)
                            &&& #[trigger] call_ensures(step, (context, address, args@.len() as i32, &ext), result)
                            &&& row_ends(rules, a, rest, result, r)
                        }
                },
                Call::Inverse { args, r } => if window is None {
                    &&& r matches Err(LimboError::ExtensionError(m)) && m@
                        == "extension aggregate has no xInverse callback"@
                    &&& crate::turns::traced(rules, a, rest)
                } else if a is None {
                    &&& r matches Err(LimboError::ExtensionError(m)) && m@
                        == "extension aggregate inverse-stepped after it was finalized"@
                    &&& crate::turns::traced(rules, a, rest)
                } else {
                    exists|ext: Vec<ExtValue>, result: ExtValue|
                        {
                            &&& carried(turn.before, args@, ext@)
                            &&& #[trigger] call_ensures((window->0).1, (context, address, args@.len() as i32, &ext), result)
                            &&& row_ends(rules, a, rest, result, r)
                        }
                },
                Call::Value { r } => {
                    &&& crate::turns::traced(rules, a, rest)
                    &&& window is None ==> (r matches Err(LimboError::ExtensionError(m)) && m@
                        == "extension aggregate has no xValue callback"@)
                    &&& window is Some && a is None ==> (r matches Err(
                        LimboError::ExtensionError(m),
                    ) && m@ == "extension aggregate read after it was finalized"@)
                    &&& window is Some && a is Some ==> exists|result: ExtValue|
                        {
                            &&& #[trigger] call_ensures((window->0).0, (context, address), result)
                            &&& received(r, result.payload)
                            &&& tagged(turn.before, turn.after, abi_version, result)
                        }
                },
                Call::Finalize { r } => {
                    &&& rest.len() == 0
                    &&& a is None ==> (r matches Err(LimboError::ExtensionError(m)) && m@
                        == "extension aggregate finalized twice"@)
                    &&& a is Some ==> exists|result: ExtValue|
                        {
                            &&& #[trigger] call_ensures(finalize, (context, address), result)
                            &&& received(r, result.payload)
                            &&& tagged(turn.before, turn.after, abi_version, result)
                        }
                },
            }
        }),
{
    let calls = crate::ext_adapter::agg_calls(context, address, step, finalize, window);
    let rules = crate::ext_adapter::ext_rules::<'a, G, C, O>(calls, abi_version);
    crate::turns::law_turns_follow_their_rules(rules, a, turn, rest);
    match turn.call {
        Call::Step { args, r } => {
            if a is Some {
                let (ext, result) = lemma_row(calls.step, rules, abi_version, a, turn, args, r, rest);
                assert(call_ensures(step, (context, address, args@.len() as i32, &ext), result));
            }
        },
        Call::Inverse { args, r } => {
            if window is Some && a is Some {
                let (ext, result) = lemma_row(
                    (calls.window->0).1,
                    rules,
                    abi_version,
                    a,
                    turn,
                    args,
                    r,
                    rest,
                );
                assert(call_ensures((window->0).1, (context, address, args@.len() as i32, &ext), result));
            }
        },
        Call::Value { r } => {
            if window is Some && a is Some {
                let read = (calls.window->0).0;
                let result = choose|result: ExtValue|
                    read(result) && #[trigger] crate::extension::taken(
                        turn.before,
                        turn.after,
                        abi_version,
                        true,
                        result,
                        r,
                    );
                assert(call_ensures((window->0).0, (context, address), result));
            }
        },
        Call::Finalize { r } => {
            if a is Some {
                let result = choose|result: ExtValue|
                    (calls.finalize)(result) && #[trigger] crate::extension::taken(
                        turn.before,
                        turn.after,
                        abi_version,
                        true,
                        result,
                        r,
                    );
                assert(call_ensures(finalize, (context, address), result));
            }
        },
    }
}

/// The same of a group whose callbacks write their result.
pub proof fn law_a_group_that_writes_begins_with_what_was_made<'a, D, G, I, S, Fi, C, O>(
    agg: &ExtAggregatePtrAdapter<D, G, I, S, Fi>,
    ctx: &mut FunctionContext<'_, C, O>,
    made: Result<Box<dyn AggregateState<C, O>>>,
    turns: Seq<Turn<'a, C, O>>,
) where
    D: Send + Sync + 'static,
    G: Send + 'static,
    I: Fn(usize) -> Option<(usize, G)> + Send + Sync + 'static,
    S: Fn(usize, usize, i32, &Vec<ExtValue>, &mut ExtValue) + Send + Sync + 'static,
    Fi: Fn(usize, usize, &mut ExtValue) + Send + Sync + 'static,

    requires
        call_ensures(
            <ExtAggregatePtrAdapter<D, G, I, S, Fi> as AggregateFunction<C, O>>::init,
            (agg, ctx),
            made,
        ),
        made is Ok ==> made->Ok_0.may(turns),
    ensures
        *final(ctx) == *old(ctx),
        exists|first: Option<(usize, G)>| #[trigger]
            call_ensures(agg.spec_init(), (agg.spec_context(),), first) && match first {
                Some(f) => made is Ok && crate::turns::traced(
                    crate::ext_adapter::ext_rules(
                        crate::ext_adapter::agg_ptr_calls(
                            agg.spec_context(),
                            f.0,
                            agg.spec_step(),
                            agg.spec_finalize(),
                            agg.spec_window(),
                        ),
                        1,
                    ),
                    Some(f.1),
                    turns,
                ),
                None => made matches Err(LimboError::ExtensionError(e)) && e@
                    == "aggregate init returned a null accumulator"@,
            },
{
}

/// And so are its turns.
pub proof fn law_a_turn_that_writes_is_a_callback<'a, G, S, Fi, C, O>(
    context: usize,
    address: usize,
    step: S,
    finalize: Fi,
    window: Option<(Fi, S)>,
    abi_version: u32,
    a: Option<G>,
    turn: Turn<'a, C, O>,
    rest: Seq<Turn<'a, C, O>>,
) where
    S: Fn(usize, usize, i32, &Vec<ExtValue>, &mut ExtValue) + Send + Sync + 'static,
    Fi: Fn(usize, usize, &mut ExtValue) + Send + Sync + 'static,

    requires
        crate::turns::traced(
            crate::ext_adapter::ext_rules(
                crate::ext_adapter::agg_ptr_calls(context, address, step, finalize, window),
                abi_version,
            ),
            a,
            seq![turn] + rest,
        ),
    ensures
        ({
            let rules = crate::ext_adapter::ext_rules::<'a, G, C, O>(
                crate::ext_adapter::agg_ptr_calls(context, address, step, finalize, window),
                abi_version,
            );
            match turn.call {
                Call::Step { args, r } => if a is None {
                    &&& r matches Err(LimboError::ExtensionError(m)) && m@
                        == "extension aggregate stepped after it was finalized"@
                    &&& crate::turns::traced(rules, a, rest)
                } else {
                    exists|ext: Vec<ExtValue>, result: ExtValue|
                        {
                            &&& carried(turn.before, args@, ext@)
                            &&& #[trigger] call_ensures(run_ptr_step::<S>, (&step, context, address, args@.len() as i32, &ext), result)
                            &&& row_ends(rules, a, rest, result, r)
                        }
                },
                Call::Inverse { args, r } => if window is None {
                    &&& r matches Err(LimboError::ExtensionError(m)) && m@
                        == "extension aggregate has no xInverse callback"@
                    &&& crate::turns::traced(rules, a, rest)
                } else if a is None {
                    &&& r matches Err(LimboError::ExtensionError(m)) && m@
                        == "extension aggregate inverse-stepped after it was finalized"@
                    &&& crate::turns::traced(rules, a, rest)
                } else {
                    exists|ext: Vec<ExtValue>, result: ExtValue|
                        {
                            &&& carried(turn.before, args@, ext@)
                            &&& #[trigger] call_ensures(run_ptr_step::<S>, (&(window->0).1, context, address, args@.len() as i32, &ext), result)
                            &&& row_ends(rules, a, rest, result, r)
                        }
                },
                Call::Value { r } => {
                    &&& crate::turns::traced(rules, a, rest)
                    &&& window is None ==> (r matches Err(LimboError::ExtensionError(m)) && m@
                        == "extension aggregate has no xValue callback"@)
                    &&& window is Some && a is None ==> (r matches Err(
                        LimboError::ExtensionError(m),
                    ) && m@ == "extension aggregate read after it was finalized"@)
                    &&& window is Some && a is Some ==> exists|result: ExtValue|
                        {
                            &&& #[trigger] call_ensures(run_ptr_final::<Fi>, (&(window->0).0, context, address), result)
                            &&& received(r, result.payload)
                            &&& tagged(turn.before, turn.after, abi_version, result)
                        }
                },
                Call::Finalize { r } => {
                    &&& rest.len() == 0
                    &&& a is None ==> (r matches Err(LimboError::ExtensionError(m)) && m@
                        == "extension aggregate finalized twice"@)
                    &&& a is Some ==> exists|result: ExtValue|
                        {
                            &&& #[trigger] call_ensures(run_ptr_final::<Fi>, (&finalize, context, address), result)
                            &&& received(r, result.payload)
                            &&& tagged(turn.before, turn.after, abi_version, result)
                        }
                },
            }
        }),
{
    let calls = crate::ext_adapter::agg_ptr_calls(context, address, step, finalize, window);
    let rules = crate::ext_adapter::ext_rules::<'a, G, C, O>(calls, abi_version);
    crate::turns::law_turns_follow_their_rules(rules, a, turn, rest);
    match turn.call {
        Call::Step { args, r } => {
            if a is Some {
                let (ext, result) = lemma_row(calls.step, rules, abi_version, a, turn, args, r, rest);
                assert(call_ensures(run_ptr_step::<S>, (&step, context, address, args@.len() as i32, &ext), result));
            }
        },
        Call::Inverse { args, r } => {
            if window is Some && a is Some {
                let (ext, result) = lemma_row(
                    (calls.window->0).1,
                    rules,
                    abi_version,
                    a,
                    turn,
                    args,
                    r,
                    rest,
                );
                assert(call_ensures(run_ptr_step::<S>, (&(window->0).1, context, address, args@.len() as i32, &ext), result));
            }
        },
        Call::Value { r } => {
            if window is Some && a is Some {
                let read = (calls.window->0).0;
                let result = choose|result: ExtValue|
                    read(result) && #[trigger] crate::extension::taken(
                        turn.before,
                        turn.after,
                        abi_version,
                        true,
                        result,
                        r,
                    );
                assert(call_ensures(run_ptr_final::<Fi>, (&(window->0).0, context, address), result));
            }
        },
        Call::Finalize { r } => {
            if a is Some {
                let result = choose|result: ExtValue|
                    (calls.finalize)(result) && #[trigger] crate::extension::taken(
                        turn.before,
                        turn.after,
                        abi_version,
                        true,
                        result,
                        r,
                    );
                assert(call_ensures(run_ptr_final::<Fi>, (&finalize, context, address), result));
            }
        },
    }
}

}
