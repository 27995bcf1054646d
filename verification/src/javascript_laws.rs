//! What functions written in JavaScript are called with and what becomes of what they return, said of
//! arguments, totals and results.

use vstd::prelude::*;

use crate::context::FunctionContext;
use crate::error::{LimboError, Result};
use crate::function::{AggregateFunction, AggregateState, ScalarFunction};
use crate::javascript::{
    aggregate_function, scalar_function, JsAggregate, JsAggregateFunction, JsAggregateState, JsArg,
    JsCallback, JsFault, JsOwner, JsResult, JsScalarFunction, JsValue,
};
use crate::turns::{Call, Turn};
use crate::value::{Numeric, Value, ValueRef};

verus! {

/// Whether a JavaScript argument holds what an SQL value holds. Integers go as BigInts where they are
/// to be safe, and otherwise as numbers.
pub open spec fn holds(js: JsArg, v: ValueRef<'_>, safe: bool) -> bool {
    match v {
        ValueRef::Null => js is Null,
        ValueRef::Numeric(Numeric::Integer(i)) => if safe {
            js matches JsArg::BigInt(j) && j == *i
        } else {
            js matches JsArg::Number(j) && j == *i
        },
        ValueRef::Numeric(Numeric::Float(f)) => js matches JsArg::Real(g) && g.bits == f.bits
            && g.text@ == f.text@,
        ValueRef::Text(t) => js matches JsArg::Text(u) && u@ == t.value@,
        ValueRef::Blob(b) => js matches JsArg::Bytes(c) && c@ == b@,
    }
}

/// What was asked for, or the default where nothing was.
pub open spec fn asked_or(asked: Option<bool>, default: bool) -> bool {
    if asked is Some {
        asked->0
    } else {
        default
    }
}

/// Whether a function gets the arguments of a call, each in its place.
pub open spec fn all_hold(js: Seq<JsArg>, args: Seq<ValueRef<'_>>, safe: bool) -> bool {
    &&& js.len() == args.len()
    &&& forall|i: int| 0 <= i < args.len() ==> holds(#[trigger] js[i], args[i], safe)
}

/// Whether a call ends with what JavaScript returned: the value it is, NULL for nothing, and an error
/// for what is no SQL value or failed.
pub open spec fn ends_with(read: JsResult<JsValue>, what: Seq<char>, r: Result<Value>) -> bool {
    match read {
        Err(fault) => r matches Err(LimboError::SqlError(m)) && m@ == crate::javascript::fault_text(
            fault,
            what,
        ),
        Ok(JsValue::Undefined) => r matches Ok(Value::Null),
        Ok(JsValue::Null) => r matches Ok(Value::Null),
        Ok(JsValue::Number { whole: Some(i), .. }) => r matches Ok(
            Value::Numeric(Numeric::Integer(j)),
        ) && j == i,
        Ok(JsValue::Number { whole: None, number }) => r matches Ok(
            Value::Numeric(Numeric::Float(f)),
        ) && f.bits == number.bits && f.text@ == number.text@,
        Ok(JsValue::BigInt(digits)) => match crate::javascript::bigint_failure(digits@) {
            None => r matches Ok(Value::Numeric(Numeric::Integer(i))) && i
                == crate::numeric::integer_value(digits@),
            Some(why) => r matches Err(LimboError::SqlError(m)) && m@ == what + ": "@ + (
            "failed to parse BigInt: "@ + why),
        },
        Ok(JsValue::Text(t)) => r matches Ok(Value::Text(u)) && u.value@ == t@ && u.subtype == 0,
        Ok(JsValue::Boolean(b)) => r matches Ok(Value::Numeric(Numeric::Integer(i))) && i == (if b {
            1int
        } else {
            0
        }),
        Ok(JsValue::Bytes(elements)) => r matches Ok(Value::Blob(b)) && b@.len() == elements@.len()
            && (forall|i: int|
            0 <= i < b@.len() ==> (#[trigger] b@[i]) as int == elements@[i] % 256),
        Ok(JsValue::Other) => r matches Err(LimboError::SqlError(m)) && m@ == what
            + " returned an invalid value"@,
    }
}

/// Whether an error is a fault of a call.
pub open spec fn failed_by<X>(r: Result<X>, fault: JsFault, what: Seq<char>) -> bool {
    r matches Err(LimboError::SqlError(m)) && m@ == crate::javascript::fault_text(fault, what)
}

proof fn lemma_all_hold(js: Seq<JsArg>, args: Seq<ValueRef<'_>>, safe: bool)
    requires
        crate::javascript::are_js_args(js, args, safe),
    ensures
        all_hold(js, args, safe),
{
    assert forall|i: int| 0 <= i < args.len() implies holds(#[trigger] js[i], args[i], safe) by {
        assert(crate::javascript::is_js_arg(js[i], args[i]@, safe));
    }
}

proof fn lemma_ends_with(read: JsResult<JsValue>, what: Seq<char>, r: Result<Value>)
    requires
        crate::javascript::js_finished(read, what, r),
    ensures
        ends_with(read, what, r),
{
}

/// A JavaScript value is touched on the thread that made it while it is there, and deleted there.
pub proof fn law_javascript_is_touched_on_its_thread(
    owner: JsOwner,
    current: u64,
    available: bool,
    r: JsResult<()>,
    deletes: bool,
)
    requires
        call_ensures(JsOwner::value, (&owner, current, available), r),
        call_ensures(JsOwner::deletes, (&owner, current), deletes),
    ensures
        r is Ok <==> current == owner.thread && available,
        current != owner.thread ==> (r matches Err(JsFault::WrongThread)),
        current == owner.thread && !available ==> (r matches Err(JsFault::Gone)),
        deletes <==> current == owner.thread,
{
}

/// A scalar function is made of a function, and of nothing else.
pub proof fn law_a_scalar_is_made_of_a_function<F, B, P>(
    name: &str,
    is_function: bool,
    func: F,
    asked: Option<bool>,
    default: B,
    pend: P,
    r: core::result::Result<JsScalarFunction<F, B, P>, String>,
) where
    F: Fn(&Vec<JsArg>) -> JsResult<JsValue> + Send + Sync + 'static,
    B: Fn() -> bool + Send + Sync + 'static,
    P: Fn(&String) + Send + Sync + 'static,

    requires
        call_ensures(
            scalar_function::<F, B, P>,
            (name, is_function, func, asked, default, pend),
            r,
        ),
    ensures
        r is Ok <==> is_function,
        r matches Ok(f) ==> {
            &&& f.spec_func() == func
            &&& f.spec_safe_integers() == asked
            &&& f.spec_default() == default
            &&& f.spec_pend() == pend
            &&& f.spec_what() == "user-defined function "@ + name@ + "()"@
        },
        r matches Err(m) ==> m@ == "expected "@ + "the function"@ + " to be a function"@,
{
}

/// A call of a scalar function calls it once with the arguments and ends with what it returned. What
/// is no SQL value is raised in JavaScript too.
pub proof fn law_a_scalar_answers_for_its_arguments<F, B, P, C, O>(
    f: &JsScalarFunction<F, B, P>,
    ctx: &mut FunctionContext<'_, C, O>,
    args: &[ValueRef<'_>],
    r: Result<Value>,
) where
    F: Fn(&Vec<JsArg>) -> JsResult<JsValue> + Send + Sync + 'static,
    B: Fn() -> bool + Send + Sync + 'static,
    P: Fn(&String) + Send + Sync + 'static,

    requires
        call_ensures(
            <JsScalarFunction<F, B, P> as ScalarFunction<C, O>>::call,
            (f, ctx, args),
            r,
        ),
    ensures
        *final(ctx) == *old(ctx),
        exists|default: bool, js: Vec<JsArg>, read: JsResult<JsValue>|
            {
                &&& #[trigger] call_ensures(f.spec_default(), (), default)
                &&& all_hold(
                    js@,
                    args@,
                    asked_or(f.spec_safe_integers(), default),
                )
                &&& #[trigger] call_ensures(f.spec_func(), (&js,), read)
                &&& ends_with(read, f.spec_what(), r)
                &&& read matches Ok(JsValue::Other) ==> (r matches Err(LimboError::SqlError(m))
                    && call_ensures(f.spec_pend(), (&m,), ()))
            },
{
    let (default, js, read) = choose|default: bool, js: Vec<JsArg>, read: JsResult<JsValue>|
        {
            &&& call_ensures(f.spec_default(), (), default)
            &&& #[trigger] crate::javascript::are_js_args(
                js@,
                args@,
                crate::javascript::integers_safe(f.spec_safe_integers(), default),
            )
            &&& call_ensures(f.spec_func(), (&js,), read)
            &&& #[trigger] crate::javascript::js_finished(read, f.spec_what(), r)
            &&& crate::javascript::js_pended(f.spec_pend(), read, r)
        };
    lemma_all_hold(
        js@,
        args@,
        asked_or(f.spec_safe_integers(), default),
    );
    lemma_ends_with(read, f.spec_what(), r);
    assert(call_ensures(f.spec_default(), (), default));
    assert(call_ensures(f.spec_func(), (&js,), read));
}

/// An aggregate is made where its step is a function, and its undoing and its result are functions or
/// not there; otherwise it is said which is not one, the step before the undoing before the result.
pub proof fn law_an_aggregate_is_made_of_functions<T, G, A, V, B, P>(
    name: &str,
    step: bool,
    inverse: Option<bool>,
    result: Option<bool>,
    start: G,
    call: A,
    read: V,
    asked: Option<bool>,
    default: B,
    pend: P,
    r: core::result::Result<JsAggregateFunction<T, G, A, V, B, P>, String>,
) where
    G: Fn() -> JsResult<(T, bool)> + Send + Sync + 'static,
    A: Fn(JsCallback, Option<&T>, &Vec<JsArg>) -> JsResult<(T, bool)> + Send + Sync + 'static,
    V: Fn(&T) -> JsResult<JsValue> + Send + Sync + 'static,
    B: Fn() -> bool + Send + Sync + 'static,
    P: Fn(&String) + Send + Sync + 'static,

    requires
        call_ensures(
            aggregate_function::<T, G, A, V, B, P>,
            (name, step, inverse, result, start, call, read, asked, default, pend),
            r,
        ),
    ensures
        r is Ok <==> step && inverse != Some(false) && result != Some(false),
        r matches Ok(f) ==> {
            &&& f.spec_func().spec_start() == start
            &&& f.spec_func().spec_call() == call
            &&& f.spec_func().spec_read() == read
            &&& f.spec_func().spec_safe_integers() == asked
            &&& f.spec_func().spec_default() == default
            &&& f.spec_func().spec_pend() == pend
            &&& f.spec_func().spec_what() == "user-defined aggregate "@ + name@ + "()"@
            &&& f.spec_func().spec_has_inverse() <==> inverse is Some
            &&& f.spec_func().spec_has_result() <==> result is Some
        },
        r matches Err(m) ==> {
            &&& !step ==> m@ == "expected "@ + "the \"step\" option"@ + " to be a function"@
            &&& step && inverse == Some(false) ==> m@ == "expected "@ + "the \"inverse\" option"@
                + " to be a function"@
            &&& step && inverse != Some(false) ==> m@ == "expected "@ + "the \"result\" option"@
                + " to be a function"@
        },
{
}

/// A group starts with the value its start is, or with what its start returns where that is a
/// function; a failure of either is the failure of the group.
pub proof fn law_a_group_starts_with_its_start<T, G, A, V, B, P>(
    f: &JsAggregateFunction<T, G, A, V, B, P>,
    r: Result<JsAggregateState<T, G, A, V, B, P>>,
    window: bool,
) where
    G: Fn() -> JsResult<(T, bool)> + Send + Sync + 'static,
    A: Fn(JsCallback, Option<&T>, &Vec<JsArg>) -> JsResult<(T, bool)> + Send + Sync + 'static,
    V: Fn(&T) -> JsResult<JsValue> + Send + Sync + 'static,
    B: Fn() -> bool + Send + Sync + 'static,
    P: Fn(&String) + Send + Sync + 'static,

    requires
        call_ensures(JsAggregateFunction::<T, G, A, V, B, P>::new_state, (f,), r),
        call_ensures(JsAggregateFunction::<T, G, A, V, B, P>::can_window, (f,), window),
    ensures
        window == f.spec_func().spec_has_inverse(),
        r matches Ok(state) ==> state.spec_func() == f.spec_func(),
        exists|start: JsResult<(T, bool)>|
            #[trigger] call_ensures(f.spec_func().spec_start(), (), start) && match start {
                Err(fault) => failed_by(r, fault, f.spec_func().spec_what()),
                Ok((value, false)) => r matches Ok(state) && state.spec_total() == value,
                Ok((_, true)) => exists|none: Vec<JsArg>, made: JsResult<(T, bool)>|
                    {
                        &&& none@.len() == 0
                        &&& #[trigger] call_ensures(
                            f.spec_func().spec_call(),
                            (JsCallback::Start, None, &none),
                            made,
                        )
                        &&& match made {
                            Err(fault) => failed_by(r, fault, f.spec_func().spec_what()),
                            Ok((value, _)) => r matches Ok(state) && state.spec_total() == value,
                        }
                    },
            },
{
    let first = choose|first: Result<T>|
        #[trigger] crate::javascript::started(f.spec_func(), first) && match (first, r) {
            (Ok(total), Ok(state)) => state.spec_total() == total && state.spec_func()
                == f.spec_func(),
            (Err(e), Err(got)) => got == e,
            _ => false,
        };
    assert(crate::javascript::started(f.spec_func(), first));
}

/// A step calls the step of the aggregate with the total so far and the arguments. The total is then
/// what it returned, or stays where it returned nothing or failed.
pub proof fn law_a_step_goes_on_with_what_it_returned<T, G, A, V, B, P, C, O>(
    state: &mut JsAggregateState<T, G, A, V, B, P>,
    ctx: &mut FunctionContext<'_, C, O>,
    args: &[ValueRef<'_>],
    r: Result<()>,
) where
    T: Send + Sync + 'static,
    G: Fn() -> JsResult<(T, bool)> + Send + Sync + 'static,
    A: Fn(JsCallback, Option<&T>, &Vec<JsArg>) -> JsResult<(T, bool)> + Send + Sync + 'static,
    V: Fn(&T) -> JsResult<JsValue> + Send + Sync + 'static,
    B: Fn() -> bool + Send + Sync + 'static,
    P: Fn(&String) + Send + Sync + 'static,

    requires
        call_ensures(
            <JsAggregateState<T, G, A, V, B, P> as AggregateState<C, O>>::step,
            (state, ctx, args),
            r,
        ),
    ensures
        *final(ctx) == *old(ctx),
        final(state).spec_func() == old(state).spec_func(),
        exists|
            default: bool,
            js: Vec<JsArg>,
            returned: JsResult<(T, bool)>,
        |
            {
                &&& #[trigger] call_ensures(old(state).spec_func().spec_default(), (), default)
                &&& all_hold(
                    js@,
                    args@,
                    asked_or(old(state).spec_func().spec_safe_integers(), default),
                )
                &&& #[trigger] call_ensures(
                    old(state).spec_func().spec_call(),
                    (JsCallback::Step, Some(&old(state).spec_total()), &js),
                    returned,
                )
                &&& match returned {
                    Err(fault) => failed_by(r, fault, old(state).spec_func().spec_what()) && final(state).spec_total() == old(state).spec_total(),
                    Ok((_, true)) => r is Ok && final(state).spec_total() == old(state).spec_total(),
                    Ok((total, false)) => r is Ok && final(state).spec_total() == total,
                }
            },
{
    let func = old(state).spec_func();
    let (default, js, returned) = choose|
        default: bool,
        js: Vec<JsArg>,
        returned: JsResult<(T, bool)>,
    |
        {
            &&& call_ensures(func.spec_default(), (), default)
            &&& #[trigger] crate::javascript::are_js_args(
                js@,
                args@,
                crate::javascript::integers_safe(func.spec_safe_integers(), default),
            )
            &&& #[trigger] call_ensures(
                func.spec_call(),
                (JsCallback::Step, Some(&old(state).spec_total()), &js),
                returned,
            )
            &&& match returned {
                Err(fault) => r is Err && crate::javascript::is_fault(
                    r->Err_0,
                    fault,
                    func.spec_what(),
                ) && final(state).spec_total() == old(state).spec_total(),
                Ok((_, true)) => r is Ok && final(state).spec_total()
                    == old(state).spec_total(),
                Ok((total, false)) => r is Ok && final(state).spec_total() == total,
            }
        };
    lemma_all_hold(
        js@,
        args@,
        asked_or(func.spec_safe_integers(), default),
    );
    assert(call_ensures(func.spec_default(), (), default));
    assert(call_ensures(
        func.spec_call(),
        (JsCallback::Step, Some(&old(state).spec_total()), &js),
        returned,
    ));
}

/// The undoing of a step does the same with the function for it; without one it fails and leaves the
/// total.
pub proof fn law_an_undone_step_goes_on_with_what_it_returned<T, G, A, V, B, P, C, O>(
    state: &mut JsAggregateState<T, G, A, V, B, P>,
    ctx: &mut FunctionContext<'_, C, O>,
    args: &[ValueRef<'_>],
    r: Result<()>,
) where
    T: Send + Sync + 'static,
    G: Fn() -> JsResult<(T, bool)> + Send + Sync + 'static,
    A: Fn(JsCallback, Option<&T>, &Vec<JsArg>) -> JsResult<(T, bool)> + Send + Sync + 'static,
    V: Fn(&T) -> JsResult<JsValue> + Send + Sync + 'static,
    B: Fn() -> bool + Send + Sync + 'static,
    P: Fn(&String) + Send + Sync + 'static,

    requires
        call_ensures(
            <JsAggregateState<T, G, A, V, B, P> as AggregateState<C, O>>::inverse,
            (state, ctx, args),
            r,
        ),
    ensures
        *final(ctx) == *old(ctx),
        final(state).spec_func() == old(state).spec_func(),
        !old(state).spec_func().spec_has_inverse() ==> (r matches Err(LimboError::ParseError(m)) && m@
            == old(state).spec_func().spec_what() + " may not be used as a window function"@)
            && *final(state) == *old(state),
        old(state).spec_func().spec_has_inverse() ==> exists|
            default: bool,
            js: Vec<JsArg>,
            returned: JsResult<(T, bool)>,
        |
            {
                &&& #[trigger] call_ensures(old(state).spec_func().spec_default(), (), default)
                &&& all_hold(
                    js@,
                    args@,
                    asked_or(old(state).spec_func().spec_safe_integers(), default),
                )
                &&& #[trigger] call_ensures(
                    old(state).spec_func().spec_call(),
                    (JsCallback::Inverse, Some(&old(state).spec_total()), &js),
                    returned,
                )
                &&& match returned {
                    Err(fault) => failed_by(r, fault, old(state).spec_func().spec_what()) && final(state).spec_total() == old(state).spec_total(),
                    Ok((_, true)) => r is Ok && final(state).spec_total() == old(state).spec_total(),
                    Ok((total, false)) => r is Ok && final(state).spec_total() == total,
                }
            },
{
    let func = old(state).spec_func();
    if func.spec_has_inverse() {
        let (default, js, returned) = choose|
            default: bool,
            js: Vec<JsArg>,
            returned: JsResult<(T, bool)>,
        |
            {
                &&& call_ensures(func.spec_default(), (), default)
                &&& #[trigger] crate::javascript::are_js_args(
                    js@,
                    args@,
                    crate::javascript::integers_safe(func.spec_safe_integers(), default),
                )
                &&& #[trigger] call_ensures(
                    func.spec_call(),
                    (JsCallback::Inverse, Some(&old(state).spec_total()), &js),
                    returned,
                )
                &&& match returned {
                    Err(fault) => r is Err && crate::javascript::is_fault(
                        r->Err_0,
                        fault,
                        func.spec_what(),
                    ) && final(state).spec_total() == old(state).spec_total(),
                    Ok((_, true)) => r is Ok && final(state).spec_total()
                        == old(state).spec_total(),
                    Ok((total, false)) => r is Ok && final(state).spec_total() == total,
                }
            };
        lemma_all_hold(
            js@,
            args@,
            asked_or(func.spec_safe_integers(), default),
        );
        assert(call_ensures(func.spec_default(), (), default));
        assert(call_ensures(
            func.spec_call(),
            (JsCallback::Inverse, Some(&old(state).spec_total()), &js),
            returned,
        ));
    }
}

/// Whether a result is what a total reads as, which is what the result function makes of it where
/// there is one.
pub open spec fn reads_as<T, G, A, V, B, P>(
    func: JsAggregate<T, G, A, V, B, P>,
    value: T,
    r: Result<Value>,
) -> bool where
    G: Fn() -> JsResult<(T, bool)> + Send + Sync + 'static,
    A: Fn(JsCallback, Option<&T>, &Vec<JsArg>) -> JsResult<(T, bool)> + Send + Sync + 'static,
    V: Fn(&T) -> JsResult<JsValue> + Send + Sync + 'static,
    B: Fn() -> bool + Send + Sync + 'static,
    P: Fn(&String) + Send + Sync + 'static,
 {
    exists|read: JsResult<JsValue>|
        {
            &&& #[trigger] call_ensures(func.spec_read(), (&value,), read)
            &&& ends_with(read, func.spec_what(), r)
            &&& read matches Ok(JsValue::Other) ==> (r matches Err(LimboError::SqlError(m))
                && call_ensures(func.spec_pend(), (&m,), ()))
        }
}

proof fn lemma_reads_as<T, G, A, V, B, P>(
    func: JsAggregate<T, G, A, V, B, P>,
    value: T,
    r: Result<Value>,
) where
    G: Fn() -> JsResult<(T, bool)> + Send + Sync + 'static,
    A: Fn(JsCallback, Option<&T>, &Vec<JsArg>) -> JsResult<(T, bool)> + Send + Sync + 'static,
    V: Fn(&T) -> JsResult<JsValue> + Send + Sync + 'static,
    B: Fn() -> bool + Send + Sync + 'static,
    P: Fn(&String) + Send + Sync + 'static,

    requires
        crate::javascript::js_read(func, value, r),
    ensures
        reads_as(func, value, r),
{
    let read = choose|read: JsResult<JsValue>|
        {
            &&& #[trigger] call_ensures(func.spec_read(), (&value,), read)
            &&& crate::javascript::js_finished(read, func.spec_what(), r)
            &&& crate::javascript::js_pended(func.spec_pend(), read, r)
        };
    lemma_ends_with(read, func.spec_what(), r);
    assert(call_ensures(func.spec_read(), (&value,), read));
}

/// The value of a group, and its result, is what the total reads as, through the result function
/// where there is one; the total stays.
pub proof fn law_a_group_reads_as_its_total<T, G, A, V, B, P, C, O>(
    state: &mut JsAggregateState<T, G, A, V, B, P>,
    ctx: &mut FunctionContext<'_, C, O>,
    r: Result<Value>,
    last: Box<JsAggregateState<T, G, A, V, B, P>>,
    end: &mut FunctionContext<'_, C, O>,
    q: Result<Value>,
) where
    T: Send + Sync + 'static,
    G: Fn() -> JsResult<(T, bool)> + Send + Sync + 'static,
    A: Fn(JsCallback, Option<&T>, &Vec<JsArg>) -> JsResult<(T, bool)> + Send + Sync + 'static,
    V: Fn(&T) -> JsResult<JsValue> + Send + Sync + 'static,
    B: Fn() -> bool + Send + Sync + 'static,
    P: Fn(&String) + Send + Sync + 'static,

    requires
        call_ensures(
            <JsAggregateState<T, G, A, V, B, P> as AggregateState<C, O>>::value,
            (state, ctx),
            r,
        ),
        call_ensures(
            <JsAggregateState<T, G, A, V, B, P> as AggregateState<C, O>>::finalize,
            (last, end),
            q,
        ),
    ensures
        *final(state) == *old(state),
        *final(ctx) == *old(ctx),
        *final(end) == *old(end),
        !old(state).spec_func().spec_has_result() ==> reads_as(
            old(state).spec_func(),
            old(state).spec_total(),
            r,
        ),
        !last.spec_func().spec_has_result() ==> reads_as(last.spec_func(), last.spec_total(), q),
        old(state).spec_func().spec_has_result() ==> exists|
            none: Vec<JsArg>,
            made: JsResult<(T, bool)>,
        |
            {
                &&& none@.len() == 0
                &&& #[trigger] call_ensures(
                    old(state).spec_func().spec_call(),
                    (JsCallback::Result, Some(&old(state).spec_total()), &none),
                    made,
                )
                &&& match made {
                    Err(fault) => failed_by(r, fault, old(state).spec_func().spec_what()),
                    Ok((value, _)) => reads_as(old(state).spec_func(), value, r),
                }
            },
        last.spec_func().spec_has_result() ==> exists|none: Vec<JsArg>, made: JsResult<(T, bool)>|
            {
                &&& none@.len() == 0
                &&& #[trigger] call_ensures(
                    last.spec_func().spec_call(),
                    (JsCallback::Result, Some(&last.spec_total()), &none),
                    made,
                )
                &&& match made {
                    Err(fault) => failed_by(q, fault, last.spec_func().spec_what()),
                    Ok((value, _)) => reads_as(last.spec_func(), value, q),
                }
            },
{
    lemma_current(old(state).spec_func(), old(state).spec_total(), r);
    lemma_current(last.spec_func(), last.spec_total(), q);
}

proof fn lemma_current<T, G, A, V, B, P>(
    func: JsAggregate<T, G, A, V, B, P>,
    total: T,
    r: Result<Value>,
) where
    G: Fn() -> JsResult<(T, bool)> + Send + Sync + 'static,
    A: Fn(JsCallback, Option<&T>, &Vec<JsArg>) -> JsResult<(T, bool)> + Send + Sync + 'static,
    V: Fn(&T) -> JsResult<JsValue> + Send + Sync + 'static,
    B: Fn() -> bool + Send + Sync + 'static,
    P: Fn(&String) + Send + Sync + 'static,

    requires
        crate::javascript::js_current(func, total, r),
    ensures
        !func.spec_has_result() ==> reads_as(func, total, r),
        func.spec_has_result() ==> exists|none: Vec<JsArg>, made: JsResult<(T, bool)>|
            {
                &&& none@.len() == 0
                &&& #[trigger] call_ensures(
                    func.spec_call(),
                    (JsCallback::Result, Some(&total), &none),
                    made,
                )
                &&& match made {
                    Err(fault) => failed_by(r, fault, func.spec_what()),
                    Ok((value, _)) => reads_as(func, value, r),
                }
            },
{
    if func.spec_has_result() {
        let (none, made) = choose|none: Vec<JsArg>, made: JsResult<(T, bool)>|
            {
                &&& none@.len() == 0
                &&& #[trigger] call_ensures(
                    func.spec_call(),
                    (JsCallback::Result, Some(&total), &none),
                    made,
                )
                &&& match made {
                    Err(fault) => r is Err && crate::javascript::is_fault(
                        r->Err_0,
                        fault,
                        func.spec_what(),
                    ),
                    Ok((value, _)) => crate::javascript::js_read(func, value, r),
                }
            };
        if let Ok((value, _)) = made {
            lemma_reads_as(func, value, r);
        }
        assert(call_ensures(func.spec_call(), (JsCallback::Result, Some(&total), &none), made));
    } else {
        lemma_reads_as(func, total, r);
    }
}

/// An aggregate can be a window where it has a function that undoes a step.
pub proof fn law_a_window_needs_an_undoing<T, G, A, V, B, P, C, O>(
    f: &JsAggregateFunction<T, G, A, V, B, P>,
    r: bool,
) where
    T: Send + Sync + 'static,
    G: Fn() -> JsResult<(T, bool)> + Send + Sync + 'static,
    A: Fn(JsCallback, Option<&T>, &Vec<JsArg>) -> JsResult<(T, bool)> + Send + Sync + 'static,
    V: Fn(&T) -> JsResult<JsValue> + Send + Sync + 'static,
    B: Fn() -> bool + Send + Sync + 'static,
    P: Fn(&String) + Send + Sync + 'static,

    requires
        call_ensures(
            <JsAggregateFunction<T, G, A, V, B, P> as AggregateFunction<C, O>>::supports_window,
            (f,),
            r,
        ),
    ensures
        r <==> f.spec_func().spec_has_inverse(),
{
}

/// Whether a total goes on from a call of a function of the aggregate with the total and the
/// arguments: it is then what was returned, or stays where nothing was or the call failed.
pub open spec fn goes_on<T, G, A, V, B, P>(
    func: JsAggregate<T, G, A, V, B, P>,
    callback: JsCallback,
    before: T,
    after: T,
    args: Seq<ValueRef<'_>>,
    r: Result<()>,
) -> bool where
    G: Fn() -> JsResult<(T, bool)> + Send + Sync + 'static,
    A: Fn(JsCallback, Option<&T>, &Vec<JsArg>) -> JsResult<(T, bool)> + Send + Sync + 'static,
    V: Fn(&T) -> JsResult<JsValue> + Send + Sync + 'static,
    B: Fn() -> bool + Send + Sync + 'static,
    P: Fn(&String) + Send + Sync + 'static,
 {
    exists|default: bool, js: Vec<JsArg>, returned: JsResult<(T, bool)>|
        {
            &&& #[trigger] call_ensures(func.spec_default(), (), default)
            &&& all_hold(js@, args, asked_or(func.spec_safe_integers(), default))
            &&& #[trigger] call_ensures(func.spec_call(), (callback, Some(&before), &js), returned)
            &&& match returned {
                Err(fault) => failed_by(r, fault, func.spec_what()) && after == before,
                Ok((_, true)) => r is Ok && after == before,
                Ok((total, false)) => r is Ok && after == total,
            }
        }
}

proof fn lemma_goes_on<T, G, A, V, B, P>(
    func: JsAggregate<T, G, A, V, B, P>,
    callback: JsCallback,
    before: T,
    after: T,
    args: Seq<ValueRef<'_>>,
    r: Result<()>,
) where
    G: Fn() -> JsResult<(T, bool)> + Send + Sync + 'static,
    A: Fn(JsCallback, Option<&T>, &Vec<JsArg>) -> JsResult<(T, bool)> + Send + Sync + 'static,
    V: Fn(&T) -> JsResult<JsValue> + Send + Sync + 'static,
    B: Fn() -> bool + Send + Sync + 'static,
    P: Fn(&String) + Send + Sync + 'static,

    requires
        crate::javascript::js_accumulated(func, callback, before, after, args, r),
    ensures
        goes_on(func, callback, before, after, args, r),
{
    let (default, js, returned) = choose|
        default: bool,
        js: Vec<JsArg>,
        returned: JsResult<(T, bool)>,
    |
        {
            &&& call_ensures(func.spec_default(), (), default)
            &&& #[trigger] crate::javascript::are_js_args(
                js@,
                args,
                crate::javascript::integers_safe(func.spec_safe_integers(), default),
            )
            &&& #[trigger] call_ensures(func.spec_call(), (callback, Some(&before), &js), returned)
            &&& match returned {
                Err(fault) => r is Err && crate::javascript::is_fault(
                    r->Err_0,
                    fault,
                    func.spec_what(),
                ) && after == before,
                Ok((_, true)) => r is Ok && after == before,
                Ok((total, false)) => r is Ok && after == total,
            }
        };
    lemma_all_hold(js@, args, asked_or(func.spec_safe_integers(), default));
    assert(call_ensures(func.spec_default(), (), default));
    assert(call_ensures(func.spec_call(), (callback, Some(&before), &js), returned));
}

/// A group that is begun goes through the turns of its functions, from the total its start gives on;
/// where that failed there is no group.
pub proof fn law_a_javascript_group_begins_with_its_start<'a, T, G, A, V, B, P, C, O>(
    f: &JsAggregateFunction<T, G, A, V, B, P>,
    ctx: &mut FunctionContext<'_, C, O>,
    made: Result<Box<dyn AggregateState<C, O>>>,
    turns: Seq<Turn<'a, C, O>>,
) where
    T: Send + Sync + 'static,
    G: Fn() -> JsResult<(T, bool)> + Send + Sync + 'static,
    A: Fn(JsCallback, Option<&T>, &Vec<JsArg>) -> JsResult<(T, bool)> + Send + Sync + 'static,
    V: Fn(&T) -> JsResult<JsValue> + Send + Sync + 'static,
    B: Fn() -> bool + Send + Sync + 'static,
    P: Fn(&String) + Send + Sync + 'static,

    requires
        call_ensures(
            <JsAggregateFunction<T, G, A, V, B, P> as AggregateFunction<C, O>>::init,
            (f, ctx),
            made,
        ),
        made is Ok ==> made->Ok_0.may(turns),
    ensures
        *final(ctx) == *old(ctx),
        exists|start: JsResult<(T, bool)>|
            #[trigger] call_ensures(f.spec_func().spec_start(), (), start) && match start {
                Err(fault) => failed_by(made, fault, f.spec_func().spec_what()),
                Ok((value, false)) => made is Ok && crate::turns::traced(
                    crate::javascript::js_rules(f.spec_func()),
                    value,
                    turns,
                ),
                Ok((_, true)) => exists|none: Vec<JsArg>, first: JsResult<(T, bool)>|
                    {
                        &&& none@.len() == 0
                        &&& #[trigger] call_ensures(
                            f.spec_func().spec_call(),
                            (JsCallback::Start, None, &none),
                            first,
                        )
                        &&& match first {
                            Err(fault) => failed_by(made, fault, f.spec_func().spec_what()),
                            Ok((value, _)) => made is Ok && crate::turns::traced(
                                crate::javascript::js_rules(f.spec_func()),
                                value,
                                turns,
                            ),
                        }
                    },
            },
{
    let first = choose|first: Result<T>|
        #[trigger] crate::javascript::started(f.spec_func(), first) && match (first, made) {
            (Ok(total), Ok(_)) => forall|t: Seq<Turn<'_, C, O>>| #[trigger]
                made->Ok_0.may(t) ==> crate::turns::traced(
                    crate::javascript::js_rules(f.spec_func()),
                    total,
                    t,
                ),
            (Err(e), Err(got)) => got == e,
            _ => false,
        };
    assert(crate::javascript::started(f.spec_func(), first));
}

/// Each of those turns is one call of the function for it with the total so far, and the next begins
/// with the total that is left.
pub proof fn law_a_javascript_turn_is_a_function<'a, T, G, A, V, B, P, C, O>(
    func: JsAggregate<T, G, A, V, B, P>,
    a: T,
    turn: Turn<'a, C, O>,
    rest: Seq<Turn<'a, C, O>>,
) where
    T: Send + Sync + 'static,
    G: Fn() -> JsResult<(T, bool)> + Send + Sync + 'static,
    A: Fn(JsCallback, Option<&T>, &Vec<JsArg>) -> JsResult<(T, bool)> + Send + Sync + 'static,
    V: Fn(&T) -> JsResult<JsValue> + Send + Sync + 'static,
    B: Fn() -> bool + Send + Sync + 'static,
    P: Fn(&String) + Send + Sync + 'static,

    requires
        crate::turns::traced(crate::javascript::js_rules(func), a, seq![turn] + rest),
    ensures
        turn.after == turn.before,
        turn.call matches Call::Step { args, r } ==> exists|b: T|
            {
                &&& goes_on(func, JsCallback::Step, a, b, args@, r)
                &&& #[trigger] crate::turns::traced(
                    crate::javascript::js_rules::<'a, T, G, A, V, B, P, C, O>(func),
                    b,
                    rest,
                )
            },
        turn.call matches Call::Inverse { args, r } ==> func.spec_has_inverse() ==> exists|b: T|
            {
                &&& goes_on(func, JsCallback::Inverse, a, b, args@, r)
                &&& #[trigger] crate::turns::traced(
                    crate::javascript::js_rules::<'a, T, G, A, V, B, P, C, O>(func),
                    b,
                    rest,
                )
            },
        turn.call matches Call::Inverse { args, r } ==> !func.spec_has_inverse() ==> (
        r matches Err(LimboError::ParseError(m)) && m@ == func.spec_what()
            + " may not be used as a window function"@) && crate::turns::traced(
            crate::javascript::js_rules(func),
            a,
            rest,
        ),
        turn.call matches Call::Value { r } ==> crate::turns::traced(
            crate::javascript::js_rules(func),
            a,
            rest,
        ) && reads_through(func, a, r),
        turn.call matches Call::Finalize { r } ==> rest.len() == 0 && reads_through(func, a, r),
{
    let rules = crate::javascript::js_rules::<'a, T, G, A, V, B, P, C, O>(func);
    crate::turns::law_turns_follow_their_rules(rules, a, turn, rest);
    match turn.call {
        Call::Step { args, r } => {
            let b = choose|b: T| #[trigger]
                crate::turns::traced(rules, b, rest) && (rules.step)(
                    a,
                    turn.before,
                    b,
                    turn.after,
                    args,
                    r,
                );
            lemma_goes_on(func, JsCallback::Step, a, b, args@, r);
        },
        Call::Inverse { args, r } => {
            let b = choose|b: T| #[trigger]
                crate::turns::traced(rules, b, rest) && (rules.inverse)(
                    a,
                    turn.before,
                    b,
                    turn.after,
                    args,
                    r,
                );
            if func.spec_has_inverse() {
                lemma_goes_on(func, JsCallback::Inverse, a, b, args@, r);
            }
        },
        Call::Value { r } => {
            lemma_current(func, a, r);
        },
        Call::Finalize { r } => {
            lemma_current(func, a, r);
        },
    }
}

/// Whether a result is what a total reads as, through the result function where there is one.
pub open spec fn reads_through<T, G, A, V, B, P>(
    func: JsAggregate<T, G, A, V, B, P>,
    total: T,
    r: Result<Value>,
) -> bool where
    G: Fn() -> JsResult<(T, bool)> + Send + Sync + 'static,
    A: Fn(JsCallback, Option<&T>, &Vec<JsArg>) -> JsResult<(T, bool)> + Send + Sync + 'static,
    V: Fn(&T) -> JsResult<JsValue> + Send + Sync + 'static,
    B: Fn() -> bool + Send + Sync + 'static,
    P: Fn(&String) + Send + Sync + 'static,
 {
    if func.spec_has_result() {
        exists|none: Vec<JsArg>, made: JsResult<(T, bool)>|
            {
                &&& none@.len() == 0
                &&& #[trigger] call_ensures(
                    func.spec_call(),
                    (JsCallback::Result, Some(&total), &none),
                    made,
                )
                &&& match made {
                    Err(fault) => failed_by(r, fault, func.spec_what()),
                    Ok((value, _)) => reads_as(func, value, r),
                }
            }
    } else {
        reads_as(func, total, r)
    }
}

}
