//! What functions written in Python are called with and what becomes of what they return, said of
//! arguments, instances and results.

use vstd::prelude::*;

use crate::context::FunctionContext;
use crate::error::{LimboError, Result};
use crate::flags::FunctionFlags;
use crate::function::{AggregateFunction, AggregateState, FunctionImpl, ScalarFunction};
use crate::python::{
    create_aggregate_function, create_scalar_function, scalar_flags, PyAggregateFunction,
    PyAggregateState, PyClass, PyMethod, PyScalarFunction,
};
use crate::registry::Connection;
use crate::turns::{Call, Turn};
use crate::value::{Value, ValueRef};

verus! {

/// Whether a failure is code 1 with this message.
pub open spec fn failed<X>(r: Result<X>, said: Seq<char>) -> bool {
    r matches Err(LimboError::UserFunction { code, message }) && code == 1 && message@ == said
}

/// Whether a call ends with the value a callback returned, or with this message where it raised.
pub open spec fn ends_with(value: Option<Value>, said: Seq<char>, r: Result<Value>) -> bool {
    match value {
        Some(v) => r matches Ok(got) && got == v,
        None => failed(r, said),
    }
}

/// A call of a scalar function calls it once with the arguments and ends with the value it returned,
/// or says that it raised.
pub proof fn law_a_scalar_answers_for_its_arguments<F, C, O>(
    func: F,
    made: PyScalarFunction<F>,
    f: &PyScalarFunction<F>,
    ctx: &mut FunctionContext<'_, C, O>,
    args: &[ValueRef<'_>],
    r: Result<Value>,
) where F: Fn(&[ValueRef<'_>]) -> Option<Value> + Send + Sync + 'static
    requires
        call_ensures(PyScalarFunction::<F>::new, (func,), made),
        call_ensures(<PyScalarFunction<F> as ScalarFunction<C, O>>::call, (f, ctx, args), r),
    ensures
        made.spec_func() == func,
        *final(ctx) == *old(ctx),
        exists|value: Option<Value>| #[trigger]
            call_ensures(f.spec_func(), (args,), value) && ends_with(
                value,
                "user-defined function raised exception"@,
                r,
            ),
{
}

/// An aggregate holds the class it was made of and whether it can be a window; a group of it starts
/// without an instance.
pub proof fn law_an_aggregate_holds_its_class<T, N, M, V, C, O>(
    make: N,
    apply: M,
    read: V,
    class: PyClass<T, N, M, V>,
    window: bool,
    f: PyAggregateFunction<T, N, M, V>,
    windows: bool,
    state: PyAggregateState<T, N, M, V>,
) where
    T: Send + Sync + 'static,
    N: Fn() -> Option<T> + Send + Sync + 'static,
    M: Fn(&T, PyMethod, &[ValueRef<'_>]) -> bool + Send + Sync + 'static,
    V: Fn(&T, PyMethod) -> Option<Value> + Send + Sync + 'static,

    requires
        call_ensures(PyClass::<T, N, M, V>::new, (make, apply, read), class),
        call_ensures(PyAggregateFunction::<T, N, M, V>::new, (class, window), f),
        call_ensures(
            <PyAggregateFunction<T, N, M, V> as AggregateFunction<C, O>>::supports_window,
            (&f,),
            windows,
        ),
        call_ensures(PyAggregateFunction::<T, N, M, V>::new_state, (&f,), state),
    ensures
        f.spec_class().spec_make() == make,
        f.spec_class().spec_apply() == apply,
        f.spec_class().spec_read() == read,
        f.spec_window() == window,
        windows == window,
        state.spec_class() == f.spec_class(),
        state.spec_instance() is None,
{
}

/// Whether a row reaches a method of the instance of its group, which is made for the first row: it
/// is said where making it raised, and where the method did.
pub open spec fn reaches<T, N, M, V>(
    class: PyClass<T, N, M, V>,
    before: Option<T>,
    after: Option<T>,
    method: PyMethod,
    said: Seq<char>,
    args: &[ValueRef<'_>],
    r: Result<()>,
) -> bool where
    N: Fn() -> Option<T> + Send + Sync + 'static,
    M: Fn(&T, PyMethod, &[ValueRef<'_>]) -> bool + Send + Sync + 'static,
    V: Fn(&T, PyMethod) -> Option<Value> + Send + Sync + 'static,
 {
    &&& before is Some ==> after == before
    &&& before is None && after is None ==> call_ensures(class.spec_make(), (), None) && failed(
        r,
        "user-defined aggregate's '__init__' method raised error"@,
    )
    &&& before is None && after is Some ==> call_ensures(class.spec_make(), (), after)
    &&& after is Some && r is Ok ==> call_ensures(
        class.spec_apply(),
        (&after->0, method, args),
        true,
    )
    &&& after is Some && r is Err ==> call_ensures(
        class.spec_apply(),
        (&after->0, method, args),
        false,
    ) && failed(r, said)
}

/// A step calls the step method of the instance with the arguments, and its undoing the method for
/// it.
pub proof fn law_a_row_reaches_its_method<T, N, M, V, C, O>(
    state: &mut PyAggregateState<T, N, M, V>,
    ctx: &mut FunctionContext<'_, C, O>,
    args: &[ValueRef<'_>],
    r: Result<()>,
    undone: &mut PyAggregateState<T, N, M, V>,
    end: &mut FunctionContext<'_, C, O>,
    q: Result<()>,
) where
    T: Send + Sync + 'static,
    N: Fn() -> Option<T> + Send + Sync + 'static,
    M: Fn(&T, PyMethod, &[ValueRef<'_>]) -> bool + Send + Sync + 'static,
    V: Fn(&T, PyMethod) -> Option<Value> + Send + Sync + 'static,

    requires
        call_ensures(
            <PyAggregateState<T, N, M, V> as AggregateState<C, O>>::step,
            (state, ctx, args),
            r,
        ),
        call_ensures(
            <PyAggregateState<T, N, M, V> as AggregateState<C, O>>::inverse,
            (undone, end, args),
            q,
        ),
    ensures
        *final(ctx) == *old(ctx),
        *final(end) == *old(end),
        final(state).spec_class() == old(state).spec_class(),
        final(undone).spec_class() == old(undone).spec_class(),
        reaches(
            old(state).spec_class(),
            old(state).spec_instance(),
            final(state).spec_instance(),
            PyMethod::Step,
            "user-defined aggregate's 'step' method raised error"@,
            args,
            r,
        ),
        reaches(
            old(undone).spec_class(),
            old(undone).spec_instance(),
            final(undone).spec_instance(),
            PyMethod::Inverse,
            "user-defined aggregate's 'inverse' method raised error"@,
            args,
            q,
        ),
{
}

/// The value of a group is what the value method of its instance returns, and its result what the
/// finalize method does; a group without rows is NULL.
pub proof fn law_a_group_reads_as_its_methods_return<T, N, M, V, C, O>(
    state: &mut PyAggregateState<T, N, M, V>,
    ctx: &mut FunctionContext<'_, C, O>,
    r: Result<Value>,
    last: Box<PyAggregateState<T, N, M, V>>,
    end: &mut FunctionContext<'_, C, O>,
    q: Result<Value>,
) where
    T: Send + Sync + 'static,
    N: Fn() -> Option<T> + Send + Sync + 'static,
    M: Fn(&T, PyMethod, &[ValueRef<'_>]) -> bool + Send + Sync + 'static,
    V: Fn(&T, PyMethod) -> Option<Value> + Send + Sync + 'static,

    requires
        call_ensures(
            <PyAggregateState<T, N, M, V> as AggregateState<C, O>>::value,
            (state, ctx),
            r,
        ),
        call_ensures(
            <PyAggregateState<T, N, M, V> as AggregateState<C, O>>::finalize,
            (last, end),
            q,
        ),
    ensures
        *final(state) == *old(state),
        *final(ctx) == *old(ctx),
        *final(end) == *old(end),
        old(state).spec_instance() is None ==> (r matches Ok(Value::Null)),
        last.spec_instance() is None ==> (q matches Ok(Value::Null)),
        old(state).spec_instance() matches Some(t) ==> exists|value: Option<Value>| #[trigger]
            call_ensures(old(state).spec_class().spec_read(), (&t, PyMethod::Value), value)
                && ends_with(value, "user-defined aggregate's 'value' method raised error"@, r),
        last.spec_instance() matches Some(t) ==> exists|value: Option<Value>| #[trigger]
            call_ensures(last.spec_class().spec_read(), (&t, PyMethod::Finalize), value)
                && ends_with(value, "user-defined aggregate's 'finalize' method raised error"@, q),
{
}

/// A scalar function has bit 11 alone where it is deterministic, and no bit otherwise.
pub proof fn law_only_determinism_is_a_flag(deterministic: bool, flags: FunctionFlags, bits: u32)
    requires
        call_ensures(scalar_flags, (deterministic,), flags),
        call_ensures(FunctionFlags::bits, (flags,), bits),
    ensures
        deterministic ==> bits == 2048,
        !deterministic ==> bits == 0,
{
}

/// A function is created on a connection under its folded name and its argument count, with its flags
/// and what it is; nothing else changes.
pub proof fn law_a_scalar_is_created<F, A>(
    conn: &mut Connection<PyScalarFunction<F>, A>,
    name: &str,
    narg: i32,
    func: PyScalarFunction<F>,
    deterministic: bool,
    r: Result<()>,
    other: (Seq<char>, i32),
) where F: Fn(&[ValueRef<'_>]) -> Option<Value> + Send + Sync + 'static
    requires
        call_ensures(
            create_scalar_function::<F, A>,
            (conn, name, narg, func, deterministic),
            r,
        ),
    ensures
        r is Ok <==> crate::registration_laws::fits(name@, narg) && crate::registration_laws::fits(
            crate::registry::lowercase(name@),
            narg,
        ),
        r is Err ==> *final(conn) == *old(conn),
        r is Ok ==> {
            let key = (crate::registry::lowercase(name@), narg);
            let added = final(conn).spec_functions()[key];
            &&& final(conn).spec_functions().contains_key(key)
            &&& added.spec_name() == key.0
            &&& added.spec_argc() == narg
            &&& added.spec_flags().spec_bits() == (if deterministic {
                2048u32
            } else {
                0
            })
            &&& added.spec_imp() matches FunctionImpl::Scalar(f) && *f == func
            &&& other != key ==> crate::registration_laws::same_at(
                old(conn).spec_functions(),
                final(conn).spec_functions(),
                other,
            )
        },
{
}

/// The same of an aggregate, which has no flags.
pub proof fn law_an_aggregate_is_created<T, N, M, V, S>(
    conn: &mut Connection<S, PyAggregateFunction<T, N, M, V>>,
    name: &str,
    narg: i32,
    aggregate: PyAggregateFunction<T, N, M, V>,
    r: Result<()>,
    other: (Seq<char>, i32),
) where
    T: Send + Sync + 'static,
    N: Fn() -> Option<T> + Send + Sync + 'static,
    M: Fn(&T, PyMethod, &[ValueRef<'_>]) -> bool + Send + Sync + 'static,
    V: Fn(&T, PyMethod) -> Option<Value> + Send + Sync + 'static,

    requires
        call_ensures(
            create_aggregate_function::<T, N, M, V, S>,
            (conn, name, narg, aggregate),
            r,
        ),
    ensures
        r is Ok <==> crate::registration_laws::fits(name@, narg) && crate::registration_laws::fits(
            crate::registry::lowercase(name@),
            narg,
        ),
        r is Err ==> *final(conn) == *old(conn),
        r is Ok ==> {
            let key = (crate::registry::lowercase(name@), narg);
            let added = final(conn).spec_functions()[key];
            &&& final(conn).spec_functions().contains_key(key)
            &&& added.spec_name() == key.0
            &&& added.spec_argc() == narg
            &&& added.spec_flags().spec_bits() == 0
            &&& added.spec_imp() matches FunctionImpl::Aggregate(f) && *f == aggregate
            &&& other != key ==> crate::registration_laws::same_at(
                old(conn).spec_functions(),
                final(conn).spec_functions(),
                other,
            )
        },
{
}

/// A group that is begun goes through the turns of its class, from no instance on.
pub proof fn law_a_python_group_begins_without_an_instance<'a, T, N, M, V, C, O>(
    f: &PyAggregateFunction<T, N, M, V>,
    ctx: &mut FunctionContext<'_, C, O>,
    made: Result<Box<dyn AggregateState<C, O>>>,
    turns: Seq<Turn<'a, C, O>>,
) where
    T: Send + Sync + 'static,
    N: Fn() -> Option<T> + Send + Sync + 'static,
    M: Fn(&T, PyMethod, &[ValueRef<'_>]) -> bool + Send + Sync + 'static,
    V: Fn(&T, PyMethod) -> Option<Value> + Send + Sync + 'static,

    requires
        call_ensures(
            <PyAggregateFunction<T, N, M, V> as AggregateFunction<C, O>>::init,
            (f, ctx),
            made,
        ),
        made->Ok_0.may(turns),
    ensures
        made is Ok,
        *final(ctx) == *old(ctx),
        crate::turns::traced(crate::python::py_rules(f.spec_class()), None, turns),
{
}

/// Each of those turns is one call of the method for it on the instance so far, and the next begins
/// with the instance that is there then.
pub proof fn law_a_python_turn_is_a_method<'a, T, N, M, V, C, O>(
    class: PyClass<T, N, M, V>,
    a: Option<T>,
    turn: Turn<'a, C, O>,
    rest: Seq<Turn<'a, C, O>>,
) where
    T: Send + Sync + 'static,
    N: Fn() -> Option<T> + Send + Sync + 'static,
    M: Fn(&T, PyMethod, &[ValueRef<'_>]) -> bool + Send + Sync + 'static,
    V: Fn(&T, PyMethod) -> Option<Value> + Send + Sync + 'static,

    requires
        crate::turns::traced(crate::python::py_rules(class), a, seq![turn] + rest),
    ensures
        turn.after == turn.before,
        turn.call matches Call::Step { args, r } ==> exists|b: Option<T>|
            {
                &&& reaches(
                    class,
                    a,
                    b,
                    PyMethod::Step,
                    "user-defined aggregate's 'step' method raised error"@,
                    args,
                    r,
                )
                &&& #[trigger] crate::turns::traced(
                    crate::python::py_rules::<'a, T, N, M, V, C, O>(class),
                    b,
                    rest,
                )
            },
        turn.call matches Call::Inverse { args, r } ==> exists|b: Option<T>|
            {
                &&& reaches(
                    class,
                    a,
                    b,
                    PyMethod::Inverse,
                    "user-defined aggregate's 'inverse' method raised error"@,
                    args,
                    r,
                )
                &&& #[trigger] crate::turns::traced(
                    crate::python::py_rules::<'a, T, N, M, V, C, O>(class),
                    b,
                    rest,
                )
            },
        turn.call matches Call::Value { r } ==> {
            &&& crate::turns::traced(crate::python::py_rules(class), a, rest)
            &&& a is None ==> (r matches Ok(Value::Null))
            &&& a matches Some(t) ==> exists|value: Option<Value>| #[trigger]
                call_ensures(class.spec_read(), (&t, PyMethod::Value), value) && ends_with(
                    value,
                    "user-defined aggregate's 'value' method raised error"@,
                    r,
                )
        },
        turn.call matches Call::Finalize { r } ==> {
            &&& rest.len() == 0
            &&& a is None ==> (r matches Ok(Value::Null))
            &&& a matches Some(t) ==> exists|value: Option<Value>| #[trigger]
                call_ensures(class.spec_read(), (&t, PyMethod::Finalize), value) && ends_with(
                    value,
                    "user-defined aggregate's 'finalize' method raised error"@,
                    r,
                )
        },
{
    crate::turns::law_turns_follow_their_rules(crate::python::py_rules(class), a, turn, rest);
}

}
