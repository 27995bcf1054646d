//! Functions written in Python. What a callback raises is kept by the caller; the statement fails
//! with a fixed message that tells which callback raised.

use std::sync::Arc;
use vstd::prelude::*;

use crate::context::FunctionContext;
use crate::error::Result;
use crate::flags::FunctionFlags;
use crate::function::{AggregateFunction, AggregateState, FunctionImpl, ScalarFunction};
use crate::registry::Connection;
use crate::turns::{Call, Rules, Turn};
use crate::value::{Value, ValueRef};

verus! {

pub const SCALAR_RAISED: &'static str = "user-defined function raised exception";

pub const INIT_RAISED: &'static str = "user-defined aggregate's '__init__' method raised error";

pub const STEP_RAISED: &'static str = "user-defined aggregate's 'step' method raised error";

pub const FINALIZE_RAISED: &'static str = "user-defined aggregate's 'finalize' method raised error";

pub const VALUE_RAISED: &'static str = "user-defined aggregate's 'value' method raised error";

pub const INVERSE_RAISED: &'static str = "user-defined aggregate's 'inverse' method raised error";

/// The error of a statement whose callback raised.
pub open spec fn raised(message: Seq<char>) -> crate::error::ErrorView {
    crate::error::ErrorView::UserFunction { code: crate::context::SQLITE_ERROR, message }
}

/// Whether a result is that of a callback that returned `value`, or raised and is reported with
/// `message`.
pub open spec fn reported(value: Option<Value>, message: Seq<char>, r: Result<Value>) -> bool {
    match (value, r) {
        (Some(v), Ok(got)) => got == v,
        (None, Err(e)) => e@ == raised(message),
        _ => false,
    }
}

/// Reports the outcome of a callback: what it returned, or that it raised.
pub fn call_python<C, O, T>(
    ctx: &FunctionContext<'_, C, O>,
    message: &str,
    outcome: Option<T>,
) -> (r: Result<T>)
    ensures
        match (outcome, r) {
            (Some(t), Ok(got)) => got == t,
            (None, Err(e)) => e@ == raised(message@),
            _ => false,
        },
{
    match outcome {
        Some(t) => Ok(t),
        None => Err(ctx.error(message.to_owned())),
    }
}

/// Whether a scalar callback can be called with any arguments.
pub open spec fn total_scalar<F>(f: F) -> bool where F: Fn(&[ValueRef<'_>]) -> Option<Value> {
    forall|args: &[ValueRef<'_>]| call_requires(f, (args,))
}

/// A scalar function: `F` calls it, and gives nothing where it raised.
pub struct PyScalarFunction<F> where
    F: Fn(&[ValueRef<'_>]) -> Option<Value> + Send + Sync + 'static,
 {
    func: F,
}

impl<F> PyScalarFunction<F> where
    F: Fn(&[ValueRef<'_>]) -> Option<Value> + Send + Sync + 'static,
 {
    #[verifier::type_invariant]
    spec fn total(&self) -> bool {
        total_scalar(self.func)
    }

    pub closed spec fn spec_func(&self) -> F {
        self.func
    }

    pub fn new(func: F) -> (r: Self)
        requires
            total_scalar(func),
        ensures
            r.spec_func() == func,
    {
        PyScalarFunction { func }
    }
}

impl<F, C, O> ScalarFunction<C, O> for PyScalarFunction<F> where
    F: Fn(&[ValueRef<'_>]) -> Option<Value> + Send + Sync + 'static,
 {
    fn call(&self, ctx: &mut FunctionContext<'_, C, O>, args: &[ValueRef<'_>]) -> (r: Result<Value>)
        ensures
            *final(ctx) == *old(ctx),
            exists|value: Option<Value>| #[trigger]
                call_ensures(self.spec_func(), (args,), value) && reported(
                    value,
                    SCALAR_RAISED@,
                    r,
                ),
    {
        proof {
            use_type_invariant(self);
        }
        let value = (self.func)(args);
        assert(call_ensures(self.spec_func(), (args,), value));
        call_python(ctx, SCALAR_RAISED, value)
    }
}

/// The methods of an aggregate's instances.
#[derive(Clone, Copy, Debug, PartialEq, Eq, Structural)]
pub enum PyMethod {
    Step,
    Inverse,
    Finalize,
    Value,
}

/// How an aggregate's class is used: `N` makes an instance, `M` calls a method that takes arguments
/// and says whether it returned, `V` calls one that gives a value. Each gives nothing, or false,
/// where it raised.
#[verifier::reject_recursive_types(T)]
pub struct PyClass<T, N, M, V> where
    N: Fn() -> Option<T> + Send + Sync + 'static,
    M: Fn(&T, PyMethod, &[ValueRef<'_>]) -> bool + Send + Sync + 'static,
    V: Fn(&T, PyMethod) -> Option<Value> + Send + Sync + 'static,
 {
    make: N,
    apply: M,
    read: V,
    _instance: Ghost<Option<T>>,
}

impl<T, N, M, V> PyClass<T, N, M, V> where
    N: Fn() -> Option<T> + Send + Sync + 'static,
    M: Fn(&T, PyMethod, &[ValueRef<'_>]) -> bool + Send + Sync + 'static,
    V: Fn(&T, PyMethod) -> Option<Value> + Send + Sync + 'static,
 {
    #[verifier::type_invariant]
    spec fn total(&self) -> bool {
        &&& call_requires(self.make, ())
        &&& forall|t: &T, m: PyMethod, args: &[ValueRef<'_>]|
            call_requires(self.apply, (t, m, args))
        &&& forall|t: &T, m: PyMethod| call_requires(self.read, (t, m))
    }

    pub closed spec fn spec_make(&self) -> N {
        self.make
    }

    pub closed spec fn spec_apply(&self) -> M {
        self.apply
    }

    pub closed spec fn spec_read(&self) -> V {
        self.read
    }

    pub fn new(make: N, apply: M, read: V) -> (r: Self)
        requires
            call_requires(make, ()),
            forall|t: &T, m: PyMethod, args: &[ValueRef<'_>]| call_requires(apply, (t, m, args)),
            forall|t: &T, m: PyMethod| call_requires(read, (t, m)),
        ensures
            r.spec_make() == make,
            r.spec_apply() == apply,
            r.spec_read() == read,
    {
        PyClass { make, apply, read, _instance: Ghost(None) }
    }
}

/// An aggregate. One instance of the class is made per group.
#[verifier::reject_recursive_types(T)]
pub struct PyAggregateFunction<T, N, M, V> where
    N: Fn() -> Option<T> + Send + Sync + 'static,
    M: Fn(&T, PyMethod, &[ValueRef<'_>]) -> bool + Send + Sync + 'static,
    V: Fn(&T, PyMethod) -> Option<Value> + Send + Sync + 'static,
 {
    class: Arc<PyClass<T, N, M, V>>,
    window: bool,
}

/// The accumulator of one group. The instance is made by the first step, so that a group with no
/// rows never touches the class.
#[verifier::reject_recursive_types(T)]
pub struct PyAggregateState<T, N, M, V> where
    N: Fn() -> Option<T> + Send + Sync + 'static,
    M: Fn(&T, PyMethod, &[ValueRef<'_>]) -> bool + Send + Sync + 'static,
    V: Fn(&T, PyMethod) -> Option<Value> + Send + Sync + 'static,
 {
    class: Arc<PyClass<T, N, M, V>>,
    instance: Option<T>,
}

impl<T, N, M, V> PyAggregateFunction<T, N, M, V> where
    N: Fn() -> Option<T> + Send + Sync + 'static,
    M: Fn(&T, PyMethod, &[ValueRef<'_>]) -> bool + Send + Sync + 'static,
    V: Fn(&T, PyMethod) -> Option<Value> + Send + Sync + 'static,
 {
    pub closed spec fn spec_class(&self) -> PyClass<T, N, M, V> {
        *self.class
    }

    pub closed spec fn spec_window(&self) -> bool {
        self.window
    }

    /// With `window`, the class must also have `value` and `inverse` methods.
    pub fn new(class: PyClass<T, N, M, V>, window: bool) -> (r: Self)
        ensures
            r.spec_class() == class,
            r.spec_window() == window,
    {
        PyAggregateFunction { class: Arc::new(class), window }
    }

    /// The accumulator of a new group, which has no instance yet.
    pub fn new_state(&self) -> (r: PyAggregateState<T, N, M, V>)
        ensures
            r.spec_class() == self.spec_class(),
            r.spec_instance() is None,
    {
        PyAggregateState { class: self.class.clone(), instance: None }
    }

    pub fn is_window(&self) -> (r: bool)
        ensures
            r == self.spec_window(),
    {
        self.window
    }
}

impl<T, N, M, V> PyAggregateState<T, N, M, V> where
    N: Fn() -> Option<T> + Send + Sync + 'static,
    M: Fn(&T, PyMethod, &[ValueRef<'_>]) -> bool + Send + Sync + 'static,
    V: Fn(&T, PyMethod) -> Option<Value> + Send + Sync + 'static,
 {
    pub closed spec fn spec_class(&self) -> PyClass<T, N, M, V> {
        *self.class
    }

    pub closed spec fn spec_instance(&self) -> Option<T> {
        self.instance
    }

    /// Makes the instance where there is none yet, and calls a method that takes arguments on it.
    fn apply<C, O>(
        &mut self,
        ctx: &FunctionContext<'_, C, O>,
        method: PyMethod,
        message: &str,
        args: &[ValueRef<'_>],
    ) -> (r: Result<()>)
        ensures
            applied(
                old(self).spec_class(),
                old(self).spec_instance(),
                final(self).spec_instance(),
                method,
                message@,
                args,
                r,
            ),
            final(self).spec_class() == old(self).spec_class(),
    {
        proof {
            use_type_invariant(&*self.class);
        }
        if self.instance.is_none() {
            let made = (self.class.make)();
            assert(call_ensures(self.spec_class().spec_make(), (), made));
            match made {
                None => {
                    return Err(ctx.error(INIT_RAISED.to_owned()));
                },
                Some(t) => {
                    self.instance = Some(t);
                },
            }
        }
        match &self.instance {
            Some(t) => {
                let returned = (self.class.apply)(t, method, args);
                assert(call_ensures(
                    self.spec_class().spec_apply(),
                    (t, method, args),
                    returned,
                ));
                if returned {
                    Ok(())
                } else {
                    Err(ctx.error(message.to_owned()))
                }
            },
            None => Ok(()),
        }
    }

    /// Calls a method that gives a value; without an instance there is nothing to call and the value
    /// is NULL.
    fn read<C, O>(
        &self,
        ctx: &FunctionContext<'_, C, O>,
        method: PyMethod,
        message: &str,
    ) -> (r: Result<Value>)
        ensures
            read_as(self.spec_class(), self.spec_instance(), method, message@, r),
    {
        proof {
            use_type_invariant(&*self.class);
        }
        match &self.instance {
            None => Ok(Value::Null),
            Some(t) => {
                let value = (self.class.read)(t, method);
                assert(call_ensures(self.spec_class().spec_read(), (t, method), value));
                call_python(ctx, message, value)
            },
        }
    }
}

/// What calling a method that takes arguments comes to: the instance is made where there was none,
/// and stays made even where the method then raises.
pub open spec fn applied<T, N, M, V>(
    class: PyClass<T, N, M, V>,
    before: Option<T>,
    after: Option<T>,
    method: PyMethod,
    message: Seq<char>,
    args: &[ValueRef<'_>],
    r: Result<()>,
) -> bool where
    N: Fn() -> Option<T> + Send + Sync + 'static,
    M: Fn(&T, PyMethod, &[ValueRef<'_>]) -> bool + Send + Sync + 'static,
    V: Fn(&T, PyMethod) -> Option<Value> + Send + Sync + 'static,
 {
    match after {
        None => {
            &&& before is None
            &&& call_ensures(class.spec_make(), (), None)
            &&& r is Err
            &&& r->Err_0@ == raised(INIT_RAISED@)
        },
        Some(t) => {
            &&& before is Some ==> before == after
            &&& before is None ==> call_ensures(class.spec_make(), (), Some(t))
            &&& call_ensures(class.spec_apply(), (&t, method, args), r is Ok)
            &&& r is Err ==> r->Err_0@ == raised(message)
        },
    }
}

/// What calling a method that gives a value comes to.
pub open spec fn read_as<T, N, M, V>(
    class: PyClass<T, N, M, V>,
    instance: Option<T>,
    method: PyMethod,
    message: Seq<char>,
    r: Result<Value>,
) -> bool where
    N: Fn() -> Option<T> + Send + Sync + 'static,
    M: Fn(&T, PyMethod, &[ValueRef<'_>]) -> bool + Send + Sync + 'static,
    V: Fn(&T, PyMethod) -> Option<Value> + Send + Sync + 'static,
 {
    match instance {
        None => r == Ok::<Value, crate::error::LimboError>(Value::Null),
        Some(t) => exists|value: Option<Value>| #[trigger]
            call_ensures(class.spec_read(), (&t, method), value) && reported(value, message, r),
    }
}

/// What a Python accumulator goes through: one call of the method for each turn. The context has no
/// part in it.
pub open spec fn py_rules<'a, T, N, M, V, C, O>(class: PyClass<T, N, M, V>) -> Rules<
    'a,
    Option<T>,
    C,
    O,
> where
    N: Fn() -> Option<T> + Send + Sync + 'static,
    M: Fn(&T, PyMethod, &[ValueRef<'_>]) -> bool + Send + Sync + 'static,
    V: Fn(&T, PyMethod) -> Option<Value> + Send + Sync + 'static,
 {
    Rules {
        step: |
            a: Option<T>,
            before: FunctionContext<'a, C, O>,
            b: Option<T>,
            after: FunctionContext<'a, C, O>,
            args: &'a [ValueRef<'a>],
            r: Result<()>,
        |
            after == before && applied(class, a, b, PyMethod::Step, STEP_RAISED@, args, r),
        inverse: |
            a: Option<T>,
            before: FunctionContext<'a, C, O>,
            b: Option<T>,
            after: FunctionContext<'a, C, O>,
            args: &'a [ValueRef<'a>],
            r: Result<()>,
        |
            after == before && applied(class, a, b, PyMethod::Inverse, INVERSE_RAISED@, args, r),
        value: |
            a: Option<T>,
            before: FunctionContext<'a, C, O>,
            b: Option<T>,
            after: FunctionContext<'a, C, O>,
            r: Result<Value>,
        |
            after == before && b == a && read_as(class, a, PyMethod::Value, VALUE_RAISED@, r),
        finalize: |
            a: Option<T>,
            before: FunctionContext<'a, C, O>,
            after: FunctionContext<'a, C, O>,
            r: Result<Value>,
        |
            after == before && read_as(class, a, PyMethod::Finalize, FINALIZE_RAISED@, r),
    }
}

impl<T, N, M, V, C, O> AggregateFunction<C, O> for PyAggregateFunction<T, N, M, V> where
    T: Send + Sync + 'static,
    N: Fn() -> Option<T> + Send + Sync + 'static,
    M: Fn(&T, PyMethod, &[ValueRef<'_>]) -> bool + Send + Sync + 'static,
    V: Fn(&T, PyMethod) -> Option<Value> + Send + Sync + 'static,
 {
    fn init(&self, ctx: &mut FunctionContext<'_, C, O>) -> (r: Result<
        Box<dyn AggregateState<C, O>>,
    >)
        ensures
            r is Ok,
            forall|turns: Seq<Turn<'_, C, O>>| #[trigger]
                r->Ok_0.may(turns) ==> crate::turns::traced(
                    py_rules(self.spec_class()),
                    None,
                    turns,
                ),
            *final(ctx) == *old(ctx),
    {
        Ok(Box::new(self.new_state()))
    }

    fn supports_window(&self) -> bool
        returns
            self.spec_window(),
    {
        self.is_window()
    }
}

impl<T, N, M, V, C, O> AggregateState<C, O> for PyAggregateState<T, N, M, V> where
    T: Send + Sync + 'static,
    N: Fn() -> Option<T> + Send + Sync + 'static,
    M: Fn(&T, PyMethod, &[ValueRef<'_>]) -> bool + Send + Sync + 'static,
    V: Fn(&T, PyMethod) -> Option<Value> + Send + Sync + 'static,
 {
    open spec fn may(&self, turns: Seq<Turn<'_, C, O>>) -> bool {
        crate::turns::traced(py_rules(self.spec_class()), self.spec_instance(), turns)
    }

    fn step(
        &mut self,
        ctx: &mut FunctionContext<'_, C, O>,
        args: &[ValueRef<'_>],
    ) -> (r: Result<()>)
        ensures
            *final(ctx) == *old(ctx),
            final(self).spec_class() == old(self).spec_class(),
            applied(
                old(self).spec_class(),
                old(self).spec_instance(),
                final(self).spec_instance(),
                PyMethod::Step,
                STEP_RAISED@,
                args,
                r,
            ),
    {
        let r = self.apply(ctx, PyMethod::Step, STEP_RAISED, args);
        proof {
            let turn = Turn { before: *old(ctx), call: Call::Step { args, r }, after: *ctx };
            crate::turns::lemma_turn_first(
                py_rules(self.spec_class()),
                old(self).spec_instance(),
                turn,
                self.spec_instance(),
            );
        }
        r
    }

    fn finalize(self: Box<Self>, ctx: &mut FunctionContext<'_, C, O>) -> (r: Result<Value>)
        ensures
            *final(ctx) == *old(ctx),
            read_as(
                self.spec_class(),
                self.spec_instance(),
                PyMethod::Finalize,
                FINALIZE_RAISED@,
                r,
            ),
    {
        let this = *self;
        let r = this.read(ctx, PyMethod::Finalize, FINALIZE_RAISED);
        proof {
            let turn = Turn { before: *old(ctx), call: Call::Finalize { r }, after: *ctx };
            crate::turns::lemma_last_turn(
                py_rules(this.spec_class()),
                this.spec_instance(),
                turn,
            );
        }
        r
    }

    fn value(&mut self, ctx: &mut FunctionContext<'_, C, O>) -> (r: Result<Value>)
        ensures
            *final(self) == *old(self),
            *final(ctx) == *old(ctx),
            read_as(
                old(self).spec_class(),
                old(self).spec_instance(),
                PyMethod::Value,
                VALUE_RAISED@,
                r,
            ),
    {
        let r = self.read(ctx, PyMethod::Value, VALUE_RAISED);
        proof {
            let turn = Turn { before: *old(ctx), call: Call::Value { r }, after: *ctx };
            crate::turns::lemma_turn_first(
                py_rules(self.spec_class()),
                old(self).spec_instance(),
                turn,
                self.spec_instance(),
            );
        }
        r
    }

    fn inverse(
        &mut self,
        ctx: &mut FunctionContext<'_, C, O>,
        args: &[ValueRef<'_>],
    ) -> (r: Result<()>)
        ensures
            *final(ctx) == *old(ctx),
            final(self).spec_class() == old(self).spec_class(),
            applied(
                old(self).spec_class(),
                old(self).spec_instance(),
                final(self).spec_instance(),
                PyMethod::Inverse,
                INVERSE_RAISED@,
                args,
                r,
            ),
    {
        let r = self.apply(ctx, PyMethod::Inverse, INVERSE_RAISED, args);
        proof {
            let turn = Turn { before: *old(ctx), call: Call::Inverse { args, r }, after: *ctx };
            crate::turns::lemma_turn_first(
                py_rules(self.spec_class()),
                old(self).spec_instance(),
                turn,
                self.spec_instance(),
            );
        }
        r
    }
}

/// The flags of a scalar function.
pub fn scalar_flags(deterministic: bool) -> (r: FunctionFlags)
    ensures
        r.spec_bits() == (if deterministic {
            FunctionFlags::DETERMINISTIC
        } else {
            0
        }),
{
    if deterministic {
        let flags = FunctionFlags::from_bits_truncate(FunctionFlags::DETERMINISTIC);
        assert(0x0000_0800u32 & 0x0138_0800u32 == 0x0000_0800u32) by (bit_vector);
        flags
    } else {
        FunctionFlags::empty()
    }
}

/// Registers a scalar function on a connection whose scalar functions are Python's; `narg` is -1 for
/// one taking any number of arguments.
pub fn create_scalar_function<F, A>(
    connection: &mut Connection<PyScalarFunction<F>, A>,
    name: &str,
    narg: i32,
    func: PyScalarFunction<F>,
    deterministic: bool,
) -> (r: Result<()>) where F: Fn(&[ValueRef<'_>]) -> Option<Value> + Send + Sync + 'static
    ensures
        crate::registry::reports(r, crate::registry::creation_error(name@, narg)),
        r is Err ==> *final(connection) == *old(connection),
        r is Ok ==> ({
            let key = (crate::registry::lowercase(name@), narg);
            let added = final(connection).spec_functions()[key];
            &&& final(connection).spec_functions() == old(connection).spec_functions().insert(
                key,
                added,
            )
            &&& added.spec_name() == key.0
            &&& added.spec_argc() == narg
            &&& added.spec_imp() == FunctionImpl::<PyScalarFunction<F>, A>::Scalar(Arc::new(func))
            &&& added.spec_flags().spec_bits() == (if deterministic {
                FunctionFlags::DETERMINISTIC
            } else {
                0
            })
        }),
{
    connection.create_scalar_function(name, narg, scalar_flags(deterministic), func)
}

/// Registers an aggregate, which claims no property for itself, on a connection whose aggregates are
/// Python's.
pub fn create_aggregate_function<T, N, M, V, S>(
    connection: &mut Connection<S, PyAggregateFunction<T, N, M, V>>,
    name: &str,
    narg: i32,
    aggregate: PyAggregateFunction<T, N, M, V>,
) -> (r: Result<()>) where
    T: Send + Sync + 'static,
    N: Fn() -> Option<T> + Send + Sync + 'static,
    M: Fn(&T, PyMethod, &[ValueRef<'_>]) -> bool + Send + Sync + 'static,
    V: Fn(&T, PyMethod) -> Option<Value> + Send + Sync + 'static,

    ensures
        crate::registry::reports(r, crate::registry::creation_error(name@, narg)),
        r is Err ==> *final(connection) == *old(connection),
        r is Ok ==> ({
            let key = (crate::registry::lowercase(name@), narg);
            let added = final(connection).spec_functions()[key];
            &&& final(connection).spec_functions() == old(connection).spec_functions().insert(
                key,
                added,
            )
            &&& added.spec_name() == key.0
            &&& added.spec_argc() == narg
            &&& added.spec_imp() == FunctionImpl::<
                S,
                PyAggregateFunction<T, N, M, V>,
            >::Aggregate(Arc::new(aggregate))
            &&& added.spec_flags().spec_bits() == 0
        }),
{
    connection.create_aggregate_function(name, narg, FunctionFlags::empty(), aggregate)
}

/// A group that no row stepped is NULL, whether it is read or finished: what its class would do has
/// no part in the answer. `made` is what `AggregateFunction::init` returned, and `turn` the first
/// that its accumulator went through.
pub proof fn law_an_empty_group_is_null<'a, T, N, M, V, C, O>(
    agg: &PyAggregateFunction<T, N, M, V>,
    ctx: &mut FunctionContext<'_, C, O>,
    made: Result<Box<dyn AggregateState<C, O>>>,
    turn: Turn<'a, C, O>,
) where
    T: Send + Sync + 'static,
    N: Fn() -> Option<T> + Send + Sync + 'static,
    M: Fn(&T, PyMethod, &[ValueRef<'_>]) -> bool + Send + Sync + 'static,
    V: Fn(&T, PyMethod) -> Option<Value> + Send + Sync + 'static,

    requires
        call_ensures(
            <PyAggregateFunction<T, N, M, V> as AggregateFunction<C, O>>::init,
            (agg, ctx),
            made,
        ),
        made->Ok_0.may(seq![turn]),
    ensures
        turn.call matches Call::Finalize { r } ==> r == Ok::<Value, crate::error::LimboError>(
            Value::Null,
        ),
        turn.call matches Call::Value { r } ==> r == Ok::<Value, crate::error::LimboError>(
            Value::Null,
        ),
        turn.after == turn.before,
{
    assert(seq![turn][0] == turn);
}

}
