//! The functions the engine calls: the traits they implement and what a registration records.

use std::sync::Arc;
use vstd::prelude::*;

use crate::context::FunctionContext;
use crate::error::{LimboError, Result};
use crate::flags::FunctionFlags;
use crate::turns::{Call, Turn};
use crate::value::{Value, ValueRef};

verus! {

/// A function that produces one value per call.
pub trait ScalarFunction<C, O>: Send + Sync {
    fn call(&self, ctx: &mut FunctionContext<'_, C, O>, args: &[ValueRef<'_>]) -> Result<Value>;
}

/// A function that accumulates over many rows.
pub trait AggregateFunction<C, O>: Send + Sync {
    fn init(&self, ctx: &mut FunctionContext<'_, C, O>) -> Result<Box<dyn AggregateState<C, O>>>;

    /// True when the state implements `value` and `inverse`.
    fn supports_window(&self) -> (r: bool)
        default_ensures
            !r,
    {
        false
    }
}

/// The accumulator an `AggregateFunction` builds for one group or window frame.
pub trait AggregateState<C, O>: Send {
    /// Whether the accumulator can go through these turns, from what it holds now. One of which
    /// nothing is known might go through any.
    open spec fn may(&self, turns: Seq<Turn<'_, C, O>>) -> bool {
        true
    }

    fn step(&mut self, ctx: &mut FunctionContext<'_, C, O>, args: &[ValueRef<'_>]) -> (r: Result<
        (),
    >)
        ensures
            forall|rest: Seq<Turn<'_, C, O>>| #[trigger]
                final(self).may(rest) ==> old(self).may(
                    seq![
                        Turn {
                            before: *old(ctx),
                            call: Call::Step { args, r },
                            after: *final(ctx),
                        },
                    ] + rest,
                ),
    ;

    /// Called exactly once per group, even when the group had no rows.
    fn finalize(self: Box<Self>, ctx: &mut FunctionContext<'_, C, O>) -> (r: Result<Value>)
        ensures
            self.may(
                seq![
                    Turn {
                        before: *old(ctx),
                        call: Call::Finalize { r },
                        after: *final(ctx),
                    },
                ],
            ),
    ;

    /// The answer so far; the accumulator goes on to be stepped. Only called when
    /// `AggregateFunction::supports_window` is true. One that refuses to be read is as it was.
    fn value(&mut self, _ctx: &mut FunctionContext<'_, C, O>) -> (r: Result<Value>)
        ensures
            refused(*old(_ctx), r, *final(_ctx)) ==> forall|rest: Seq<Turn<'_, C, O>>| #[trigger]
                final(self).may(rest) ==> old(self).may(rest),
            !refused(*old(_ctx), r, *final(_ctx)) ==> forall|rest: Seq<Turn<'_, C, O>>| #[trigger]
                final(self).may(rest) ==> old(self).may(
                    seq![
                        Turn {
                            before: *old(_ctx),
                            call: Call::Value { r },
                            after: *final(_ctx),
                        },
                    ] + rest,
                ),
        default_ensures
            r is Err,
            r->Err_0@ == not_a_window_function(),
    {
        Err(LimboError::ParseError("aggregate may not be used as a window function".to_owned()))
    }

    /// Undoes the step of a row that left the frame. Only called when
    /// `AggregateFunction::supports_window` is true. One that refuses is as it was.
    fn inverse(
        &mut self,
        _ctx: &mut FunctionContext<'_, C, O>,
        _args: &[ValueRef<'_>],
    ) -> (r: Result<()>)
        ensures
            refused(*old(_ctx), r, *final(_ctx)) ==> forall|rest: Seq<Turn<'_, C, O>>| #[trigger]
                final(self).may(rest) ==> old(self).may(rest),
            !refused(*old(_ctx), r, *final(_ctx)) ==> forall|rest: Seq<Turn<'_, C, O>>| #[trigger]
                final(self).may(rest) ==> old(self).may(
                    seq![
                        Turn {
                            before: *old(_ctx),
                            call: Call::Inverse { args: _args, r },
                            after: *final(_ctx),
                        },
                    ] + rest,
                ),
        default_ensures
            r is Err,
            r->Err_0@ == not_a_window_function(),
    {
        Err(LimboError::ParseError("aggregate may not be used as a window function".to_owned()))
    }
}

/// Whether a call was refused because the aggregate cannot drive a window frame.
pub open spec fn refused<'a, T, C, O>(
    before: FunctionContext<'a, C, O>,
    r: Result<T>,
    after: FunctionContext<'a, C, O>,
) -> bool {
    r is Err && r->Err_0@ == not_a_window_function() && after == before
}

/// The error of an aggregate used with `OVER` although it cannot drive a window frame.
pub open spec fn not_a_window_function() -> crate::error::ErrorView {
    crate::error::ErrorView::ParseError("aggregate may not be used as a window function"@)
}

/// Whether `answer` is one an aggregate gives when asked whether it can drive a window frame.
pub open spec fn answers_window<F, C, O>(f: &F, answer: bool) -> bool where
    F: AggregateFunction<C, O> + ?Sized,
 {
    call_ensures(F::supports_window, (f,), answer)
}

/// Asks an aggregate whether it can drive a window frame.
fn ask_window<F, C, O>(f: &F) -> (r: bool) where F: AggregateFunction<C, O> + ?Sized
    ensures
        answers_window::<F, C, O>(f, r),
{
    f.supports_window()
}

/// A scalar function of any type.
pub type BoxedScalar<C, O> = Box<dyn ScalarFunction<C, O>>;

/// An aggregate of any type.
pub type BoxedAggregate<C, O> = Box<dyn AggregateFunction<C, O>>;

/// Whether `r` is an outcome of starting a group of an aggregate.
#[verifier::inline]
pub open spec fn starts<F, C, O>(
    f: &F,
    ctx: &mut FunctionContext<'_, C, O>,
    r: Result<Box<dyn AggregateState<C, O>>>,
) -> bool where F: AggregateFunction<C, O> + ?Sized {
    call_ensures(F::init, (f, ctx), r)
}

/// Starts a group of an aggregate.
fn start_group<F, C, O>(f: &F, ctx: &mut FunctionContext<'_, C, O>) -> (r: Result<
    Box<dyn AggregateState<C, O>>,
>) where F: AggregateFunction<C, O> + ?Sized
    ensures
        exists|c: &mut FunctionContext<'_, C, O>|
            {
                &&& *c == *old(ctx)
                &&& *final(c) == *final(ctx)
                &&& starts::<F, C, O>(f, c, r)
            },
{
    f.init(ctx)
}

/// An aggregate behind a pointer answers what it answers itself.
impl<C, O> AggregateFunction<C, O> for Box<dyn AggregateFunction<C, O>> {
    fn init(&self, ctx: &mut FunctionContext<'_, C, O>) -> (r: Result<
        Box<dyn AggregateState<C, O>>,
    >)
        ensures
            exists|c: &mut FunctionContext<'_, C, O>|
                {
                    &&& *c == *old(ctx)
                    &&& *final(c) == *final(ctx)
                    &&& starts::<_, C, O>(&**self, c, r)
                },
    {
        start_group::<_, C, O>(&**self, ctx)
    }

    fn supports_window(&self) -> (r: bool)
        ensures
            answers_window::<_, C, O>(&**self, r),
    {
        ask_window::<_, C, O>(&**self)
    }
}

/// The code behind a registration: `S` is what scalar functions are, `A` what aggregates are. A
/// table that holds functions of many types uses `BoxedScalar` and `BoxedAggregate`.
#[verifier::reject_recursive_types(S)]
#[verifier::reject_recursive_types(A)]
pub enum FunctionImpl<S, A> {
    Scalar(Arc<S>),
    Aggregate(Arc<A>),
}

impl<S, A> Clone for FunctionImpl<S, A> {
    fn clone(&self) -> (r: Self)
        ensures
            r == *self,
    {
        match self {
            FunctionImpl::Scalar(f) => FunctionImpl::Scalar(f.clone()),
            FunctionImpl::Aggregate(f) => FunctionImpl::Aggregate(f.clone()),
        }
    }
}

/// A function registered against a connection.
#[verifier::reject_recursive_types(S)]
#[verifier::reject_recursive_types(A)]
pub struct ExternalFunc<S, A> {
    name: String,
    /// -1 means any number of arguments.
    argc: i32,
    flags: FunctionFlags,
    imp: FunctionImpl<S, A>,
}

impl<S, A> ExternalFunc<S, A> {
    pub closed spec fn spec_name(&self) -> Seq<char> {
        self.name@
    }

    pub closed spec fn spec_argc(&self) -> i32 {
        self.argc
    }

    pub closed spec fn spec_flags(&self) -> FunctionFlags {
        self.flags
    }

    pub closed spec fn spec_imp(&self) -> FunctionImpl<S, A> {
        self.imp
    }

    /// Whether the function can be called with `arg_count` arguments.
    pub open spec fn accepts(&self, arg_count: nat) -> bool {
        self.spec_argc() < 0 || self.spec_argc() == arg_count
    }

    pub fn new_scalar(
        name: String,
        argc: i32,
        flags: FunctionFlags,
        f: Arc<S>,
    ) -> (r: Self)
        ensures
            r.spec_name() == name@,
            r.spec_argc() == argc,
            r.spec_flags() == flags,
            r.spec_imp() == FunctionImpl::<S, A>::Scalar(f),
    {
        ExternalFunc { name, argc, flags, imp: FunctionImpl::Scalar(f) }
    }

    pub fn new_aggregate(
        name: String,
        argc: i32,
        flags: FunctionFlags,
        f: Arc<A>,
    ) -> (r: Self)
        ensures
            r.spec_name() == name@,
            r.spec_argc() == argc,
            r.spec_flags() == flags,
            r.spec_imp() == FunctionImpl::<S, A>::Aggregate(f),
    {
        ExternalFunc { name, argc, flags, imp: FunctionImpl::Aggregate(f) }
    }

    pub fn name(&self) -> (r: &str)
        ensures
            r@ == self.spec_name(),
    {
        self.name.as_str()
    }

    pub fn argc(&self) -> (r: i32)
        ensures
            r == self.spec_argc(),
    {
        self.argc
    }

    pub fn flags(&self) -> (r: FunctionFlags)
        ensures
            r == self.spec_flags(),
    {
        self.flags
    }

    pub fn imp(&self) -> (r: &FunctionImpl<S, A>)
        ensures
            *r == self.spec_imp(),
    {
        &self.imp
    }

    pub fn is_aggregate(&self) -> (r: bool)
        ensures
            r == (self.spec_imp() is Aggregate),
    {
        matches!(self.imp, FunctionImpl::Aggregate(_))
    }

    /// Whether the same arguments always give the same result.
    pub fn is_deterministic(&self) -> (r: bool)
        ensures
            r == self.spec_flags().has(FunctionFlags::DETERMINISTIC),
    {
        self.flags.contains(FunctionFlags::DETERMINISTIC)
    }

    pub fn matches_arg_count(&self, arg_count: usize) -> (r: bool)
        ensures
            r == self.accepts(arg_count as nat),
    {
        self.argc < 0 || self.argc as usize == arg_count
    }

    /// Whether the function may be used with `OVER`: a scalar function never, an aggregate when it
    /// says so itself.
    pub fn supports_window<C, O>(&self) -> (r: bool) where A: AggregateFunction<C, O>
        ensures
            match self.spec_imp() {
                FunctionImpl::Scalar(_) => !r,
                FunctionImpl::Aggregate(agg) => answers_window::<A, C, O>(&*agg, r),
            },
    {
        match &self.imp {
            FunctionImpl::Aggregate(agg) => {
                let answer = ask_window::<A, C, O>(&**agg);
                self.windows_if(answer)
            },
            FunctionImpl::Scalar(_) => self.windows_if(false),
        }
    }

    /// Whether the function may be used with `OVER`, given what the aggregate behind it answered.
    pub fn windows_if(&self, aggregate_answer: bool) -> (r: bool)
        ensures
            r == (self.spec_imp() is Aggregate && aggregate_answer),
    {
        self.is_aggregate() && aggregate_answer
    }

    pub fn as_scalar(&self) -> (r: Option<&Arc<S>>)
        ensures
            match r {
                Some(f) => self.spec_imp() == FunctionImpl::<S, A>::Scalar(*f),
                None => self.spec_imp() is Aggregate,
            },
    {
        match &self.imp {
            FunctionImpl::Scalar(f) => Some(f),
            FunctionImpl::Aggregate(_) => None,
        }
    }

    pub fn as_aggregate(&self) -> (r: Option<&Arc<A>>)
        ensures
            match r {
                Some(f) => self.spec_imp() == FunctionImpl::<S, A>::Aggregate(*f),
                None => self.spec_imp() is Scalar,
            },
    {
        match &self.imp {
            FunctionImpl::Aggregate(f) => Some(f),
            FunctionImpl::Scalar(_) => None,
        }
    }
}

/// An aggregate at one call site. A variadic aggregate can be called with different argument counts
/// in one statement, and the engine needs the call's own count.
#[verifier::reject_recursive_types(S)]
#[verifier::reject_recursive_types(A)]
pub struct ExternalAggCall<S, A> {
    pub func: Arc<ExternalFunc<S, A>>,
    pub argc: usize,
}

impl<S, A> Clone for ExternalAggCall<S, A> {
    fn clone(&self) -> (r: Self)
        ensures
            r == *self,
    {
        ExternalAggCall { func: self.func.clone(), argc: self.argc }
    }
}

}
