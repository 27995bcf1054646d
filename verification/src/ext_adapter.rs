//! Adapters that make the functions of an extension look like native ones, so that the engine has
//! one way to call a function.

use std::sync::Arc;
use vstd::prelude::*;

use crate::context::FunctionContext;
use crate::error::{LimboError, Result};
use crate::extension::{take_ext_result, to_ext_values, ExtPayload, ExtValue};
use crate::function::{AggregateFunction, AggregateState, ScalarFunction};
use crate::turns::{Call, Rules, Turn};
use crate::value::{Value, ValueRef};

verus! {

/// Whether a scalar callback can be called with any arguments.
pub open spec fn total_scalar_callback<F>(f: F) -> bool where
    F: Fn(usize, i32, &Vec<ExtValue>) -> ExtValue,
 {
    forall|context: usize, argc: i32, args: &Vec<ExtValue>|
        call_requires(f, (context, argc, args))
}

/// Whether a step callback can be called with any accumulator and arguments.
pub open spec fn total_step_callback<S>(f: S) -> bool where
    S: Fn(usize, usize, i32, &Vec<ExtValue>) -> ExtValue,
 {
    forall|context: usize, state: usize, argc: i32, args: &Vec<ExtValue>|
        call_requires(f, (context, state, argc, args))
}

/// Whether a final callback can be called with any accumulator.
pub open spec fn total_final_callback<Fi>(f: Fi) -> bool where
    Fi: Fn(usize, usize) -> ExtValue,
 {
    forall|context: usize, state: usize| call_requires(f, (context, state))
}

/// A scalar function of an extension with callbacks that return their result. Dropping it drops the
/// destructor of the context, which runs it.
pub struct ExtScalarAdapter<D, F> where
    F: Fn(usize, i32, &Vec<ExtValue>) -> ExtValue + Send + Sync + 'static,
 {
    context: usize,
    callback: F,
    context_destructor: Option<D>,
    /// The version of the interface the extension was built against; decides whether the subtype of
    /// the values it returns can be trusted.
    abi_version: u32,
}

impl<D, F> ExtScalarAdapter<D, F> where
    F: Fn(usize, i32, &Vec<ExtValue>) -> ExtValue + Send + Sync + 'static,
 {
    #[verifier::type_invariant]
    spec fn total(&self) -> bool {
        total_scalar_callback(self.callback)
    }

    /// What runs the destructor of the context, which goes with the adapter.
    pub closed spec fn spec_destructor(&self) -> Option<D> {
        self.context_destructor
    }

    pub closed spec fn spec_context(&self) -> usize {
        self.context
    }

    pub closed spec fn spec_callback(&self) -> F {
        self.callback
    }

    pub closed spec fn spec_abi_version(&self) -> u32 {
        self.abi_version
    }

    /// Assumes the oldest version of the interface, the safe default.
    pub fn new(context: usize, callback: F, context_destructor: Option<D>) -> (r: Self)
        requires
            total_scalar_callback(callback),
        ensures
            r.spec_context() == context,
            r.spec_destructor() == context_destructor,
            r.spec_callback() == callback,
            r.spec_abi_version() == 1,
    {
        ExtScalarAdapter { context, callback, context_destructor, abi_version: 1 }
    }

    #[must_use]
    pub fn with_abi_version(self, abi_version: u32) -> (r: Self)
        ensures
            r.spec_abi_version() == abi_version,
            r.spec_context() == self.spec_context(),
            r.spec_destructor() == self.spec_destructor(),
            r.spec_callback() == self.spec_callback(),
    {
        proof {
            use_type_invariant(&self);
        }
        ExtScalarAdapter {
            context: self.context,
            callback: self.callback,
            context_destructor: self.context_destructor,
            abi_version,
        }
    }
}

impl<D, F, C, O> ScalarFunction<C, O> for ExtScalarAdapter<D, F> where
    D: Send + Sync + 'static,
    F: Fn(usize, i32, &Vec<ExtValue>) -> ExtValue + Send + Sync + 'static,
 {
    /// Copies the arguments, makes one call, and takes its result.
    fn call(&self, ctx: &mut FunctionContext<'_, C, O>, args: &[ValueRef<'_>]) -> (r: Result<Value>)
        ensures
            exists|ext: Vec<ExtValue>, result: ExtValue|
                {
                    &&& #[trigger] crate::extension::ext_copies(*old(ctx), args@, ext@)
                    &&& call_ensures(
                        self.spec_callback(),
                        (self.spec_context(), args@.len() as i32, &ext),
                        result,
                    )
                    &&& #[trigger] crate::extension::taken(
                        *old(ctx),
                        *final(ctx),
                        self.spec_abi_version(),
                        true,
                        result,
                        r,
                    )
                },
    {
        proof {
            use_type_invariant(self);
        }
        let ext = to_ext_values(ctx, args);
        let result = (self.callback)(
            self.context,
            #[verifier::truncate]
            (args.len() as i32),
            &ext,
        );
        let r = take_ext_result(ctx, self.abi_version, true, result);
        assert(crate::extension::taken(
            *old(ctx),
            *ctx,
            self.spec_abi_version(),
            true,
            result,
            r,
        ));
        r
    }
}

/// What the callbacks of an aggregate can return for one accumulator: `step` and the undoing of a
/// step relate the number of arguments, the arguments and the result, `finalize` and the reading of
/// a running value say which results they can give.
pub struct ExtCalls {
    pub step: spec_fn(i32, Vec<ExtValue>, ExtValue) -> bool,
    pub finalize: spec_fn(ExtValue) -> bool,
    /// What reads a running value and what undoes a step; both or neither.
    pub window: Option<
        (spec_fn(ExtValue) -> bool, spec_fn(i32, Vec<ExtValue>, ExtValue) -> bool),
    >,
}

/// Whether a call failed with this message and left its context alone.
pub open spec fn ext_failed<'a, T, C, O>(
    message: Seq<char>,
    before: FunctionContext<'a, C, O>,
    after: FunctionContext<'a, C, O>,
    r: Result<T>,
) -> bool {
    &&& r is Err
    &&& r->Err_0@ == crate::error::ErrorView::ExtensionError(message)
    &&& after == before
}

/// Whether a step came to what a callback returned for copies of the arguments. One that failed
/// ends the aggregate too, so the accumulator is gone afterwards.
pub open spec fn ext_stepped<'a, G, C, O>(
    call: spec_fn(i32, Vec<ExtValue>, ExtValue) -> bool,
    abi_version: u32,
    a: Option<G>,
    before: FunctionContext<'a, C, O>,
    b: Option<G>,
    after: FunctionContext<'a, C, O>,
    args: Seq<ValueRef<'_>>,
    r: Result<()>,
) -> bool {
    &&& exists|ext: Vec<ExtValue>, result: ExtValue, value: Result<Value>|
        {
            &&& #[trigger] crate::extension::ext_copies(before, args, ext@)
            &&& call(args.len() as i32, ext, result)
            &&& #[trigger] crate::extension::taken(
                before,
                after,
                abi_version,
                false,
                result,
                value,
            )
            &&& match value {
                Ok(_) => r is Ok,
                Err(e) => r == Err::<(), LimboError>(e),
            }
        }
    &&& b == (if r is Ok {
        a
    } else {
        None
    })
}

/// Whether an answer is what a callback returned.
pub open spec fn ext_answered<'a, C, O>(
    call: spec_fn(ExtValue) -> bool,
    abi_version: u32,
    before: FunctionContext<'a, C, O>,
    after: FunctionContext<'a, C, O>,
    r: Result<Value>,
) -> bool {
    exists|result: ExtValue|
        call(result) && #[trigger] crate::extension::taken(
            before,
            after,
            abi_version,
            true,
            result,
            r,
        )
}

/// What a step comes to.
pub open spec fn ext_step_turn<'a, G, C, O>(
    calls: ExtCalls,
    abi_version: u32,
    a: Option<G>,
    before: FunctionContext<'a, C, O>,
    b: Option<G>,
    after: FunctionContext<'a, C, O>,
    args: Seq<ValueRef<'_>>,
    r: Result<()>,
) -> bool {
    if a is None {
        b == a && ext_failed(
            "extension aggregate stepped after it was finalized"@,
            before,
            after,
            r,
        )
    } else {
        ext_stepped(calls.step, abi_version, a, before, b, after, args, r)
    }
}

/// What the undoing of a step comes to.
pub open spec fn ext_inverse_turn<'a, G, C, O>(
    calls: ExtCalls,
    abi_version: u32,
    a: Option<G>,
    before: FunctionContext<'a, C, O>,
    b: Option<G>,
    after: FunctionContext<'a, C, O>,
    args: Seq<ValueRef<'_>>,
    r: Result<()>,
) -> bool {
    match calls.window {
        None => b == a && ext_failed(
            "extension aggregate has no xInverse callback"@,
            before,
            after,
            r,
        ),
        Some((_, inverse)) => if a is None {
            b == a && ext_failed(
                "extension aggregate inverse-stepped after it was finalized"@,
                before,
                after,
                r,
            )
        } else {
            ext_stepped(inverse, abi_version, a, before, b, after, args, r)
        },
    }
}

/// What the reading of a running value comes to; the accumulator is as it was.
pub open spec fn ext_value_turn<'a, G, C, O>(
    calls: ExtCalls,
    abi_version: u32,
    a: Option<G>,
    before: FunctionContext<'a, C, O>,
    after: FunctionContext<'a, C, O>,
    r: Result<Value>,
) -> bool {
    match calls.window {
        None => ext_failed("extension aggregate has no xValue callback"@, before, after, r),
        Some((value, _)) => if a is None {
            ext_failed("extension aggregate read after it was finalized"@, before, after, r)
        } else {
            ext_answered(value, abi_version, before, after, r)
        },
    }
}

/// What the end of a group comes to.
pub open spec fn ext_final_turn<'a, G, C, O>(
    calls: ExtCalls,
    abi_version: u32,
    a: Option<G>,
    before: FunctionContext<'a, C, O>,
    after: FunctionContext<'a, C, O>,
    r: Result<Value>,
) -> bool {
    if a is None {
        ext_failed("extension aggregate finalized twice"@, before, after, r)
    } else {
        ext_answered(calls.finalize, abi_version, before, after, r)
    }
}

/// What the accumulator of an extension goes through: each turn is one call of the callback for it,
/// as long as the accumulator has not been handed back.
pub open spec fn ext_rules<'a, G, C, O>(calls: ExtCalls, abi_version: u32) -> Rules<
    'a,
    Option<G>,
    C,
    O,
> {
    Rules {
        step: |
            a: Option<G>,
            before: FunctionContext<'a, C, O>,
            b: Option<G>,
            after: FunctionContext<'a, C, O>,
            args: &'a [ValueRef<'a>],
            r: Result<()>,
        |
            ext_step_turn(calls, abi_version, a, before, b, after, args@, r),
        inverse: |
            a: Option<G>,
            before: FunctionContext<'a, C, O>,
            b: Option<G>,
            after: FunctionContext<'a, C, O>,
            args: &'a [ValueRef<'a>],
            r: Result<()>,
        |
            ext_inverse_turn(calls, abi_version, a, before, b, after, args@, r),
        value: |
            a: Option<G>,
            before: FunctionContext<'a, C, O>,
            b: Option<G>,
            after: FunctionContext<'a, C, O>,
            r: Result<Value>,
        |
            b == a && ext_value_turn(calls, abi_version, a, before, after, r),
        finalize: |
            a: Option<G>,
            before: FunctionContext<'a, C, O>,
            after: FunctionContext<'a, C, O>,
            r: Result<Value>,
        |
            ext_final_turn(calls, abi_version, a, before, after, r),
    }
}

/// What callbacks that return their result can return for the accumulator at `state`.
pub open spec fn agg_calls<S, Fi>(
    context: usize,
    state: usize,
    step: S,
    finalize: Fi,
    window: Option<(Fi, S)>,
) -> ExtCalls where
    S: Fn(usize, usize, i32, &Vec<ExtValue>) -> ExtValue + Send + Sync + 'static,
    Fi: Fn(usize, usize) -> ExtValue + Send + Sync + 'static,
 {
    ExtCalls {
        step: |argc: i32, ext: Vec<ExtValue>, result: ExtValue|
            call_ensures(step, (context, state, argc, &ext), result),
        finalize: |result: ExtValue| call_ensures(finalize, (context, state), result),
        window: match window {
            None => None,
            Some((value, inverse)) => Some(
                (
                    |result: ExtValue| call_ensures(value, (context, state), result),
                    |argc: i32, ext: Vec<ExtValue>, result: ExtValue|
                        call_ensures(inverse, (context, state, argc, &ext), result),
                ),
            ),
        },
    }
}

/// What every accumulator of one aggregate shares.
pub struct ExtAggCallbacks<S, Fi> where
    S: Fn(usize, usize, i32, &Vec<ExtValue>) -> ExtValue + Send + Sync + 'static,
    Fi: Fn(usize, usize) -> ExtValue + Send + Sync + 'static,
 {
    context: usize,
    step: S,
    finalize: Fi,
    /// What reads a running value and what undoes a step; both or neither.
    window: Option<(Fi, S)>,
}

impl<S, Fi> ExtAggCallbacks<S, Fi> where
    S: Fn(usize, usize, i32, &Vec<ExtValue>) -> ExtValue + Send + Sync + 'static,
    Fi: Fn(usize, usize) -> ExtValue + Send + Sync + 'static,
 {
    #[verifier::type_invariant]
    spec fn total(&self) -> bool {
        &&& total_step_callback(self.step)
        &&& total_final_callback(self.finalize)
        &&& self.window is Some ==> total_final_callback((self.window->0).0)
            && total_step_callback((self.window->0).1)
    }
}

/// An aggregate of an extension. Dropping it drops the destructor of the context, which runs it. `I`
/// makes an accumulator: its address, and what hands it back to the extension when dropped.
#[verifier::reject_recursive_types(G)]
pub struct ExtAggregateAdapter<D, G, I, S, Fi> where
    G: Send + 'static,
    I: Fn(usize) -> Option<(usize, G)> + Send + Sync + 'static,
    S: Fn(usize, usize, i32, &Vec<ExtValue>) -> ExtValue + Send + Sync + 'static,
    Fi: Fn(usize, usize) -> ExtValue + Send + Sync + 'static,
 {
    init: I,
    callbacks: Arc<ExtAggCallbacks<S, Fi>>,
    context_destructor: Option<D>,
    abi_version: u32,
}

/// The accumulator of one group.
pub struct ExtAggState<G, S, Fi> where
    G: Send + 'static,
    S: Fn(usize, usize, i32, &Vec<ExtValue>) -> ExtValue + Send + Sync + 'static,
    Fi: Fn(usize, usize) -> ExtValue + Send + Sync + 'static,
 {
    callbacks: Arc<ExtAggCallbacks<S, Fi>>,
    state: usize,
    /// None once the accumulator was handed back, so that it is not handed back twice.
    accumulator: Option<G>,
    abi_version: u32,
}

impl<D, G, I, S, Fi> ExtAggregateAdapter<D, G, I, S, Fi> where
    G: Send + 'static,
    I: Fn(usize) -> Option<(usize, G)> + Send + Sync + 'static,
    S: Fn(usize, usize, i32, &Vec<ExtValue>) -> ExtValue + Send + Sync + 'static,
    Fi: Fn(usize, usize) -> ExtValue + Send + Sync + 'static,
 {
    #[verifier::type_invariant]
    spec fn total(&self) -> bool {
        forall|context: usize| call_requires(self.init, (context,))
    }

    /// What runs the destructor of the context, which goes with the adapter.
    pub closed spec fn spec_destructor(&self) -> Option<D> {
        self.context_destructor
    }

    pub closed spec fn spec_context(&self) -> usize {
        self.callbacks.context
    }

    pub closed spec fn spec_init(&self) -> I {
        self.init
    }

    pub closed spec fn spec_step(&self) -> S {
        self.callbacks.step
    }

    pub closed spec fn spec_finalize(&self) -> Fi {
        self.callbacks.finalize
    }

    pub closed spec fn spec_window(&self) -> Option<(Fi, S)> {
        self.callbacks.window
    }

    pub closed spec fn spec_abi_version(&self) -> u32 {
        self.abi_version
    }

    /// Assumes the oldest version of the interface.
    pub fn new(
        context: usize,
        init: I,
        step: S,
        finalize: Fi,
        context_destructor: Option<D>,
    ) -> (r: Self)
        requires
            forall|context: usize| call_requires(init, (context,)),
            total_step_callback(step),
            total_final_callback(finalize),
        ensures
            r.spec_context() == context,
            r.spec_destructor() == context_destructor,
            r.spec_init() == init,
            r.spec_step() == step,
            r.spec_finalize() == finalize,
            r.spec_window() is None,
            r.spec_abi_version() == 1,
    {
        ExtAggregateAdapter {
            init,
            callbacks: Arc::new(ExtAggCallbacks { context, step, finalize, window: None }),
            context_destructor,
            abi_version: 1,
        }
    }

    /// The same, with the callbacks that let the aggregate run as a window function.
    pub fn new_window(
        context: usize,
        init: I,
        step: S,
        finalize: Fi,
        value: Fi,
        inverse: S,
        context_destructor: Option<D>,
    ) -> (r: Self)
        requires
            forall|context: usize| call_requires(init, (context,)),
            total_step_callback(step),
            total_final_callback(finalize),
            total_final_callback(value),
            total_step_callback(inverse),
        ensures
            r.spec_context() == context,
            r.spec_destructor() == context_destructor,
            r.spec_init() == init,
            r.spec_step() == step,
            r.spec_finalize() == finalize,
            r.spec_window() == Some((value, inverse)),
            r.spec_abi_version() == 1,
    {
        ExtAggregateAdapter {
            init,
            callbacks: Arc::new(
                ExtAggCallbacks { context, step, finalize, window: Some((value, inverse)) },
            ),
            context_destructor,
            abi_version: 1,
        }
    }

    #[must_use]
    pub fn with_abi_version(self, abi_version: u32) -> (r: Self)
        ensures
            r.spec_abi_version() == abi_version,
            r.spec_context() == self.spec_context(),
            r.spec_destructor() == self.spec_destructor(),
            r.spec_init() == self.spec_init(),
            r.spec_step() == self.spec_step(),
            r.spec_finalize() == self.spec_finalize(),
            r.spec_window() == self.spec_window(),
    {
        proof {
            use_type_invariant(&self);
        }
        ExtAggregateAdapter {
            init: self.init,
            callbacks: self.callbacks,
            context_destructor: self.context_destructor,
            abi_version,
        }
    }

    /// Whether the aggregate has what it takes to drive a window frame.
    pub fn can_window(&self) -> (r: bool)
        ensures
            r == (self.spec_window() is Some),
    {
        self.callbacks.window.is_some()
    }

    /// The accumulator of a new group, or the error of an extension that made none.
    pub fn new_state(&self) -> (r: Result<ExtAggState<G, S, Fi>>)
        ensures
            exists|made: Option<(usize, G)>|
                {
                    &&& #[trigger] call_ensures(self.spec_init(), (self.spec_context(),), made)
                    &&& match (made, r) {
                        (Some((address, accumulator)), Ok(state)) => {
                            &&& state.spec_accumulator() == Some(accumulator)
                            &&& state.spec_state() == address
                            &&& state.spec_context() == self.spec_context()
                            &&& state.spec_step() == self.spec_step()
                            &&& state.spec_finalize() == self.spec_finalize()
                            &&& state.spec_window() == self.spec_window()
                            &&& state.spec_abi_version() == self.spec_abi_version()
                        },
                        (None, Err(e)) => e@ == crate::error::ErrorView::ExtensionError(
                            "aggregate init returned a null accumulator"@,
                        ),
                        _ => false,
                    }
                },
    {
        proof {
            use_type_invariant(self);
        }
        let made = (self.init)(self.callbacks.context);
        assert(call_ensures(self.spec_init(), (self.spec_context(),), made));
        match made {
            None => Err(
                LimboError::ExtensionError("aggregate init returned a null accumulator".to_owned()),
            ),
            Some((state, accumulator)) => Ok(
                ExtAggState {
                    callbacks: self.callbacks.clone(),
                    state,
                    accumulator: Some(accumulator),
                    abi_version: self.abi_version,
                },
            ),
        }
    }
}

impl<D, G, I, S, Fi, C, O> AggregateFunction<C, O> for ExtAggregateAdapter<D, G, I, S, Fi> where
    D: Send + Sync + 'static,
    G: Send + 'static,
    I: Fn(usize) -> Option<(usize, G)> + Send + Sync + 'static,
    S: Fn(usize, usize, i32, &Vec<ExtValue>) -> ExtValue + Send + Sync + 'static,
    Fi: Fn(usize, usize) -> ExtValue + Send + Sync + 'static,
 {
    fn init(&self, ctx: &mut FunctionContext<'_, C, O>) -> (r: Result<
        Box<dyn AggregateState<C, O>>,
    >)
        ensures
            *final(ctx) == *old(ctx),
            exists|made: Option<(usize, G)>|
                {
                    &&& #[trigger] call_ensures(self.spec_init(), (self.spec_context(),), made)
                    &&& match (made, r) {
                        (Some((address, accumulator)), Ok(_)) => forall|
                            turns: Seq<Turn<'_, C, O>>,
                        | #[trigger]
                            r->Ok_0.may(turns) ==> crate::turns::traced(
                                ext_rules(
                                    agg_calls(
                                        self.spec_context(),
                                        address,
                                        self.spec_step(),
                                        self.spec_finalize(),
                                        self.spec_window(),
                                    ),
                                    self.spec_abi_version(),
                                ),
                                Some(accumulator),
                                turns,
                            ),
                        (None, Err(e)) => e@ == crate::error::ErrorView::ExtensionError(
                            "aggregate init returned a null accumulator"@,
                        ),
                        _ => false,
                    }
                },
    {
        match self.new_state() {
            Ok(state) => Ok(Box::new(state)),
            Err(e) => Err(e),
        }
    }

    fn supports_window(&self) -> bool
        returns
            self.spec_window() is Some,
    {
        self.can_window()
    }
}

impl<G, S, Fi> ExtAggState<G, S, Fi> where
    G: Send + 'static,
    S: Fn(usize, usize, i32, &Vec<ExtValue>) -> ExtValue + Send + Sync + 'static,
    Fi: Fn(usize, usize) -> ExtValue + Send + Sync + 'static,
 {
    pub closed spec fn spec_context(&self) -> usize {
        self.callbacks.context
    }

    /// The address of the accumulator.
    pub closed spec fn spec_state(&self) -> usize {
        self.state
    }

    /// Whether the accumulator has not been handed back yet.
    pub open spec fn live(&self) -> bool {
        self.spec_accumulator() is Some
    }

    /// What hands the accumulator back to the extension when dropped, as long as it is there.
    pub closed spec fn spec_accumulator(&self) -> Option<G> {
        self.accumulator
    }

    /// What the callbacks can return for this accumulator.
    pub open spec fn spec_calls(&self) -> ExtCalls {
        agg_calls(
            self.spec_context(),
            self.spec_state(),
            self.spec_step(),
            self.spec_finalize(),
            self.spec_window(),
        )
    }

    pub closed spec fn spec_step(&self) -> S {
        self.callbacks.step
    }

    pub closed spec fn spec_finalize(&self) -> Fi {
        self.callbacks.finalize
    }

    pub closed spec fn spec_window(&self) -> Option<(Fi, S)> {
        self.callbacks.window
    }

    pub closed spec fn spec_abi_version(&self) -> u32 {
        self.abi_version
    }

    /// Another state of the same accumulator, live or not.
    pub open spec fn same_accumulator(&self, other: &Self) -> bool {
        &&& self.spec_context() == other.spec_context()
        &&& self.spec_state() == other.spec_state()
        &&& self.spec_step() == other.spec_step()
        &&& self.spec_finalize() == other.spec_finalize()
        &&& self.spec_window() == other.spec_window()
        &&& self.spec_abi_version() == other.spec_abi_version()
    }

    /// Hands the accumulator back to the extension, once: says whether it was still there.
    pub fn destroy(&mut self) -> (r: bool)
        ensures
            r == old(self).live(),
            !final(self).live(),
            final(self).same_accumulator(old(self)),
    {
        let accumulator = self.accumulator.take();
        accumulator.is_some()
    }

    /// Ends a step: one that failed ends the aggregate too, so the accumulator goes back now.
    fn end_step(&mut self, value: Result<Value>) -> (r: Result<()>)
        requires
            old(self).live(),
        ensures
            final(self).same_accumulator(old(self)),
            final(self).spec_accumulator() == (if value is Ok {
                old(self).spec_accumulator()
            } else {
                None
            }),
            match value {
                Ok(_) => r is Ok,
                Err(e) => r == Err::<(), LimboError>(e),
            },
    {
        match value {
            Ok(_) => Ok(()),
            Err(err) => {
                let _ = self.destroy();
                Err(err)
            },
        }
    }
}

impl<G, S, Fi, C, O> AggregateState<C, O> for ExtAggState<G, S, Fi> where
    G: Send + 'static,
    S: Fn(usize, usize, i32, &Vec<ExtValue>) -> ExtValue + Send + Sync + 'static,
    Fi: Fn(usize, usize) -> ExtValue + Send + Sync + 'static,
 {
    open spec fn may(&self, turns: Seq<Turn<'_, C, O>>) -> bool {
        crate::turns::traced(
            ext_rules(self.spec_calls(), self.spec_abi_version()),
            self.spec_accumulator(),
            turns,
        )
    }

    fn step(
        &mut self,
        ctx: &mut FunctionContext<'_, C, O>,
        args: &[ValueRef<'_>],
    ) -> (r: Result<()>)
        ensures
            final(self).same_accumulator(old(self)),
            ext_step_turn(
                old(self).spec_calls(),
                old(self).spec_abi_version(),
                old(self).spec_accumulator(),
                *old(ctx),
                final(self).spec_accumulator(),
                *final(ctx),
                args@,
                r,
            ),
    {
        let callbacks = self.callbacks.clone();
        proof {
            use_type_invariant(&*callbacks);
        }
        let r = if self.accumulator.is_none() {
            Err(
                LimboError::ExtensionError(
                    "extension aggregate stepped after it was finalized".to_owned(),
                ),
            )
        } else {
            let ext = to_ext_values(ctx, args);
            let result = (callbacks.step)(
                callbacks.context,
                self.state,
                #[verifier::truncate]
                (args.len() as i32),
                &ext,
            );
            let value = take_ext_result(ctx, self.abi_version, false, result);
            assert((self.spec_calls().step)(args@.len() as i32, ext, result));
            assert(crate::extension::taken(
                *old(ctx),
                *ctx,
                old(self).spec_abi_version(),
                false,
                result,
                value,
            ));
            self.end_step(value)
        };
        proof {
            let turn = Turn { before: *old(ctx), call: Call::Step { args, r }, after: *ctx };
            crate::turns::lemma_turn_first(
                ext_rules(self.spec_calls(), self.spec_abi_version()),
                old(self).spec_accumulator(),
                turn,
                self.spec_accumulator(),
            );
        }
        r
    }

    /// The answer; the accumulator goes back to the extension.
    fn finalize(self: Box<Self>, ctx: &mut FunctionContext<'_, C, O>) -> (r: Result<Value>)
        ensures
            ext_final_turn(
                self.spec_calls(),
                self.spec_abi_version(),
                self.spec_accumulator(),
                *old(ctx),
                *final(ctx),
                r,
            ),
    {
        let mut this = *self;
        proof {
            use_type_invariant(&*this.callbacks);
        }
        let r = if this.accumulator.is_none() {
            Err(LimboError::ExtensionError("extension aggregate finalized twice".to_owned()))
        } else {
            let result = (this.callbacks.finalize)(this.callbacks.context, this.state);
            let value = take_ext_result(ctx, this.abi_version, true, result);
            assert((self.spec_calls().finalize)(result));
            assert(crate::extension::taken(*old(ctx), *ctx, self.spec_abi_version(), true, result, value));
            let _ = this.destroy();
            value
        };
        proof {
            let turn = Turn { before: *old(ctx), call: Call::Finalize { r }, after: *ctx };
            crate::turns::lemma_last_turn(ext_rules(self.spec_calls(), self.spec_abi_version()), self.spec_accumulator(), turn);
        }
        r
    }

    fn value(&mut self, ctx: &mut FunctionContext<'_, C, O>) -> (r: Result<Value>)
        ensures
            *final(self) == *old(self),
            ext_value_turn(
                old(self).spec_calls(),
                old(self).spec_abi_version(),
                old(self).spec_accumulator(),
                *old(ctx),
                *final(ctx),
                r,
            ),
    {
        proof {
            use_type_invariant(&*self.callbacks);
        }
        let r = match &self.callbacks.window {
            None => Err(
                LimboError::ExtensionError("extension aggregate has no xValue callback".to_owned()),
            ),
            Some((value, _)) => {
                if self.accumulator.is_none() {
                    Err(
                        LimboError::ExtensionError(
                            "extension aggregate read after it was finalized".to_owned(),
                        ),
                    )
                } else {
                    let result = (*value)(self.callbacks.context, self.state);
                    let r = take_ext_result(ctx, self.abi_version, true, result);
                    assert(((self.spec_calls().window->0).0)(result));
                    assert(crate::extension::taken(*old(ctx), *ctx, self.spec_abi_version(), true, result, r));
                    r
                }
            },
        };
        proof {
            let turn = Turn { before: *old(ctx), call: Call::Value { r }, after: *ctx };
            crate::turns::lemma_turn_first(
                ext_rules(self.spec_calls(), self.spec_abi_version()),
                old(self).spec_accumulator(),
                turn,
                self.spec_accumulator(),
            );
        }
        r
    }

    fn inverse(
        &mut self,
        ctx: &mut FunctionContext<'_, C, O>,
        args: &[ValueRef<'_>],
    ) -> (r: Result<()>)
        ensures
            final(self).same_accumulator(old(self)),
            ext_inverse_turn(
                old(self).spec_calls(),
                old(self).spec_abi_version(),
                old(self).spec_accumulator(),
                *old(ctx),
                final(self).spec_accumulator(),
                *final(ctx),
                args@,
                r,
            ),
    {
        let callbacks = self.callbacks.clone();
        proof {
            use_type_invariant(&*callbacks);
        }
        let r = match &callbacks.window {
            None => Err(
                LimboError::ExtensionError("extension aggregate has no xInverse callback".to_owned()),
            ),
            Some((_, inverse)) => {
                if self.accumulator.is_none() {
                    Err(
                        LimboError::ExtensionError(
                            "extension aggregate inverse-stepped after it was finalized".to_owned(),
                        ),
                    )
                } else {
                    let ext = to_ext_values(ctx, args);
                    let result = (*inverse)(
                        callbacks.context,
                        self.state,
                        #[verifier::truncate]
                        (args.len() as i32),
                        &ext,
                    );
                    let value = take_ext_result(ctx, self.abi_version, false, result);
                    assert(((self.spec_calls().window->0).1)(args@.len() as i32, ext, result));
                    assert(crate::extension::taken(
                        *old(ctx),
                        *ctx,
                        old(self).spec_abi_version(),
                        false,
                        result,
                        value,
                    ));
                    self.end_step(value)
                }
            },
        };
        proof {
            let turn = Turn { before: *old(ctx), call: Call::Inverse { args, r }, after: *ctx };
            crate::turns::lemma_turn_first(
                ext_rules(self.spec_calls(), self.spec_abi_version()),
                old(self).spec_accumulator(),
                turn,
                self.spec_accumulator(),
            );
        }
        r
    }
}

/// Whether a scalar callback can be called with any arguments.
pub open spec fn total_ptr_scalar_callback<F>(f: F) -> bool where
    F: Fn(usize, i32, &Vec<ExtValue>, &mut ExtValue),
 {
    forall|context: usize, argc: i32, args: &Vec<ExtValue>, result: &mut ExtValue|
        call_requires(f, (context, argc, args, result))
}

/// Whether a step callback can be called with any accumulator and arguments.
pub open spec fn total_ptr_step_callback<S>(f: S) -> bool where
    S: Fn(usize, usize, i32, &Vec<ExtValue>, &mut ExtValue),
 {
    forall|context: usize, state: usize, argc: i32, args: &Vec<ExtValue>, result: &mut ExtValue|
        call_requires(f, (context, state, argc, args, result))
}

/// Whether a final callback can be called with any accumulator.
pub open spec fn total_ptr_final_callback<Fi>(f: Fi) -> bool where
    Fi: Fn(usize, usize, &mut ExtValue),
 {
    forall|context: usize, state: usize, result: &mut ExtValue|
        call_requires(f, (context, state, result))
}

/// A scalar function of an extension with callbacks that leave their result in a place they are
/// given. Dropping it drops the destructor of the context, which runs it.
pub struct ExtScalarPtrAdapter<D, F> where
    F: Fn(usize, i32, &Vec<ExtValue>, &mut ExtValue) + Send + Sync + 'static,
 {
    context: usize,
    callback: F,
    context_destructor: Option<D>,
}

impl<D, F> ExtScalarPtrAdapter<D, F> where
    F: Fn(usize, i32, &Vec<ExtValue>, &mut ExtValue) + Send + Sync + 'static,
 {
    #[verifier::type_invariant]
    spec fn total(&self) -> bool {
        total_ptr_scalar_callback(self.callback)
    }

    /// What runs the destructor of the context, which goes with the adapter.
    pub closed spec fn spec_destructor(&self) -> Option<D> {
        self.context_destructor
    }

    pub closed spec fn spec_context(&self) -> usize {
        self.context
    }

    pub closed spec fn spec_callback(&self) -> F {
        self.callback
    }

    pub fn new(context: usize, callback: F, context_destructor: Option<D>) -> (r: Self)
        requires
            total_ptr_scalar_callback(callback),
        ensures
            r.spec_context() == context,
            r.spec_destructor() == context_destructor,
            r.spec_callback() == callback,
    {
        ExtScalarPtrAdapter { context, callback, context_destructor }
    }
}

impl<D, F, C, O> ScalarFunction<C, O> for ExtScalarPtrAdapter<D, F> where
    D: Send + Sync + 'static,
    F: Fn(usize, i32, &Vec<ExtValue>, &mut ExtValue) + Send + Sync + 'static,
 {
    /// Copies the arguments, makes one call, and takes its result.
    fn call(&self, ctx: &mut FunctionContext<'_, C, O>, args: &[ValueRef<'_>]) -> (r: Result<Value>)
        ensures
            exists|ext: Vec<ExtValue>, out: &mut ExtValue|
                {
                    &&& #[trigger] crate::extension::ext_copies(*old(ctx), args@, ext@)
                    &&& *out == (ExtValue { payload: ExtPayload::Null, subtype: 0 })
                    &&& call_ensures(
                        self.spec_callback(),
                        (self.spec_context(), args@.len() as i32, &ext, out),
                        (),
                    )
                    &&& #[trigger] crate::extension::taken(
                        *old(ctx),
                        *final(ctx),
                        1,
                        true,
                        *final(out),
                        r,
                    )
                },
    {
        proof {
            use_type_invariant(self);
        }
        let ext = to_ext_values(ctx, args);
        let mut result = ExtValue::null();
        (self.callback)(
            self.context,
            #[verifier::truncate]
            (args.len() as i32),
            &ext,
            &mut result,
        );
        take_ext_result(ctx, 1, true, result)
    }
}

/// What a step callback that writes its result leaves in one that starts out as NULL.
pub fn run_ptr_step<S>(
    step: &S,
    context: usize,
    state: usize,
    argc: i32,
    args: &Vec<ExtValue>,
) -> (r: ExtValue) where S: Fn(usize, usize, i32, &Vec<ExtValue>, &mut ExtValue)
    requires
        total_ptr_step_callback(*step),
    ensures
        exists|out: &mut ExtValue|
            {
                &&& *out == (ExtValue { payload: ExtPayload::Null, subtype: 0 })
                &&& call_ensures(*step, (context, state, argc, args, out), ())
                &&& *final(out) == r
            },
{
    let mut result = ExtValue::null();
    (*step)(context, state, argc, args, &mut result);
    result
}

/// What a final callback that writes its result leaves in one that starts out as NULL.
pub fn run_ptr_final<Fi>(finalize: &Fi, context: usize, state: usize) -> (r: ExtValue) where
    Fi: Fn(usize, usize, &mut ExtValue),

    requires
        total_ptr_final_callback(*finalize),
    ensures
        exists|out: &mut ExtValue|
            {
                &&& *out == (ExtValue { payload: ExtPayload::Null, subtype: 0 })
                &&& call_ensures(*finalize, (context, state, out), ())
                &&& *final(out) == r
            },
{
    let mut result = ExtValue::null();
    (*finalize)(context, state, &mut result);
    result
}

/// What callbacks that write their result can leave for the accumulator at `state`.
pub open spec fn agg_ptr_calls<S, Fi>(
    context: usize,
    state: usize,
    step: S,
    finalize: Fi,
    window: Option<(Fi, S)>,
) -> ExtCalls where
    S: Fn(usize, usize, i32, &Vec<ExtValue>, &mut ExtValue) + Send + Sync + 'static,
    Fi: Fn(usize, usize, &mut ExtValue) + Send + Sync + 'static,
 {
    ExtCalls {
        step: |argc: i32, ext: Vec<ExtValue>, result: ExtValue|
            call_ensures(run_ptr_step::<S>, (&step, context, state, argc, &ext), result),
        finalize: |result: ExtValue|
            call_ensures(run_ptr_final::<Fi>, (&finalize, context, state), result),
        window: match window {
            None => None,
            Some((value, inverse)) => Some(
                (
                    |result: ExtValue|
                        call_ensures(run_ptr_final::<Fi>, (&value, context, state), result),
                    |argc: i32, ext: Vec<ExtValue>, result: ExtValue|
                        call_ensures(
                            run_ptr_step::<S>,
                            (&inverse, context, state, argc, &ext),
                            result,
                        ),
                ),
            ),
        },
    }
}

/// What every accumulator of one aggregate shares.
pub struct ExtPtrAggCallbacks<S, Fi> where
    S: Fn(usize, usize, i32, &Vec<ExtValue>, &mut ExtValue) + Send + Sync + 'static,
    Fi: Fn(usize, usize, &mut ExtValue) + Send + Sync + 'static,
 {
    context: usize,
    step: S,
    finalize: Fi,
    /// What reads a running value and what undoes a step; both or neither.
    window: Option<(Fi, S)>,
}

impl<S, Fi> ExtPtrAggCallbacks<S, Fi> where
    S: Fn(usize, usize, i32, &Vec<ExtValue>, &mut ExtValue) + Send + Sync + 'static,
    Fi: Fn(usize, usize, &mut ExtValue) + Send + Sync + 'static,
 {
    #[verifier::type_invariant]
    spec fn total(&self) -> bool {
        &&& total_ptr_step_callback(self.step)
        &&& total_ptr_final_callback(self.finalize)
        &&& self.window is Some ==> total_ptr_final_callback((self.window->0).0)
            && total_ptr_step_callback((self.window->0).1)
    }
}

/// An aggregate of an extension. Dropping it drops the destructor of the context, which runs it. `I`
/// makes an accumulator: its address, and what hands it back to the extension when dropped.
#[verifier::reject_recursive_types(G)]
pub struct ExtAggregatePtrAdapter<D, G, I, S, Fi> where
    G: Send + 'static,
    I: Fn(usize) -> Option<(usize, G)> + Send + Sync + 'static,
    S: Fn(usize, usize, i32, &Vec<ExtValue>, &mut ExtValue) + Send + Sync + 'static,
    Fi: Fn(usize, usize, &mut ExtValue) + Send + Sync + 'static,
 {
    init: I,
    callbacks: Arc<ExtPtrAggCallbacks<S, Fi>>,
    context_destructor: Option<D>,
}

/// The accumulator of one group.
pub struct ExtAggPtrState<G, S, Fi> where
    G: Send + 'static,
    S: Fn(usize, usize, i32, &Vec<ExtValue>, &mut ExtValue) + Send + Sync + 'static,
    Fi: Fn(usize, usize, &mut ExtValue) + Send + Sync + 'static,
 {
    callbacks: Arc<ExtPtrAggCallbacks<S, Fi>>,
    state: usize,
    /// None once the accumulator was handed back, so that it is not handed back twice.
    accumulator: Option<G>,
}

impl<D, G, I, S, Fi> ExtAggregatePtrAdapter<D, G, I, S, Fi> where
    G: Send + 'static,
    I: Fn(usize) -> Option<(usize, G)> + Send + Sync + 'static,
    S: Fn(usize, usize, i32, &Vec<ExtValue>, &mut ExtValue) + Send + Sync + 'static,
    Fi: Fn(usize, usize, &mut ExtValue) + Send + Sync + 'static,
 {
    #[verifier::type_invariant]
    spec fn total(&self) -> bool {
        forall|context: usize| call_requires(self.init, (context,))
    }

    /// What runs the destructor of the context, which goes with the adapter.
    pub closed spec fn spec_destructor(&self) -> Option<D> {
        self.context_destructor
    }

    pub closed spec fn spec_context(&self) -> usize {
        self.callbacks.context
    }

    pub closed spec fn spec_init(&self) -> I {
        self.init
    }

    pub closed spec fn spec_step(&self) -> S {
        self.callbacks.step
    }

    pub closed spec fn spec_finalize(&self) -> Fi {
        self.callbacks.finalize
    }

    pub closed spec fn spec_window(&self) -> Option<(Fi, S)> {
        self.callbacks.window
    }

    pub fn new(
        context: usize,
        init: I,
        step: S,
        finalize: Fi,
        window: Option<(Fi, S)>,
        context_destructor: Option<D>,
    ) -> (r: Self)
        requires
            forall|context: usize| call_requires(init, (context,)),
            total_ptr_step_callback(step),
            total_ptr_final_callback(finalize),
            window is Some ==> total_ptr_final_callback((window->0).0) && total_ptr_step_callback(
                (window->0).1,
            ),
        ensures
            r.spec_context() == context,
            r.spec_destructor() == context_destructor,
            r.spec_init() == init,
            r.spec_step() == step,
            r.spec_finalize() == finalize,
            r.spec_window() == window,
    {
        ExtAggregatePtrAdapter {
            init,
            callbacks: Arc::new(ExtPtrAggCallbacks { context, step, finalize, window }),
            context_destructor,
        }
    }

    /// Whether the aggregate has what it takes to drive a window frame.
    pub fn can_window(&self) -> (r: bool)
        ensures
            r == (self.spec_window() is Some),
    {
        self.callbacks.window.is_some()
    }

    /// The accumulator of a new group, or the error of an extension that made none.
    pub fn new_state(&self) -> (r: Result<ExtAggPtrState<G, S, Fi>>)
        ensures
            exists|made: Option<(usize, G)>|
                {
                    &&& #[trigger] call_ensures(self.spec_init(), (self.spec_context(),), made)
                    &&& match (made, r) {
                        (Some((address, accumulator)), Ok(state)) => {
                            &&& state.spec_accumulator() == Some(accumulator)
                            &&& state.spec_state() == address
                            &&& state.spec_context() == self.spec_context()
                            &&& state.spec_step() == self.spec_step()
                            &&& state.spec_finalize() == self.spec_finalize()
                            &&& state.spec_window() == self.spec_window()
                        },
                        (None, Err(e)) => e@ == crate::error::ErrorView::ExtensionError(
                            "aggregate init returned a null accumulator"@,
                        ),
                        _ => false,
                    }
                },
    {
        proof {
            use_type_invariant(self);
        }
        let made = (self.init)(self.callbacks.context);
        assert(call_ensures(self.spec_init(), (self.spec_context(),), made));
        match made {
            None => Err(
                LimboError::ExtensionError("aggregate init returned a null accumulator".to_owned()),
            ),
            Some((state, accumulator)) => Ok(
                ExtAggPtrState {
                    callbacks: self.callbacks.clone(),
                    state,
                    accumulator: Some(accumulator),
                },
            ),
        }
    }
}

impl<D, G, I, S, Fi, C, O> AggregateFunction<C, O> for ExtAggregatePtrAdapter<D, G, I, S, Fi> where
    D: Send + Sync + 'static,
    G: Send + 'static,
    I: Fn(usize) -> Option<(usize, G)> + Send + Sync + 'static,
    S: Fn(usize, usize, i32, &Vec<ExtValue>, &mut ExtValue) + Send + Sync + 'static,
    Fi: Fn(usize, usize, &mut ExtValue) + Send + Sync + 'static,
 {
    fn init(&self, ctx: &mut FunctionContext<'_, C, O>) -> (r: Result<
        Box<dyn AggregateState<C, O>>,
    >)
        ensures
            *final(ctx) == *old(ctx),
            exists|made: Option<(usize, G)>|
                {
                    &&& #[trigger] call_ensures(self.spec_init(), (self.spec_context(),), made)
                    &&& match (made, r) {
                        (Some((address, accumulator)), Ok(_)) => forall|
                            turns: Seq<Turn<'_, C, O>>,
                        | #[trigger]
                            r->Ok_0.may(turns) ==> crate::turns::traced(
                                ext_rules(
                                    agg_ptr_calls(
                                        self.spec_context(),
                                        address,
                                        self.spec_step(),
                                        self.spec_finalize(),
                                        self.spec_window(),
                                    ),
                                    1,
                                ),
                                Some(accumulator),
                                turns,
                            ),
                        (None, Err(e)) => e@ == crate::error::ErrorView::ExtensionError(
                            "aggregate init returned a null accumulator"@,
                        ),
                        _ => false,
                    }
                },
    {
        match self.new_state() {
            Ok(state) => Ok(Box::new(state)),
            Err(e) => Err(e),
        }
    }

    fn supports_window(&self) -> bool
        returns
            self.spec_window() is Some,
    {
        self.can_window()
    }
}

impl<G, S, Fi> ExtAggPtrState<G, S, Fi> where
    G: Send + 'static,
    S: Fn(usize, usize, i32, &Vec<ExtValue>, &mut ExtValue) + Send + Sync + 'static,
    Fi: Fn(usize, usize, &mut ExtValue) + Send + Sync + 'static,
 {
    pub closed spec fn spec_context(&self) -> usize {
        self.callbacks.context
    }

    /// The address of the accumulator.
    pub closed spec fn spec_state(&self) -> usize {
        self.state
    }

    /// Whether the accumulator has not been handed back yet.
    pub open spec fn live(&self) -> bool {
        self.spec_accumulator() is Some
    }

    /// What hands the accumulator back to the extension when dropped, as long as it is there.
    pub closed spec fn spec_accumulator(&self) -> Option<G> {
        self.accumulator
    }

    /// What the callbacks can return for this accumulator.
    pub open spec fn spec_calls(&self) -> ExtCalls {
        agg_ptr_calls(
            self.spec_context(),
            self.spec_state(),
            self.spec_step(),
            self.spec_finalize(),
            self.spec_window(),
        )
    }

    pub closed spec fn spec_step(&self) -> S {
        self.callbacks.step
    }

    pub closed spec fn spec_finalize(&self) -> Fi {
        self.callbacks.finalize
    }

    pub closed spec fn spec_window(&self) -> Option<(Fi, S)> {
        self.callbacks.window
    }

    /// Another state of the same accumulator, live or not.
    pub open spec fn same_accumulator(&self, other: &Self) -> bool {
        &&& self.spec_context() == other.spec_context()
        &&& self.spec_state() == other.spec_state()
        &&& self.spec_step() == other.spec_step()
        &&& self.spec_finalize() == other.spec_finalize()
        &&& self.spec_window() == other.spec_window()
    }

    /// Hands the accumulator back to the extension, once: says whether it was still there.
    pub fn destroy(&mut self) -> (r: bool)
        ensures
            r == old(self).live(),
            !final(self).live(),
            final(self).same_accumulator(old(self)),
    {
        let accumulator = self.accumulator.take();
        accumulator.is_some()
    }

    /// Ends a step: one that failed ends the aggregate too, so the accumulator goes back now.
    fn end_step(&mut self, value: Result<Value>) -> (r: Result<()>)
        requires
            old(self).live(),
        ensures
            final(self).same_accumulator(old(self)),
            final(self).spec_accumulator() == (if value is Ok {
                old(self).spec_accumulator()
            } else {
                None
            }),
            match value {
                Ok(_) => r is Ok,
                Err(e) => r == Err::<(), LimboError>(e),
            },
    {
        match value {
            Ok(_) => Ok(()),
            Err(err) => {
                let _ = self.destroy();
                Err(err)
            },
        }
    }
}

impl<G, S, Fi, C, O> AggregateState<C, O> for ExtAggPtrState<G, S, Fi> where
    G: Send + 'static,
    S: Fn(usize, usize, i32, &Vec<ExtValue>, &mut ExtValue) + Send + Sync + 'static,
    Fi: Fn(usize, usize, &mut ExtValue) + Send + Sync + 'static,
 {
    open spec fn may(&self, turns: Seq<Turn<'_, C, O>>) -> bool {
        crate::turns::traced(
            ext_rules(self.spec_calls(), 1),
            self.spec_accumulator(),
            turns,
        )
    }

    fn step(
        &mut self,
        ctx: &mut FunctionContext<'_, C, O>,
        args: &[ValueRef<'_>],
    ) -> (r: Result<()>)
        ensures
            final(self).same_accumulator(old(self)),
            ext_step_turn(
                old(self).spec_calls(),
                1,
                old(self).spec_accumulator(),
                *old(ctx),
                final(self).spec_accumulator(),
                *final(ctx),
                args@,
                r,
            ),
    {
        let callbacks = self.callbacks.clone();
        proof {
            use_type_invariant(&*callbacks);
        }
        let r = if self.accumulator.is_none() {
            Err(
                LimboError::ExtensionError(
                    "extension aggregate stepped after it was finalized".to_owned(),
                ),
            )
        } else {
            let ext = to_ext_values(ctx, args);
            let result = run_ptr_step(
                &callbacks.step,
                callbacks.context,
                self.state,
                #[verifier::truncate]
                (args.len() as i32),
                &ext,
            );
            let value = take_ext_result(ctx, 1, false, result);
            assert((self.spec_calls().step)(args@.len() as i32, ext, result));
            assert(crate::extension::taken(
                *old(ctx),
                *ctx,
                1,
                false,
                result,
                value,
            ));
            self.end_step(value)
        };
        proof {
            let turn = Turn { before: *old(ctx), call: Call::Step { args, r }, after: *ctx };
            crate::turns::lemma_turn_first(
                ext_rules(self.spec_calls(), 1),
                old(self).spec_accumulator(),
                turn,
                self.spec_accumulator(),
            );
        }
        r
    }

    /// The answer; the accumulator goes back to the extension.
    fn finalize(self: Box<Self>, ctx: &mut FunctionContext<'_, C, O>) -> (r: Result<Value>)
        ensures
            ext_final_turn(
                self.spec_calls(),
                1,
                self.spec_accumulator(),
                *old(ctx),
                *final(ctx),
                r,
            ),
    {
        let mut this = *self;
        proof {
            use_type_invariant(&*this.callbacks);
        }
        let r = if this.accumulator.is_none() {
            Err(LimboError::ExtensionError("extension aggregate finalized twice".to_owned()))
        } else {
            let result = run_ptr_final(&this.callbacks.finalize, this.callbacks.context, this.state);
            let value = take_ext_result(ctx, 1, true, result);
            assert((self.spec_calls().finalize)(result));
            assert(crate::extension::taken(*old(ctx), *ctx, 1, true, result, value));
            let _ = this.destroy();
            value
        };
        proof {
            let turn = Turn { before: *old(ctx), call: Call::Finalize { r }, after: *ctx };
            crate::turns::lemma_last_turn(ext_rules(self.spec_calls(), 1), self.spec_accumulator(), turn);
        }
        r
    }

    fn value(&mut self, ctx: &mut FunctionContext<'_, C, O>) -> (r: Result<Value>)
        ensures
            *final(self) == *old(self),
            ext_value_turn(
                old(self).spec_calls(),
                1,
                old(self).spec_accumulator(),
                *old(ctx),
                *final(ctx),
                r,
            ),
    {
        proof {
            use_type_invariant(&*self.callbacks);
        }
        let r = match &self.callbacks.window {
            None => Err(
                LimboError::ExtensionError("extension aggregate has no xValue callback".to_owned()),
            ),
            Some((value, _)) => {
                if self.accumulator.is_none() {
                    Err(
                        LimboError::ExtensionError(
                            "extension aggregate read after it was finalized".to_owned(),
                        ),
                    )
                } else {
                    let result = run_ptr_final(value, self.callbacks.context, self.state);
                    let r = take_ext_result(ctx, 1, true, result);
                    assert(((self.spec_calls().window->0).0)(result));
                    assert(crate::extension::taken(*old(ctx), *ctx, 1, true, result, r));
                    r
                }
            },
        };
        proof {
            let turn = Turn { before: *old(ctx), call: Call::Value { r }, after: *ctx };
            crate::turns::lemma_turn_first(
                ext_rules(self.spec_calls(), 1),
                old(self).spec_accumulator(),
                turn,
                self.spec_accumulator(),
            );
        }
        r
    }

    fn inverse(
        &mut self,
        ctx: &mut FunctionContext<'_, C, O>,
        args: &[ValueRef<'_>],
    ) -> (r: Result<()>)
        ensures
            final(self).same_accumulator(old(self)),
            ext_inverse_turn(
                old(self).spec_calls(),
                1,
                old(self).spec_accumulator(),
                *old(ctx),
                final(self).spec_accumulator(),
                *final(ctx),
                args@,
                r,
            ),
    {
        let callbacks = self.callbacks.clone();
        proof {
            use_type_invariant(&*callbacks);
        }
        let r = match &callbacks.window {
            None => Err(
                LimboError::ExtensionError("extension aggregate has no xInverse callback".to_owned()),
            ),
            Some((_, inverse)) => {
                if self.accumulator.is_none() {
                    Err(
                        LimboError::ExtensionError(
                            "extension aggregate inverse-stepped after it was finalized".to_owned(),
                        ),
                    )
                } else {
                    let ext = to_ext_values(ctx, args);
                    let result = run_ptr_step(
                        inverse,
                        callbacks.context,
                        self.state,
                        #[verifier::truncate]
                        (args.len() as i32),
                        &ext,
                    );
                    let value = take_ext_result(ctx, 1, false, result);
                    assert(((self.spec_calls().window->0).1)(args@.len() as i32, ext, result));
                    assert(crate::extension::taken(
                        *old(ctx),
                        *ctx,
                        1,
                        false,
                        result,
                        value,
                    ));
                    self.end_step(value)
                }
            },
        };
        proof {
            let turn = Turn { before: *old(ctx), call: Call::Inverse { args, r }, after: *ctx };
            crate::turns::lemma_turn_first(
                ext_rules(self.spec_calls(), 1),
                old(self).spec_accumulator(),
                turn,
                self.spec_accumulator(),
            );
        }
        r
    }
}

}
