//! Functions made from closures.

use std::sync::Arc;
use vstd::prelude::*;

use crate::context::FunctionContext;
use crate::error::{LimboError, Result};
use crate::function::{AggregateFunction, AggregateState, ScalarFunction};
use crate::turns::{Call, Rules, Turn};
use crate::value::{Value, ValueRef};

verus! {

/// A `ScalarFunction` that calls a closure.
#[verifier::reject_recursive_types(C)]
#[verifier::reject_recursive_types(O)]
pub struct ClosureScalar<C, O, F> where
    F: Fn(&mut FunctionContext<'_, C, O>, &[ValueRef<'_>]) -> Result<Value> + Send + Sync + 'static,
 {
    f: F,
    _types: Ghost<Option<(C, O)>>,
}

/// Whether a closure can be called as a scalar function with any context and any arguments.
pub open spec fn total_scalar<C, O, F>(f: F) -> bool where
    F: Fn(&mut FunctionContext<'_, C, O>, &[ValueRef<'_>]) -> Result<Value>,
 {
    forall|ctx: &mut FunctionContext<'_, C, O>, args: &[ValueRef<'_>]|
        call_requires(f, (ctx, args))
}

/// Build a `ScalarFunction` from a closure.
pub fn scalar_from_fn<C, O, F>(f: F) -> (r: ClosureScalar<C, O, F>) where
    F: Fn(&mut FunctionContext<'_, C, O>, &[ValueRef<'_>]) -> Result<Value> + Send + Sync + 'static,

    requires
        total_scalar::<C, O, F>(f),
    ensures
        r.spec_fn() == f,
{
    ClosureScalar { f, _types: Ghost(None) }
}

impl<C, O, F> ClosureScalar<C, O, F> where
    F: Fn(&mut FunctionContext<'_, C, O>, &[ValueRef<'_>]) -> Result<Value> + Send + Sync + 'static,
 {
    #[verifier::type_invariant]
    spec fn total(self) -> bool {
        total_scalar::<C, O, F>(self.f)
    }

    pub closed spec fn spec_fn(&self) -> F {
        self.f
    }
}

impl<C, O, F> ScalarFunction<C, O> for ClosureScalar<C, O, F> where
    F: Fn(&mut FunctionContext<'_, C, O>, &[ValueRef<'_>]) -> Result<Value> + Send + Sync + 'static,
 {
    /// Exactly one call of the closure, on the same context and arguments.
    fn call(&self, ctx: &mut FunctionContext<'_, C, O>, args: &[ValueRef<'_>]) -> (r: Result<Value>)
        ensures
            exists|c: &mut FunctionContext<'_, C, O>|
                *c == *old(ctx) && *final(c) == *final(ctx) && call_ensures(
                    self.spec_fn(),
                    (c, args),
                    r,
                ),
    {
        proof {
            use_type_invariant(self);
        }
        (self.f)(ctx, args)
    }
}

/// Whether a step closure can be called with any accumulator and any arguments.
pub open spec fn total_step<S, St>(step: St) -> bool where
    St: Fn(&mut S, &[ValueRef<'_>]) -> Result<()>,
 {
    forall|state: &mut S, args: &[ValueRef<'_>]| call_requires(step, (state, args))
}

/// Whether a finalize closure can be called with any accumulator.
pub open spec fn total_finalize<S, Fin>(finalize: Fin) -> bool where Fin: Fn(S) -> Result<Value> {
    forall|state: S| call_requires(finalize, (state,))
}

#[verifier::reject_recursive_types(S)]
pub struct ClosureAggInner<S, St, Fin> where
    S: Send + 'static,
    St: Fn(&mut S, &[ValueRef<'_>]) -> Result<()> + Send + Sync + 'static,
    Fin: Fn(S) -> Result<Value> + Send + Sync + 'static,
 {
    step: St,
    finalize: Fin,
    _state: Ghost<Option<S>>,
}

impl<S, St, Fin> ClosureAggInner<S, St, Fin> where
    S: Send + 'static,
    St: Fn(&mut S, &[ValueRef<'_>]) -> Result<()> + Send + Sync + 'static,
    Fin: Fn(S) -> Result<Value> + Send + Sync + 'static,
 {
    #[verifier::type_invariant]
    spec fn total(self) -> bool {
        total_step::<S, St>(self.step) && total_finalize::<S, Fin>(self.finalize)
    }
}

/// An `AggregateFunction` made of closures.
#[verifier::reject_recursive_types(S)]
pub struct ClosureAggregate<S, I, St, Fin> where
    S: Send + 'static,
    I: Fn() -> S + Send + Sync + 'static,
    St: Fn(&mut S, &[ValueRef<'_>]) -> Result<()> + Send + Sync + 'static,
    Fin: Fn(S) -> Result<Value> + Send + Sync + 'static,
 {
    init: I,
    inner: Arc<ClosureAggInner<S, St, Fin>>,
}

/// The accumulator of one group: what `step` made of the value of `init`, and the closures that
/// work on it. The value is away while `step` has it.
#[verifier::reject_recursive_types(S)]
pub struct ClosureAggregateState<S, St, Fin> where
    S: Send + 'static,
    St: Fn(&mut S, &[ValueRef<'_>]) -> Result<()> + Send + Sync + 'static,
    Fin: Fn(S) -> Result<Value> + Send + Sync + 'static,
 {
    state: Option<S>,
    inner: Arc<ClosureAggInner<S, St, Fin>>,
}

/// One call of a step closure: what it leaves of an accumulator and what it returns.
pub fn run_step<S, St>(step: &St, state: S, args: &[ValueRef<'_>]) -> (r: (S, Result<()>)) where
    St: Fn(&mut S, &[ValueRef<'_>]) -> Result<()>,

    requires
        total_step::<S, St>(*step),
    ensures
        exists|s: &mut S|
            *s == state && *final(s) == r.0 && call_ensures(*step, (s, args), r.1),
{
    let mut left = state;
    let r = (*step)(&mut left, args);
    (left, r)
}

/// Whether one call of the step closure can make `after` of `before` and return `r`.
pub open spec fn stepped<'a, S, St>(
    step: St,
    before: S,
    args: &'a [ValueRef<'a>],
    after: S,
    r: Result<()>,
) -> bool where St: Fn(&mut S, &[ValueRef<'_>]) -> Result<()> {
    call_ensures(run_step::<S, St>, (&step, before, args), (after, r))
}

/// The error of an accumulator whose value a step never gave back.
pub open spec fn given_up() -> crate::error::ErrorView {
    crate::error::ErrorView::InternalError("the accumulator is gone"@)
}

/// What an accumulator made of closures goes through: `step` for each row, `finalize` in the end,
/// and no window frame. Its closures see nothing of the context.
pub open spec fn closure_rules<'a, S, St, Fin, C, O>(
    step: St,
    finalize: Fin,
) -> Rules<'a, Option<S>, C, O> where
    St: Fn(&mut S, &[ValueRef<'_>]) -> Result<()>,
    Fin: Fn(S) -> Result<Value>,
 {
    Rules {
        step: |
            a: Option<S>,
            before: FunctionContext<'a, C, O>,
            b: Option<S>,
            after: FunctionContext<'a, C, O>,
            args: &'a [ValueRef<'a>],
            r: Result<()>,
        |
            after == before && match (a, b) {
                (Some(x), Some(y)) => stepped(step, x, args, y, r),
                (None, None) => r is Err && r->Err_0@ == given_up(),
                _ => false,
            },
        inverse: |
            a: Option<S>,
            before: FunctionContext<'a, C, O>,
            b: Option<S>,
            after: FunctionContext<'a, C, O>,
            args: &'a [ValueRef<'a>],
            r: Result<()>,
        | false,
        value: |
            a: Option<S>,
            before: FunctionContext<'a, C, O>,
            b: Option<S>,
            after: FunctionContext<'a, C, O>,
            r: Result<Value>,
        | false,
        finalize: |
            a: Option<S>,
            before: FunctionContext<'a, C, O>,
            after: FunctionContext<'a, C, O>,
            r: Result<Value>,
        |
            after == before && match a {
                Some(last) => call_ensures(finalize, (last,), r),
                None => r is Err && r->Err_0@ == given_up(),
            },
    }
}

impl<S, I, St, Fin> ClosureAggregate<S, I, St, Fin> where
    S: Send + 'static,
    I: Fn() -> S + Send + Sync + 'static,
    St: Fn(&mut S, &[ValueRef<'_>]) -> Result<()> + Send + Sync + 'static,
    Fin: Fn(S) -> Result<Value> + Send + Sync + 'static,
 {
    #[verifier::type_invariant]
    spec fn total(self) -> bool {
        call_requires(self.init, ())
    }

    pub closed spec fn init_fn(&self) -> I {
        self.init
    }

    pub closed spec fn step_fn(&self) -> St {
        self.inner.step
    }

    pub closed spec fn finalize_fn(&self) -> Fin {
        self.inner.finalize
    }

    /// The accumulator of a new group.
    pub fn new_state(&self) -> (r: ClosureAggregateState<S, St, Fin>)
        ensures
            r.spec_state() is Some,
            call_ensures(self.init_fn(), (), r.spec_state()->Some_0),
            r.step_fn() == self.step_fn(),
            r.finalize_fn() == self.finalize_fn(),
    {
        proof {
            use_type_invariant(self);
        }
        ClosureAggregateState { state: Some((self.init)()), inner: self.inner.clone() }
    }
}

impl<S, St, Fin> ClosureAggregateState<S, St, Fin> where
    S: Send + 'static,
    St: Fn(&mut S, &[ValueRef<'_>]) -> Result<()> + Send + Sync + 'static,
    Fin: Fn(S) -> Result<Value> + Send + Sync + 'static,
 {
    pub closed spec fn spec_state(&self) -> Option<S> {
        self.state
    }

    pub closed spec fn step_fn(&self) -> St {
        self.inner.step
    }

    pub closed spec fn finalize_fn(&self) -> Fin {
        self.inner.finalize
    }
}

/// Build an `AggregateFunction` from `init` / `step` / `finalize` closures. No window support.
pub fn aggregate_from_fns<S, I, St, Fin>(
    init: I,
    step: St,
    finalize: Fin,
) -> (r: ClosureAggregate<S, I, St, Fin>) where
    S: Send + 'static,
    I: Fn() -> S + Send + Sync + 'static,
    St: Fn(&mut S, &[ValueRef<'_>]) -> Result<()> + Send + Sync + 'static,
    Fin: Fn(S) -> Result<Value> + Send + Sync + 'static,

    requires
        call_requires(init, ()),
        total_step::<S, St>(step),
        total_finalize::<S, Fin>(finalize),
    ensures
        r.init_fn() == init,
        r.step_fn() == step,
        r.finalize_fn() == finalize,
{
    ClosureAggregate {
        init,
        inner: Arc::new(ClosureAggInner { step, finalize, _state: Ghost(None) }),
    }
}

impl<S, I, St, Fin, C, O> AggregateFunction<C, O> for ClosureAggregate<S, I, St, Fin> where
    S: Send + 'static,
    I: Fn() -> S + Send + Sync + 'static,
    St: Fn(&mut S, &[ValueRef<'_>]) -> Result<()> + Send + Sync + 'static,
    Fin: Fn(S) -> Result<Value> + Send + Sync + 'static,
 {
    fn init(
        &self,
        ctx: &mut FunctionContext<'_, C, O>,
    ) -> (r: Result<Box<dyn AggregateState<C, O>>>)
        ensures
            r is Ok,
            exists|first: S| #[trigger]
                call_ensures(self.init_fn(), (), first) && forall|
                    turns: Seq<Turn<'_, C, O>>,
                | #[trigger]
                    r->Ok_0.may(turns) ==> crate::turns::traced(
                        closure_rules(self.step_fn(), self.finalize_fn()),
                        Some(first),
                        turns,
                    ),
            *final(ctx) == *old(ctx),
    {
        let state = self.new_state();
        let ghost first = state.spec_state()->Some_0;
        assert(call_ensures(self.init_fn(), (), first));
        Ok(Box::new(state))
    }
}

impl<S, St, Fin, C, O> AggregateState<C, O> for ClosureAggregateState<S, St, Fin> where
    S: Send + 'static,
    St: Fn(&mut S, &[ValueRef<'_>]) -> Result<()> + Send + Sync + 'static,
    Fin: Fn(S) -> Result<Value> + Send + Sync + 'static,
 {
    open spec fn may(&self, turns: Seq<Turn<'_, C, O>>) -> bool {
        crate::turns::traced(
            closure_rules(self.step_fn(), self.finalize_fn()),
            self.spec_state(),
            turns,
        )
    }

    /// One call of the step closure on the accumulator; the context is not touched.
    fn step(
        &mut self,
        ctx: &mut FunctionContext<'_, C, O>,
        args: &[ValueRef<'_>],
    ) -> (r: Result<()>)
        ensures
            old(self).spec_state() is Some ==> final(self).spec_state() is Some && stepped(
                old(self).step_fn(),
                old(self).spec_state()->Some_0,
                args,
                final(self).spec_state()->Some_0,
                r,
            ),
            old(self).spec_state() is None ==> *final(self) == *old(self) && r is Err
                && r->Err_0@ == given_up(),
            final(self).step_fn() == old(self).step_fn(),
            final(self).finalize_fn() == old(self).finalize_fn(),
            *final(ctx) == *old(ctx),
    {
        proof {
            use_type_invariant(&*self.inner);
        }
        let ghost before = self.state;
        let r = match self.state.take() {
            Some(state) => {
                let (left, r) = run_step(&self.inner.step, state, args);
                self.state = Some(left);
                r
            },
            None => Err(LimboError::InternalError("the accumulator is gone".to_owned())),
        };
        proof {
            let rules = closure_rules(self.step_fn(), self.finalize_fn());
            let turn = Turn { before: *old(ctx), call: Call::Step { args, r }, after: *ctx };
            crate::turns::lemma_turn_first(rules, before, turn, self.state);
        }
        r
    }

    /// One call of the finalize closure, which consumes the accumulator.
    fn finalize(self: Box<Self>, ctx: &mut FunctionContext<'_, C, O>) -> (r: Result<Value>)
        ensures
            self.spec_state() is Some ==> call_ensures(
                self.finalize_fn(),
                (self.spec_state()->Some_0,),
                r,
            ),
            self.spec_state() is None ==> r is Err && r->Err_0@ == given_up(),
            *final(ctx) == *old(ctx),
    {
        let this = *self;
        proof {
            use_type_invariant(&*this.inner);
        }
        let r = match this.state {
            Some(state) => (this.inner.finalize)(state),
            None => Err(LimboError::InternalError("the accumulator is gone".to_owned())),
        };
        proof {
            let turn = Turn { before: *old(ctx), call: Call::Finalize { r }, after: *ctx };
            crate::turns::lemma_last_turn(
                closure_rules(this.step_fn(), this.finalize_fn()),
                this.spec_state(),
                turn,
            );
        }
        r
    }
}

/// Whether the step closure can make `last` of `first` in one call for every row, in the order of
/// the rows, and return the outcomes.
pub open spec fn folded<'a, S, St>(
    step: St,
    first: S,
    rows: Seq<&'a [ValueRef<'a>]>,
    outcomes: Seq<Result<()>>,
    last: S,
) -> bool where St: Fn(&mut S, &[ValueRef<'_>]) -> Result<()>
    decreases rows.len(),
{
    if rows.len() == 0 {
        last == first
    } else {
        exists|next: S| #[trigger]
            stepped(step, first, rows[0], next, outcomes[0]) && folded(
                step,
                next,
                rows.skip(1),
                outcomes.skip(1),
                last,
            )
    }
}

/// The rows of a group that was stepped through these turns.
pub open spec fn rows_of<'a, C, O>(steps: Seq<Turn<'a, C, O>>) -> Seq<&'a [ValueRef<'a>]> {
    steps.map_values(|t: Turn<'a, C, O>| t.call->Step_args)
}

/// What the steps of a group returned.
pub open spec fn outcomes_of<'a, C, O>(steps: Seq<Turn<'a, C, O>>) -> Seq<Result<()>> {
    steps.map_values(|t: Turn<'a, C, O>| t.call->Step_r)
}

/// Whether there is a step of that number.
pub open spec fn is_step<'a, C, O>(steps: Seq<Turn<'a, C, O>>, k: int) -> bool {
    0 <= k < steps.len()
}

proof fn lemma_traced_rows_are_folded<'a, S, St, Fin, C, O>(
    step: St,
    finalize: Fin,
    first: S,
    steps: Seq<Turn<'a, C, O>>,
    end: Turn<'a, C, O>,
) -> (last: S) where
    St: Fn(&mut S, &[ValueRef<'_>]) -> Result<()>,
    Fin: Fn(S) -> Result<Value>,

    requires
        forall|k: int| #[trigger] is_step(steps, k) ==> steps[k].call is Step,
        end.call is Finalize,
        crate::turns::traced(closure_rules(step, finalize), Some(first), steps + seq![end]),
    ensures
        folded(step, first, rows_of(steps), outcomes_of(steps), last),
        call_ensures(finalize, (last,), end.call->Finalize_r),
        forall|k: int| #[trigger] is_step(steps, k) ==> steps[k].after == steps[k].before,
        end.after == end.before,
    decreases steps.len(),
{
    let rules = closure_rules::<S, St, Fin, C, O>(step, finalize);
    let turns = steps + seq![end];
    if steps.len() == 0 {
        assert(turns[0] == end);
        first
    } else {
        let turn = steps[0];
        let rest = steps.skip(1) + seq![end];
        assert(turns =~= seq![turn] + rest);
        assert(is_step(steps, 0));
        let next = crate::turns::lemma_after_turn(rules, Some(first), turn, rest);
        assert forall|k: int| #[trigger] is_step(steps.skip(1), k) implies steps.skip(
            1,
        )[k].call is Step by {
            assert(is_step(steps, k + 1));
        }
        let last = lemma_traced_rows_are_folded(
            step,
            finalize,
            next->Some_0,
            steps.skip(1),
            end,
        );
        assert forall|k: int| #[trigger] is_step(steps, k) implies steps[k].after
            == steps[k].before by {
            if k > 0 {
                assert(is_step(steps.skip(1), k - 1));
            }
        }
        assert(rows_of(steps).skip(1) =~= rows_of(steps.skip(1)));
        assert(outcomes_of(steps).skip(1) =~= outcomes_of(steps.skip(1)));
        assert(stepped(
            step,
            first,
            rows_of(steps)[0],
            next->Some_0,
            outcomes_of(steps)[0],
        ));
        last
    }
}

/// An aggregate made of closures gives each group a value that `init` makes, has `step` turn it
/// once for every row in the order of the rows, returns each time what `step` returned, and
/// answers what `finalize` makes of the last of them. `made` is what `AggregateFunction::init`
/// returned, `steps` are the steps its accumulator went through, one for each row, and `end` is how
/// it was finalized. None of them touches its context.
pub proof fn law_rows_are_folded_in_order<'a, S, I, St, Fin, C, O>(
    agg: &ClosureAggregate<S, I, St, Fin>,
    ctx: &mut FunctionContext<'_, C, O>,
    made: Result<Box<dyn AggregateState<C, O>>>,
    steps: Seq<Turn<'a, C, O>>,
    end: Turn<'a, C, O>,
) where
    S: Send + 'static,
    I: Fn() -> S + Send + Sync + 'static,
    St: Fn(&mut S, &[ValueRef<'_>]) -> Result<()> + Send + Sync + 'static,
    Fin: Fn(S) -> Result<Value> + Send + Sync + 'static,

    requires
        call_ensures(
            <ClosureAggregate<S, I, St, Fin> as AggregateFunction<C, O>>::init,
            (agg, ctx),
            made,
        ),
        forall|k: int| #[trigger] is_step(steps, k) ==> steps[k].call is Step,
        end.call is Finalize,
        made->Ok_0.may(steps + seq![end]),
    ensures
        made is Ok,
        exists|first: S, last: S|
            call_ensures(agg.init_fn(), (), first) && #[trigger] folded(
                agg.step_fn(),
                first,
                rows_of(steps),
                outcomes_of(steps),
                last,
            ) && call_ensures(agg.finalize_fn(), (last,), end.call->Finalize_r),
        forall|k: int| #[trigger] is_step(steps, k) ==> steps[k].after == steps[k].before,
        end.after == end.before,
{
    let first = choose|first: S| #[trigger]
        call_ensures(agg.init_fn(), (), first) && forall|turns: Seq<Turn<'_, C, O>>| #[trigger]
            made->Ok_0.may(turns) ==> crate::turns::traced(
                closure_rules(agg.step_fn(), agg.finalize_fn()),
                Some(first),
                turns,
            );
    let last = lemma_traced_rows_are_folded(
        agg.step_fn(),
        agg.finalize_fn(),
        first,
        steps,
        end,
    );
    assert(folded(agg.step_fn(), first, rows_of(steps), outcomes_of(steps), last));
}

/// As long as an accumulator has its value, a step that fails fails as the `step` closure did, which
/// was called on that value and on nothing else, and a group that fails to finish fails as the
/// `finalize` closure did.
pub proof fn law_closure_errors_are_returned_as_they_are<S, St, Fin, C, O>(
    state: &mut ClosureAggregateState<S, St, Fin>,
    last: Box<ClosureAggregateState<S, St, Fin>>,
    ctx: &mut FunctionContext<'_, C, O>,
    args: &[ValueRef<'_>],
    e: crate::error::LimboError,
) where
    S: Send + 'static,
    St: Fn(&mut S, &[ValueRef<'_>]) -> Result<()> + Send + Sync + 'static,
    Fin: Fn(S) -> Result<Value> + Send + Sync + 'static,

    ensures
        call_ensures(
            <ClosureAggregateState<S, St, Fin> as AggregateState<C, O>>::step,
            (state, ctx, args),
            Err(e),
        ) && old(state).spec_state() is Some ==> exists|s: &mut S|
            Some(*s) == old(state).spec_state() && Some(*final(s)) == final(state).spec_state()
                && call_ensures(old(state).step_fn(), (s, args), Err(e)),
        call_ensures(
            <ClosureAggregateState<S, St, Fin> as AggregateState<C, O>>::finalize,
            (last, ctx),
            Err(e),
        ) && last.spec_state() is Some ==> call_ensures(
            last.finalize_fn(),
            (last.spec_state()->Some_0,),
            Err(e),
        ),
{
}

/// An aggregate made of closures never drives a window frame.
pub proof fn law_closures_have_no_window<S, I, St, Fin, C, O>(
    agg: &ClosureAggregate<S, I, St, Fin>,
    answer: bool,
) where
    S: Send + 'static,
    I: Fn() -> S + Send + Sync + 'static,
    St: Fn(&mut S, &[ValueRef<'_>]) -> Result<()> + Send + Sync + 'static,
    Fin: Fn(S) -> Result<Value> + Send + Sync + 'static,

    requires
        crate::function::answers_window::<ClosureAggregate<S, I, St, Fin>, C, O>(agg, answer),
    ensures
        !answer,
{
}

}
