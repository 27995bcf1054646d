//! Functions written in Rust by an application: simpler traits than the engine's own, and the
//! adapters between the two. Arguments are borrowed straight out of the query.

use vstd::prelude::*;

use crate::context::FunctionContext;
use crate::error::LimboError;
use crate::function;
use crate::turns::{Call, Turn};
use crate::value;

verus! {

/// An error of an application.
#[derive(Debug)]
pub enum Error {
    /// Something was used in a way it does not support.
    Misuse(String),
    /// Anything else.
    Error(String),
}

pub type Result<T> = core::result::Result<T, Error>;

impl Error {
    pub open spec fn text(&self) -> Seq<char> {
        match self {
            Error::Misuse(m) => m@,
            Error::Error(m) => m@,
        }
    }

    pub fn to_string(&self) -> (r: String)
        ensures
            r@ == self.text(),
    {
        match self {
            Error::Misuse(m) => m.clone(),
            Error::Error(m) => m.clone(),
        }
    }
}

/// A value an application returns.
#[derive(Debug)]
pub enum Value {
    Null,
    Integer(i64),
    Real(value::Real),
    Text(String),
    Blob(Vec<u8>),
}

/// A value an application is called with. Text is its bytes in UTF-8.
#[derive(Clone, Copy, Debug)]
pub enum ValueRef<'a> {
    Null,
    Integer(i64),
    Real(&'a value::Real),
    Text(&'a [u8]),
    Blob(&'a [u8]),
}

impl<'a> ValueRef<'a> {
    /// The value where it is an integer.
    pub fn as_integer(&self) -> (r: Option<&i64>)
        ensures
            match r {
                Some(i) => *self == ValueRef::<'a>::Integer(*i),
                None => !(self is Integer),
            },
    {
        match self {
            ValueRef::Integer(i) => Some(i),
            _ => None,
        }
    }
}

/// The engine's value that an application's stands for.
pub open spec fn core_view(v: Value) -> value::ValueView {
    match v {
        Value::Null => value::ValueView::Null,
        Value::Integer(i) => value::ValueView::Integer(i),
        Value::Real(f) => value::ValueView::Real { bits: f.bits, text: f.text@ },
        Value::Text(t) => value::ValueView::Text { value: t@, subtype: 0 },
        Value::Blob(b) => value::ValueView::Blob(b@),
    }
}

/// Whether an application's argument is the engine's.
pub open spec fn is_public(public: ValueRef<'_>, v: value::ValueView) -> bool {
    match (public, v) {
        (ValueRef::Null, value::ValueView::Null) => true,
        (ValueRef::Integer(i), value::ValueView::Integer(j)) => i == j,
        (ValueRef::Real(f), value::ValueView::Real { bits, text }) => f.bits == bits && f.text@
            == text,
        (ValueRef::Text(b), value::ValueView::Text { value, subtype }) => b@
            == vstd::utf8::encode_utf8(value),
        (ValueRef::Blob(b), value::ValueView::Blob(c)) => b@ == c,
        _ => false,
    }
}

/// Whether an application's arguments are the engine's, in their order.
pub open spec fn are_public(public: Seq<ValueRef<'_>>, args: Seq<value::ValueRef<'_>>) -> bool {
    public.len() == args.len() && forall|i: int|
        0 <= i < args.len() ==> is_public(#[trigger] public[i], args[i]@)
}

/// A function that produces one value per call.
pub trait ScalarFunction: Send + Sync {
    fn call(&self, args: &[ValueRef<'_>]) -> Result<Value>;
}

/// A function that accumulates over many rows.
pub trait AggregateFunction: Send + Sync {
    /// Makes the accumulator for one group or one window frame.
    fn init(&self) -> Result<Box<dyn AggregateState>>;

    /// True when the state implements `value` and `inverse`.
    fn supports_window(&self) -> (r: bool)
        default_ensures
            !r,
    {
        false
    }
}

/// The message of an aggregate used with `OVER` although it cannot drive a window frame.
pub open spec fn not_a_window_function() -> Seq<char> {
    "aggregate may not be used as a window function"@
}

/// What an application's accumulator is called for, and the outcome.
pub enum AppCall<'a> {
    Step { args: &'a [ValueRef<'a>], r: Result<()> },
    Inverse { args: &'a [ValueRef<'a>], r: Result<()> },
    Value { r: Result<Value> },
    Finalize { r: Result<Value> },
}

/// Whether a call was refused because the aggregate cannot drive a window frame.
pub open spec fn misused<T>(r: Result<T>) -> bool {
    r matches Err(Error::Misuse(m)) && m@ == not_a_window_function()
}

/// The accumulator an `AggregateFunction` builds for one group.
pub trait AggregateState: Send {
    /// Whether the accumulator can go through these calls, from what it holds now. One of which
    /// nothing is known might go through any.
    open spec fn may(&self, calls: Seq<AppCall<'_>>) -> bool {
        true
    }

    fn step(&mut self, args: &[ValueRef<'_>]) -> (r: Result<()>)
        ensures
            forall|rest: Seq<AppCall<'_>>| #[trigger]
                final(self).may(rest) ==> old(self).may(seq![AppCall::Step { args, r }] + rest),
    ;

    /// Called exactly once per group, even when the group had no rows.
    fn finalize(self: Box<Self>) -> (r: Result<Value>)
        ensures
            self.may(seq![AppCall::Finalize { r }]),
    ;

    /// The answer so far, without destroying the accumulator.
    fn value(&self) -> (r: Result<Value>)
        ensures
            !misused(r) ==> forall|rest: Seq<AppCall<'_>>|
                self.may(rest) ==> #[trigger] self.may(seq![AppCall::Value { r }] + rest),
        default_ensures
            misused(r),
    {
        Err(Error::Misuse("aggregate may not be used as a window function".to_owned()))
    }

    /// Undoes an earlier step for a row that left the window frame. One that refuses is as it was.
    fn inverse(&mut self, _args: &[ValueRef<'_>]) -> (r: Result<()>)
        ensures
            misused(r) ==> forall|rest: Seq<AppCall<'_>>| #[trigger]
                final(self).may(rest) ==> old(self).may(rest),
            !misused(r) ==> forall|rest: Seq<AppCall<'_>>| #[trigger]
                final(self).may(rest) ==> old(self).may(
                    seq![AppCall::Inverse { args: _args, r }] + rest,
                ),
        default_ensures
            misused(r),
    {
        Err(Error::Misuse("aggregate may not be used as a window function".to_owned()))
    }
}

/// A `ScalarFunction` that calls a closure.
pub struct ClosureFunction<F> where
    F: Fn(&[ValueRef<'_>]) -> Result<Value> + Send + Sync + 'static,
 {
    f: F,
}

/// Whether a closure can be called with any arguments.
pub open spec fn total_closure<F>(f: F) -> bool where F: Fn(&[ValueRef<'_>]) -> Result<Value> {
    forall|args: &[ValueRef<'_>]| call_requires(f, (args,))
}

/// Builds a `ScalarFunction` from a closure.
pub fn scalar_from_fn<F>(f: F) -> (r: ClosureFunction<F>) where
    F: Fn(&[ValueRef<'_>]) -> Result<Value> + Send + Sync + 'static,

    requires
        total_closure(f),
    ensures
        r.spec_fn() == f,
{
    ClosureFunction { f }
}

impl<F> ClosureFunction<F> where
    F: Fn(&[ValueRef<'_>]) -> Result<Value> + Send + Sync + 'static,
 {
    #[verifier::type_invariant]
    spec fn total(&self) -> bool {
        total_closure(self.f)
    }

    pub closed spec fn spec_fn(&self) -> F {
        self.f
    }
}

impl<F> ScalarFunction for ClosureFunction<F> where
    F: Fn(&[ValueRef<'_>]) -> Result<Value> + Send + Sync + 'static,
 {
    fn call(&self, args: &[ValueRef<'_>]) -> (r: Result<Value>)
        ensures
            call_ensures(self.spec_fn(), (args,), r),
    {
        proof {
            use_type_invariant(self);
        }
        (self.f)(args)
    }
}

/// The engine's argument as an application sees it.
pub fn to_public_value_ref<'a>(v: value::ValueRef<'a>) -> (r: ValueRef<'a>)
    ensures
        is_public(r, v@),
{
    match v {
        value::ValueRef::Null => ValueRef::Null,
        value::ValueRef::Numeric(value::Numeric::Integer(i)) => ValueRef::Integer(*i),
        value::ValueRef::Numeric(value::Numeric::Float(f)) => ValueRef::Real(f),
        value::ValueRef::Text(t) => ValueRef::Text(t.value.as_bytes()),
        value::ValueRef::Blob(b) => ValueRef::Blob(b),
    }
}

/// The engine's arguments as an application sees them.
pub fn to_public_args<'a>(args: &[value::ValueRef<'a>]) -> (r: Vec<ValueRef<'a>>)
    ensures
        are_public(r@, args@),
{
    let mut out: Vec<ValueRef<'a>> = Vec::new();
    let mut i: usize = 0;
    while i < args.len()
        invariant
            i <= args@.len(),
            out@.len() == i,
            forall|j: int| 0 <= j < i ==> is_public(#[trigger] out@[j], args@[j]@),
        decreases args@.len() - i,
    {
        out.push(to_public_value_ref(args[i]));
        i += 1;
    }
    out
}

/// The engine's value that an application's stands for.
pub fn to_core_value(v: Value) -> (r: value::Value)
    ensures
        r@ == core_view(v),
{
    match v {
        Value::Null => value::Value::Null,
        Value::Integer(i) => value::Value::from_i64(i),
        Value::Real(f) => value::Value::Numeric(value::Numeric::Float(f)),
        Value::Text(t) => value::Value::build_text(t),
        Value::Blob(b) => value::Value::Blob(b),
    }
}

/// The engine's error that an application's becomes: a failure of the function, with its text.
pub fn to_core_error<C, O>(ctx: &FunctionContext<'_, C, O>, err: Error) -> (r: LimboError)
    ensures
        r@ == (crate::error::ErrorView::UserFunction {
            code: crate::context::SQLITE_ERROR,
            message: err.text(),
        }),
{
    ctx.error(err.to_string())
}

/// Whether the engine's result is what an application's stands for.
pub open spec fn adapted(public: Result<Value>, r: crate::error::Result<value::Value>) -> bool {
    match (public, r) {
        (Ok(v), Ok(core)) => core@ == core_view(v),
        (Err(e), Err(core)) => core@ == (crate::error::ErrorView::UserFunction {
            code: crate::context::SQLITE_ERROR,
            message: e.text(),
        }),
        _ => false,
    }
}

/// The engine's result that an application's value stands for.
pub fn to_core_result<C, O>(ctx: &FunctionContext<'_, C, O>, public: Result<Value>) -> (r:
    crate::error::Result<value::Value>)
    ensures
        adapted(public, r),
{
    match public {
        Ok(v) => Ok(to_core_value(v)),
        Err(e) => Err(to_core_error(ctx, e)),
    }
}

/// The engine's result that the outcome of an application's step stands for.
pub fn to_core_step<C, O>(ctx: &FunctionContext<'_, C, O>, public: Result<()>) -> (r:
    crate::error::Result<()>)
    ensures
        step_adapted(public, r),
{
    match public {
        Ok(()) => Ok(()),
        Err(e) => Err(to_core_error(ctx, e)),
    }
}

/// An application's scalar function as the engine calls it.
pub struct ScalarAdapter<F>(pub F);

impl<F: ScalarFunction, C, O> function::ScalarFunction<C, O> for ScalarAdapter<F> {
    fn call(
        &self,
        ctx: &mut FunctionContext<'_, C, O>,
        args: &[value::ValueRef<'_>],
    ) -> (r: crate::error::Result<value::Value>)
        ensures
            *final(ctx) == *old(ctx),
            exists|public: &[ValueRef<'_>], result: Result<Value>|
                {
                    &&& #[trigger] are_public(public@, args@)
                    &&& call_ensures(F::call, (&self.0, public), result)
                    &&& #[trigger] adapted(result, r)
                },
    {
        let public = to_public_args(args);
        let slice = public.as_slice();
        let result = self.0.call(slice);
        assert(are_public(slice@, args@));
        to_core_result(ctx, result)
    }
}

/// An application's aggregate as the engine calls it.
pub struct AggregateAdapter<F>(pub F);

/// An application's accumulator as the engine calls it.
pub struct AggregateStateAdapter<S>(pub S);

/// Whether `r` is an outcome of a step that takes an accumulator from what `state` holds to what it
/// holds in the end.
#[verifier::inline]
pub open spec fn steps<S: AggregateState + ?Sized>(
    state: &mut S,
    args: &[ValueRef<'_>],
    r: Result<()>,
) -> bool {
    call_ensures(S::step, (state, args), r)
}

/// Whether `r` is an outcome of undoing a step that takes an accumulator from what `state` holds to
/// what it holds in the end.
#[verifier::inline]
pub open spec fn undoes<S: AggregateState + ?Sized>(
    state: &mut S,
    args: &[ValueRef<'_>],
    r: Result<()>,
) -> bool {
    call_ensures(S::inverse, (state, args), r)
}

/// Whether `r` is an outcome of finishing an accumulator.
pub open spec fn finishes<S: AggregateState + ?Sized>(state: Box<S>, r: Result<Value>) -> bool {
    call_ensures(S::finalize, (state,), r)
}

/// Whether `r` is an outcome of reading an accumulator.
pub open spec fn reads<S: AggregateState + ?Sized>(state: &S, r: Result<Value>) -> bool {
    call_ensures(S::value, (state,), r)
}

fn step_state<S: AggregateState + ?Sized>(state: &mut S, args: &[ValueRef<'_>]) -> (r: Result<()>)
    ensures
        exists|s: &mut S|
            {
                &&& &*s == &*old(state)
                &&& &*final(s) == &*final(state)
                &&& steps(s, args, r)
            },
        forall|rest: Seq<AppCall<'_>>| #[trigger]
            final(state).may(rest) ==> old(state).may(seq![AppCall::Step { args, r }] + rest),
{
    state.step(args)
}

fn undo_state<S: AggregateState + ?Sized>(state: &mut S, args: &[ValueRef<'_>]) -> (r: Result<()>)
    ensures
        exists|s: &mut S|
            {
                &&& &*s == &*old(state)
                &&& &*final(s) == &*final(state)
                &&& undoes(s, args, r)
            },
        misused(r) ==> forall|rest: Seq<AppCall<'_>>| #[trigger]
            final(state).may(rest) ==> old(state).may(rest),
        !misused(r) ==> forall|rest: Seq<AppCall<'_>>| #[trigger]
            final(state).may(rest) ==> old(state).may(seq![AppCall::Inverse { args, r }] + rest),
{
    state.inverse(args)
}

fn finish_state<S: AggregateState + ?Sized>(state: Box<S>) -> (r: Result<Value>)
    ensures
        finishes(state, r),
        state.may(seq![AppCall::Finalize { r }]),
{
    state.finalize()
}

fn read_state<S: AggregateState + ?Sized>(state: &S) -> (r: Result<Value>)
    ensures
        reads(state, r),
        !misused(r) ==> forall|rest: Seq<AppCall<'_>>|
            state.may(rest) ==> #[trigger] state.may(seq![AppCall::Value { r }] + rest),
{
    state.value()
}

/// An accumulator behind a pointer answers what it answers itself.
impl AggregateState for Box<dyn AggregateState> {
    open spec fn may(&self, calls: Seq<AppCall<'_>>) -> bool {
        (**self).may(calls)
    }

    fn step(&mut self, args: &[ValueRef<'_>]) -> (r: Result<()>)
        ensures
            exists|s: &mut dyn AggregateState|
                {
                    &&& &*s == &**old(self)
                    &&& &*final(s) == &**final(self)
                    &&& steps(s, args, r)
                },
    {
        step_state(&mut **self, args)
    }

    fn finalize(self: Box<Self>) -> (r: Result<Value>)
        ensures
            finishes(*self, r),
    {
        let this = *self;
        finish_state(this)
    }

    fn value(&self) -> (r: Result<Value>)
        ensures
            reads(&**self, r),
    {
        read_state(&**self)
    }

    fn inverse(&mut self, args: &[ValueRef<'_>]) -> (r: Result<()>)
        ensures
            exists|s: &mut dyn AggregateState|
                {
                    &&& &*s == &**old(self)
                    &&& &*final(s) == &**final(self)
                    &&& undoes(s, args, r)
                },
    {
        undo_state(&mut **self, args)
    }
}

impl<F: AggregateFunction> AggregateAdapter<F> {
    /// True when the application says that its accumulators implement `value` and `inverse`.
    pub fn supports_window(&self) -> (r: bool)
        ensures
            call_ensures(F::supports_window, (&self.0,), r),
    {
        self.0.supports_window()
    }
}

impl<F: AggregateFunction, C, O> function::AggregateFunction<C, O> for AggregateAdapter<F> {
    fn init(&self, ctx: &mut FunctionContext<'_, C, O>) -> (r: crate::error::Result<
        Box<dyn function::AggregateState<C, O>>,
    >)
        ensures
            *final(ctx) == *old(ctx),
            exists|made: Result<Box<dyn AggregateState>>|
                {
                    &&& #[trigger] call_ensures(F::init, (&self.0,), made)
                    &&& made is Ok <==> r is Ok
                    &&& made is Ok ==> forall|turns: Seq<Turn<'_, C, O>>| #[trigger]
                        r->Ok_0.may(turns) ==> exists|calls: Seq<AppCall<'_>>| #[trigger]
                            adapted_turns(calls, turns) && made->Ok_0.may(calls)
                    &&& made is Err ==> r->Err_0@ == (crate::error::ErrorView::UserFunction {
                        code: crate::context::SQLITE_ERROR,
                        message: made->Err_0.text(),
                    })
                },
    {
        let made = self.0.init();
        assert(call_ensures(F::init, (&self.0,), made));
        match made {
            Ok(state) => Ok(Box::new(AggregateStateAdapter(state))),
            Err(e) => Err(to_core_error(ctx, e)),
        }
    }

    fn supports_window(&self) -> (r: bool)
        ensures
            call_ensures(F::supports_window, (&self.0,), r),
    {
        self.supports_window()
    }
}

/// Whether the engine's result is what the outcome of an application's step stands for.
pub open spec fn step_adapted(public: Result<()>, r: crate::error::Result<()>) -> bool {
    match (public, r) {
        (Ok(_), Ok(_)) => true,
        (Err(e), Err(core)) => core@ == (crate::error::ErrorView::UserFunction {
            code: crate::context::SQLITE_ERROR,
            message: e.text(),
        }),
        _ => false,
    }
}

/// Whether a call of the engine is one that the application's accumulator refused.
pub open spec fn refused_call(call: Call<'_>) -> bool {
    match call {
        Call::Inverse { args, r } => exists|refusal: Result<()>|
            misused(refusal) && #[trigger] step_adapted(refusal, r),
        Call::Value { r } => exists|refusal: Result<Value>|
            misused(refusal) && #[trigger] adapted(refusal, r),
        _ => false,
    }
}

/// Whether a call of the engine is this call of the application's accumulator, its arguments and
/// its outcome included.
pub open spec fn adapted_call(app: AppCall<'_>, call: Call<'_>) -> bool {
    match (app, call) {
        (AppCall::Step { args: public, r: q }, Call::Step { args, r }) => are_public(
            public@,
            args@,
        ) && step_adapted(q, r),
        (AppCall::Inverse { args: public, r: q }, Call::Inverse { args, r }) => are_public(
            public@,
            args@,
        ) && step_adapted(q, r),
        (AppCall::Value { r: q }, Call::Value { r }) => adapted(q, r),
        (AppCall::Finalize { r: q }, Call::Finalize { r }) => adapted(q, r),
        _ => false,
    }
}

/// Whether the turns of an adapter are the calls of the application's accumulator, one for one but
/// for those it refused. The context has no part in them.
pub open spec fn adapted_turns<'a, 'b, C, O>(
    calls: Seq<AppCall<'b>>,
    turns: Seq<Turn<'a, C, O>>,
) -> bool
    decreases turns.len(),
{
    if turns.len() == 0 {
        calls.len() == 0
    } else {
        &&& turns[0].after == turns[0].before
        &&& {
            ||| refused_call(turns[0].call) && adapted_turns(calls, turns.skip(1))
            ||| calls.len() > 0 && adapted_call(calls[0], turns[0].call) && adapted_turns(
                calls.skip(1),
                turns.skip(1),
            )
        }
    }
}

proof fn lemma_adapted_call_first<'a, 'b, C, O>(
    app: AppCall<'b>,
    calls: Seq<AppCall<'b>>,
    turn: Turn<'a, C, O>,
    turns: Seq<Turn<'a, C, O>>,
)
    requires
        turn.after == turn.before,
        adapted_call(app, turn.call),
        adapted_turns(calls, turns),
    ensures
        adapted_turns(seq![app] + calls, seq![turn] + turns),
{
    assert((seq![app] + calls).skip(1) =~= calls);
    assert((seq![turn] + turns).skip(1) =~= turns);
    assert((seq![app] + calls)[0] == app);
    assert((seq![turn] + turns)[0] == turn);
}

proof fn lemma_refused_call_first<'a, 'b, C, O>(
    calls: Seq<AppCall<'b>>,
    turn: Turn<'a, C, O>,
    turns: Seq<Turn<'a, C, O>>,
)
    requires
        turn.after == turn.before,
        refused_call(turn.call),
        adapted_turns(calls, turns),
    ensures
        adapted_turns(calls, seq![turn] + turns),
{
    assert((seq![turn] + turns).skip(1) =~= turns);
    assert((seq![turn] + turns)[0] == turn);
}

impl<S: AggregateState, C, O> function::AggregateState<C, O> for AggregateStateAdapter<S> {
    open spec fn may(&self, turns: Seq<Turn<'_, C, O>>) -> bool {
        exists|calls: Seq<AppCall<'_>>| #[trigger]
            adapted_turns(calls, turns) && self.0.may(calls)
    }

    fn step(
        &mut self,
        ctx: &mut FunctionContext<'_, C, O>,
        args: &[value::ValueRef<'_>],
    ) -> (r: crate::error::Result<()>)
        ensures
            *final(ctx) == *old(ctx),
            exists|s: &mut S, public: &[ValueRef<'_>], result: Result<()>|
                {
                    &&& *s == old(self).0
                    &&& *final(s) == final(self).0
                    &&& are_public(public@, args@)
                    &&& call_ensures(S::step, (s, public), result)
                    &&& step_adapted(result, r)
                },
    {
        let public = to_public_args(args);
        let slice = public.as_slice();
        let result = self.0.step(slice);
        assert(are_public(slice@, args@));
        let r = to_core_step(ctx, result);
        proof {
            let app = AppCall::Step { args: slice, r: result };
            let turn = Turn { before: *old(ctx), call: Call::Step { args, r }, after: *ctx };
            assert(adapted_call(app, turn.call));
            assert forall|rest: Seq<Turn<'_, C, O>>|
                function::AggregateState::may(
                    &*self,
                    rest,
                ) implies #[trigger] function::AggregateState::may(
                &*old(self),
                seq![turn] + rest,
            ) by {
                let calls = choose|calls: Seq<AppCall<'_>>| #[trigger]
                    adapted_turns(calls, rest) && self.0.may(calls);
                lemma_adapted_call_first(app, calls, turn, rest);
                assert(old(self).0.may(seq![app] + calls));
            }
        }
        r
    }

    fn finalize(self: Box<Self>, ctx: &mut FunctionContext<'_, C, O>) -> (r: crate::error::Result<
        value::Value,
    >)
        ensures
            *final(ctx) == *old(ctx),
            exists|result: Result<Value>| #[trigger]
                call_ensures(S::finalize, (Box::new(self.0),), result) && adapted(result, r),
    {
        let this = *self;
        let result = Box::new(this.0).finalize();
        assert(call_ensures(S::finalize, (Box::new(self.0),), result));
        let r = to_core_result(ctx, result);
        proof {
            let app = AppCall::Finalize { r: result };
            let turn = Turn { before: *old(ctx), call: Call::Finalize { r }, after: *ctx };
            assert(adapted_turns(Seq::<AppCall<'_>>::empty(), Seq::<Turn<'_, C, O>>::empty()));
            lemma_adapted_call_first(app, Seq::empty(), turn, Seq::<Turn<'_, C, O>>::empty());
            assert(seq![app] + Seq::empty() =~= seq![app]);
            assert(seq![turn] + Seq::empty() =~= seq![turn]);
        }
        r
    }

    fn value(&mut self, ctx: &mut FunctionContext<'_, C, O>) -> (r: crate::error::Result<value::Value>)
        ensures
            *final(self) == *old(self),
            *final(ctx) == *old(ctx),
            exists|result: Result<Value>| #[trigger]
                call_ensures(S::value, (&old(self).0,), result) && adapted(result, r),
    {
        let result = self.0.value();
        assert(call_ensures(S::value, (&self.0,), result));
        let r = to_core_result(ctx, result);
        proof {
            let app = AppCall::Value { r: result };
            let turn = Turn { before: *old(ctx), call: Call::Value { r }, after: *ctx };
            assert(adapted_call(app, turn.call));
            assert forall|rest: Seq<Turn<'_, C, O>>|
                function::AggregateState::may(
                    &*self,
                    rest,
                ) implies #[trigger] function::AggregateState::may(
                &*old(self),
                seq![turn] + rest,
            ) by {
                let calls = choose|calls: Seq<AppCall<'_>>| #[trigger]
                    adapted_turns(calls, rest) && self.0.may(calls);
                if misused(result) {
                    lemma_refused_call_first(calls, turn, rest);
                } else {
                    lemma_adapted_call_first(app, calls, turn, rest);
                    assert(old(self).0.may(seq![app] + calls));
                }
            }
        }
        r
    }

    fn inverse(
        &mut self,
        ctx: &mut FunctionContext<'_, C, O>,
        args: &[value::ValueRef<'_>],
    ) -> (r: crate::error::Result<()>)
        ensures
            *final(ctx) == *old(ctx),
            exists|s: &mut S, public: &[ValueRef<'_>], result: Result<()>|
                {
                    &&& *s == old(self).0
                    &&& *final(s) == final(self).0
                    &&& are_public(public@, args@)
                    &&& call_ensures(S::inverse, (s, public), result)
                    &&& step_adapted(result, r)
                },
    {
        let public = to_public_args(args);
        let slice = public.as_slice();
        let result = self.0.inverse(slice);
        assert(are_public(slice@, args@));
        let r = to_core_step(ctx, result);
        proof {
            let app = AppCall::Inverse { args: slice, r: result };
            let turn = Turn { before: *old(ctx), call: Call::Inverse { args, r }, after: *ctx };
            assert(adapted_call(app, turn.call));
            assert forall|rest: Seq<Turn<'_, C, O>>|
                function::AggregateState::may(
                    &*self,
                    rest,
                ) implies #[trigger] function::AggregateState::may(
                &*old(self),
                seq![turn] + rest,
            ) by {
                let calls = choose|calls: Seq<AppCall<'_>>| #[trigger]
                    adapted_turns(calls, rest) && self.0.may(calls);
                if misused(result) {
                    lemma_refused_call_first(calls, turn, rest);
                } else {
                    lemma_adapted_call_first(app, calls, turn, rest);
                    assert(old(self).0.may(seq![app] + calls));
                }
            }
        }
        r
    }
}

}
