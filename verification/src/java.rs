//! Functions written in Java. Calls into the virtual machine are made by the caller; what they come
//! back with is turned into values and errors here.

use std::sync::Arc;
use vstd::prelude::*;

use crate::context::FunctionContext;
use crate::error::{LimboError, Result};
use crate::flags::FunctionFlags;
use crate::function::{AggregateFunction, AggregateState, ScalarFunction};
use crate::text::join2;
use crate::utf16::decode_units;
use crate::turns::{Call, Rules, Turn};
use crate::value::{Numeric, Real, Value, ValueRef};

verus! {

/// Local references besides one per argument: the array, the returned object, and room for what the
/// conversions create.
pub const LOCAL_REFS_BESIDES_ARGS: i32 = 8;

pub const NOT_A_WINDOW_FUNCTION: &'static str = "aggregate may not be used as a window function";

/// Why a call into the virtual machine gave nothing.
#[derive(Debug)]
pub enum UdfError {
    /// The call itself failed.
    Jni(String),
    /// The function failed, with this message.
    Message(String),
}

pub type UdfResult<T> = core::result::Result<T, UdfError>;

impl UdfError {
    /// What the user reads.
    pub open spec fn text(&self) -> Seq<char> {
        match self {
            UdfError::Jni(err) => "JNI error while calling user-defined function: "@ + err@,
            UdfError::Message(msg) => msg@,
        }
    }

    /// The failure of the function as the engine knows it.
    pub fn into_core(self) -> (r: LimboError)
        ensures
            r@ == (crate::error::ErrorView::UserFunction { code: 1, message: self.text() }),
    {
        let message = match self {
            UdfError::Jni(err) => join2(
                "JNI error while calling user-defined function: ",
                err.as_str(),
            ),
            UdfError::Message(msg) => msg,
        };
        LimboError::UserFunction { code: 1, message }
    }
}

/// Whether the engine's result is what the outcome of a call stands for.
pub open spec fn settled<T>(outcome: UdfResult<T>, r: Result<T>) -> bool {
    match (outcome, r) {
        (Ok(t), Ok(got)) => got == t,
        (Err(e), Err(got)) => got@ == (crate::error::ErrorView::UserFunction {
            code: 1,
            message: e.text(),
        }),
        _ => false,
    }
}

/// Hands the outcome of a call to the engine.
pub fn settle<T>(outcome: UdfResult<T>) -> (r: Result<T>)
    ensures
        settled(outcome, r),
{
    match outcome {
        Ok(t) => Ok(t),
        Err(e) => Err(e.into_core()),
    }
}

/// Whether an exception must be cleared before the engine gets the thread back: a failed call may
/// have left one pending, and one that cannot be ruled out counts as pending.
pub fn must_clear_exception(failed: bool, pending: Option<bool>) -> (r: bool)
    ensures
        r == (failed && pending != Some(false)),
{
    failed && match pending {
        Some(p) => p,
        None => true,
    }
}

/// How many local references a call with that many arguments needs.
pub fn local_refs_needed(arg_count: usize) -> (r: i32)
    requires
        arg_count <= i32::MAX - LOCAL_REFS_BESIDES_ARGS,
    ensures
        r == arg_count + LOCAL_REFS_BESIDES_ARGS,
{
    arg_count as i32 + LOCAL_REFS_BESIDES_ARGS
}

/// What could be read of an exception: its message and the name of its class.
#[derive(Debug)]
pub struct Thrown {
    pub message: Option<String>,
    pub class_name: Option<String>,
}

/// What an exception is reported as: its message, or else the name of its class.
pub open spec fn exception_text(thrown: Option<Thrown>) -> Seq<char> {
    match thrown {
        None => "unknown error"@,
        Some(t) => if t.message is Some && t.message->0@.len() > 0 {
            t.message->0@
        } else {
            match t.class_name {
                Some(name) => name@,
                None => "unknown error"@,
            }
        },
    }
}

/// The message of an exception; none where it could not be had at all.
pub fn take_exception_message(thrown: Option<Thrown>) -> (r: String)
    ensures
        r@ == "user-defined function raised exception: "@ + exception_text(thrown),
{
    let text: String = match thrown {
        None => "unknown error".to_owned(),
        Some(t) => {
            let message: String = match t.message {
                Some(m) => m,
                None => String::new(),
            };
            if message.as_str().is_empty() {
                match t.class_name {
                    Some(name) => name,
                    None => "unknown error".to_owned(),
                }
            } else {
                message
            }
        },
    };
    join2("user-defined function raised exception: ", text.as_str())
}

/// What came of calling a method.
#[derive(Debug)]
pub enum JavaOutcome<T> {
    Returned(T),
    /// It threw.
    Threw(Option<Thrown>),
    /// The call could not be made.
    Failed(String),
}

/// What the outcome of a call stands for.
pub open spec fn called<T>(outcome: JavaOutcome<T>, r: UdfResult<T>) -> bool {
    match outcome {
        JavaOutcome::Returned(t) => r == Ok::<T, UdfError>(t),
        JavaOutcome::Threw(thrown) => r matches Err(UdfError::Message(m)) && m@
            == "user-defined function raised exception: "@ + exception_text(thrown),
        JavaOutcome::Failed(err) => r == Err::<T, UdfError>(UdfError::Jni(err)),
    }
}

/// What a method returned, or why it did not.
pub fn call_java<T>(outcome: JavaOutcome<T>) -> (r: UdfResult<T>)
    ensures
        called(outcome, r),
{
    match outcome {
        JavaOutcome::Returned(t) => Ok(t),
        JavaOutcome::Threw(thrown) => Err(UdfError::Message(take_exception_message(thrown))),
        JavaOutcome::Failed(err) => Err(UdfError::Jni(err)),
    }
}

/// An object a function returned, as far as its class has a meaning in SQL.
#[derive(Debug)]
pub enum JavaObject {
    Null,
    /// A `Long`, `Integer`, `Short` or `Byte`.
    Integral(i64),
    Text(String),
    /// A `Double` or `Float`.
    Real(Real),
    Boolean(bool),
    /// A `Character`: one UTF-16 code unit.
    Character(u16),
    Bytes(Vec<u8>),
    /// Anything else: the name of its class, where it could be had.
    Other(Option<String>),
}

/// The value an object stands for; none for an object of another class.
pub open spec fn object_value(obj: JavaObject) -> Option<crate::value::ValueView> {
    match obj {
        JavaObject::Null => Some(crate::value::ValueView::Null),
        JavaObject::Integral(i) => Some(crate::value::ValueView::Integer(i)),
        JavaObject::Text(t) => Some(crate::value::ValueView::Text { value: t@, subtype: 0 }),
        JavaObject::Real(f) => Some(crate::value::ValueView::Real { bits: f.bits, text: f.text@ }),
        JavaObject::Boolean(b) => Some(
            crate::value::ValueView::Integer(if b {
                1
            } else {
                0
            }),
        ),
        JavaObject::Character(unit) => Some(
            crate::value::ValueView::Text {
                value: crate::utf16::decode_lossy(seq![unit]),
                subtype: 0,
            },
        ),
        JavaObject::Bytes(b) => Some(crate::value::ValueView::Blob(b@)),
        JavaObject::Other(_) => None,
    }
}

/// The message of a returned object that has no meaning in SQL.
pub open spec fn unsupported(obj: JavaObject) -> Seq<char> {
    "unsupported return type from user-defined function: "@ + (match obj {
        JavaObject::Other(Some(name)) => name@,
        _ => "unknown"@,
    })
}

/// Whether a result is what a returned object stands for.
pub open spec fn converted(obj: JavaObject, r: UdfResult<Value>) -> bool {
    match (object_value(obj), r) {
        (Some(v), Ok(value)) => value@ == v,
        (None, Err(UdfError::Message(m))) => m@ == unsupported(obj),
        _ => false,
    }
}

/// The value a returned object stands for: a boxed primitive, a string or a byte array.
pub fn java_to_value(obj: JavaObject) -> (r: UdfResult<Value>)
    ensures
        converted(obj, r),
{
    match obj {
        JavaObject::Null => Ok(Value::Null),
        JavaObject::Integral(i) => Ok(Value::from_i64(i)),
        JavaObject::Text(t) => Ok(Value::build_text(t)),
        JavaObject::Real(f) => Ok(Value::Numeric(Numeric::Float(f))),
        JavaObject::Boolean(b) => Ok(
            Value::from_i64(
                if b {
                    1
                } else {
                    0
                },
            ),
        ),
        JavaObject::Character(unit) => {
            let mut units: Vec<u16> = Vec::new();
            units.push(unit);
            assert(units@ =~= seq![unit]);
            Ok(Value::build_text(decode_units(units.as_slice())))
        },
        JavaObject::Bytes(b) => Ok(Value::Blob(b)),
        JavaObject::Other(class_name) => {
            let name: String = match class_name {
                Some(name) => name,
                None => "unknown".to_owned(),
            };
            Err(
                UdfError::Message(
                    join2("unsupported return type from user-defined function: ", name.as_str()),
                ),
            )
        },
    }
}

/// Whether the engine's result is what the outcome of a call that gives a value stands for.
pub open spec fn value_settled(outcome: JavaOutcome<JavaObject>, r: Result<Value>) -> bool {
    exists|returned: UdfResult<JavaObject>|
        #[trigger] called(outcome, returned) && match returned {
            Ok(obj) => exists|value: UdfResult<Value>|
                #[trigger] converted(obj, value) && settled(value, r),
            Err(e) => r is Err && r->Err_0@ == (crate::error::ErrorView::UserFunction {
                code: 1,
                message: e.text(),
            }),
        }
}

/// The engine's result of a call that gives a value.
pub fn value_of_call(outcome: JavaOutcome<JavaObject>) -> (r: Result<Value>)
    ensures
        value_settled(outcome, r),
{
    let returned = call_java(outcome);
    assert(called(outcome, returned));
    match returned {
        Ok(obj) => {
            let value = java_to_value(obj);
            assert(converted(obj, value));
            settle(value)
        },
        Err(e) => Err(e.into_core()),
    }
}

/// Whether the engine's result is what the outcome of a call that gives a new state stands for.
pub open spec fn state_settled<T>(outcome: JavaOutcome<Option<T>>, r: Result<Option<T>>) -> bool {
    exists|returned: UdfResult<Option<T>>|
        #[trigger] called(outcome, returned) && settled(returned, r)
}

/// The engine's result of a call that gives a new state; a `null` state is a legitimate one.
pub fn state_of_call<T>(outcome: JavaOutcome<Option<T>>) -> (r: Result<Option<T>>)
    ensures
        state_settled(outcome, r),
{
    let returned = call_java(outcome);
    assert(called(outcome, returned));
    settle(returned)
}

/// A scalar function: `F` calls it.
pub struct JavaScalarFunction<F> where
    F: Fn(&[ValueRef<'_>]) -> JavaOutcome<JavaObject> + Send + Sync + 'static,
 {
    callback: F,
}

impl<F> JavaScalarFunction<F> where
    F: Fn(&[ValueRef<'_>]) -> JavaOutcome<JavaObject> + Send + Sync + 'static,
 {
    #[verifier::type_invariant]
    spec fn total(&self) -> bool {
        forall|args: &[ValueRef<'_>]| call_requires(self.callback, (args,))
    }

    pub closed spec fn spec_callback(&self) -> F {
        self.callback
    }

    pub fn new(callback: F) -> (r: Self)
        requires
            forall|args: &[ValueRef<'_>]| call_requires(callback, (args,)),
        ensures
            r.spec_callback() == callback,
    {
        JavaScalarFunction { callback }
    }
}

impl<F, C, O> ScalarFunction<C, O> for JavaScalarFunction<F> where
    F: Fn(&[ValueRef<'_>]) -> JavaOutcome<JavaObject> + Send + Sync + 'static,
 {
    fn call(&self, ctx: &mut FunctionContext<'_, C, O>, args: &[ValueRef<'_>]) -> (r: Result<Value>)
        ensures
            *final(ctx) == *old(ctx),
            exists|outcome: JavaOutcome<JavaObject>| #[trigger]
                call_ensures(self.spec_callback(), (args,), outcome) && value_settled(outcome, r),
    {
        proof {
            use_type_invariant(self);
        }
        let outcome = (self.callback)(args);
        assert(call_ensures(self.spec_callback(), (args,), outcome));
        value_of_call(outcome)
    }
}

/// The methods of an aggregate.
#[derive(Clone, Copy, Debug, PartialEq, Eq, Structural)]
pub enum JavaMethod {
    Step,
    Inverse,
    Result,
    Value,
}

/// The methods of an aggregate as the caller makes them: `I` gives the first state, `A` takes a state
/// and arguments and gives the next state, `R` takes a state and gives a value. `T` is a state that
/// is not `null`.
#[verifier::reject_recursive_types(T)]
pub struct JavaAggregate<T, I, A, R> where
    I: Fn() -> JavaOutcome<Option<T>> + Send + Sync + 'static,
    A: Fn(JavaMethod, &Option<T>, &[ValueRef<'_>]) -> JavaOutcome<Option<T>>
        + Send
        + Sync
        + 'static,
    R: Fn(JavaMethod, &Option<T>) -> JavaOutcome<JavaObject> + Send + Sync + 'static,
 {
    init: I,
    accumulate: A,
    read: R,
    _state: Ghost<Option<T>>,
}

impl<T, I, A, R> JavaAggregate<T, I, A, R> where
    I: Fn() -> JavaOutcome<Option<T>> + Send + Sync + 'static,
    A: Fn(JavaMethod, &Option<T>, &[ValueRef<'_>]) -> JavaOutcome<Option<T>>
        + Send
        + Sync
        + 'static,
    R: Fn(JavaMethod, &Option<T>) -> JavaOutcome<JavaObject> + Send + Sync + 'static,
 {
    #[verifier::type_invariant]
    spec fn total(&self) -> bool {
        &&& call_requires(self.init, ())
        &&& forall|m: JavaMethod, state: &Option<T>, args: &[ValueRef<'_>]|
            call_requires(self.accumulate, (m, state, args))
        &&& forall|m: JavaMethod, state: &Option<T>| call_requires(self.read, (m, state))
    }

    pub closed spec fn spec_init(&self) -> I {
        self.init
    }

    pub closed spec fn spec_accumulate(&self) -> A {
        self.accumulate
    }

    pub closed spec fn spec_read(&self) -> R {
        self.read
    }

    pub fn new(init: I, accumulate: A, read: R) -> (r: Self)
        requires
            call_requires(init, ()),
            forall|m: JavaMethod, state: &Option<T>, args: &[ValueRef<'_>]|
                call_requires(accumulate, (m, state, args)),
            forall|m: JavaMethod, state: &Option<T>| call_requires(read, (m, state)),
        ensures
            r.spec_init() == init,
            r.spec_accumulate() == accumulate,
            r.spec_read() == read,
    {
        JavaAggregate { init, accumulate, read, _state: Ghost(None) }
    }
}

/// An aggregate function.
#[verifier::reject_recursive_types(T)]
pub struct JavaAggregateFunction<T, I, A, R> where
    I: Fn() -> JavaOutcome<Option<T>> + Send + Sync + 'static,
    A: Fn(JavaMethod, &Option<T>, &[ValueRef<'_>]) -> JavaOutcome<Option<T>>
        + Send
        + Sync
        + 'static,
    R: Fn(JavaMethod, &Option<T>) -> JavaOutcome<JavaObject> + Send + Sync + 'static,
 {
    callback: Arc<JavaAggregate<T, I, A, R>>,
    /// Registered as a window function, so it also has `value` and `inverse`.
    window: bool,
}

/// The accumulator of one group.
#[verifier::reject_recursive_types(T)]
pub struct JavaAggregateState<T, I, A, R> where
    I: Fn() -> JavaOutcome<Option<T>> + Send + Sync + 'static,
    A: Fn(JavaMethod, &Option<T>, &[ValueRef<'_>]) -> JavaOutcome<Option<T>>
        + Send
        + Sync
        + 'static,
    R: Fn(JavaMethod, &Option<T>) -> JavaOutcome<JavaObject> + Send + Sync + 'static,
 {
    callback: Arc<JavaAggregate<T, I, A, R>>,
    window: bool,
    state: Option<T>,
}

/// What taking a step, or undoing one, comes to: the state the method returned, which may be none,
/// and the old one where the call failed.
pub open spec fn accumulated<T, I, A, R>(
    callback: JavaAggregate<T, I, A, R>,
    method: JavaMethod,
    before: Option<T>,
    after: Option<T>,
    args: &[ValueRef<'_>],
    r: Result<()>,
) -> bool where
    I: Fn() -> JavaOutcome<Option<T>> + Send + Sync + 'static,
    A: Fn(JavaMethod, &Option<T>, &[ValueRef<'_>]) -> JavaOutcome<Option<T>>
        + Send
        + Sync
        + 'static,
    R: Fn(JavaMethod, &Option<T>) -> JavaOutcome<JavaObject> + Send + Sync + 'static,
 {
    exists|outcome: JavaOutcome<Option<T>>, next: Result<Option<T>>|
        {
            &&& call_ensures(callback.spec_accumulate(), (method, &before, args), outcome)
            &&& #[trigger] state_settled(outcome, next)
            &&& match next {
                Ok(state) => r is Ok && after == state,
                Err(e) => r == Err::<(), LimboError>(e) && after == before,
            }
        }
}

/// What reading a state comes to: the value of what the method returned.
pub open spec fn java_read<T, I, A, R>(
    callback: JavaAggregate<T, I, A, R>,
    method: JavaMethod,
    state: Option<T>,
    r: Result<Value>,
) -> bool where
    I: Fn() -> JavaOutcome<Option<T>> + Send + Sync + 'static,
    A: Fn(JavaMethod, &Option<T>, &[ValueRef<'_>]) -> JavaOutcome<Option<T>>
        + Send
        + Sync
        + 'static,
    R: Fn(JavaMethod, &Option<T>) -> JavaOutcome<JavaObject> + Send + Sync + 'static,
 {
    exists|outcome: JavaOutcome<JavaObject>|
        call_ensures(callback.spec_read(), (method, &state), outcome)
            && #[trigger] value_settled(outcome, r)
}

/// What a Java accumulator goes through: one call of the method for each turn, and no window frame
/// unless it was registered for one. The context has no part in it.
pub open spec fn java_rules<'a, T, I, A, R, C, O>(
    callback: JavaAggregate<T, I, A, R>,
    window: bool,
) -> Rules<'a, Option<T>, C, O> where
    I: Fn() -> JavaOutcome<Option<T>> + Send + Sync + 'static,
    A: Fn(JavaMethod, &Option<T>, &[ValueRef<'_>]) -> JavaOutcome<Option<T>>
        + Send
        + Sync
        + 'static,
    R: Fn(JavaMethod, &Option<T>) -> JavaOutcome<JavaObject> + Send + Sync + 'static,
 {
    Rules {
        step: |
            a: Option<T>,
            before: FunctionContext<'a, C, O>,
            b: Option<T>,
            after: FunctionContext<'a, C, O>,
            args: &'a [ValueRef<'a>],
            r: Result<()>,
        |
            after == before && accumulated(callback, JavaMethod::Step, a, b, args, r),
        inverse: |
            a: Option<T>,
            before: FunctionContext<'a, C, O>,
            b: Option<T>,
            after: FunctionContext<'a, C, O>,
            args: &'a [ValueRef<'a>],
            r: Result<()>,
        |
            after == before && if window {
                accumulated(callback, JavaMethod::Inverse, a, b, args, r)
            } else {
                b == a && r is Err && r->Err_0@ == not_window()
            },
        value: |
            a: Option<T>,
            before: FunctionContext<'a, C, O>,
            b: Option<T>,
            after: FunctionContext<'a, C, O>,
            r: Result<Value>,
        |
            after == before && b == a && if window {
                java_read(callback, JavaMethod::Value, a, r)
            } else {
                r is Err && r->Err_0@ == not_window()
            },
        finalize: |
            a: Option<T>,
            before: FunctionContext<'a, C, O>,
            after: FunctionContext<'a, C, O>,
            r: Result<Value>,
        |
            after == before && java_read(callback, JavaMethod::Result, a, r),
    }
}

/// The error of an aggregate used with `OVER` although it was not registered as a window function.
pub open spec fn not_window() -> crate::error::ErrorView {
    crate::error::ErrorView::ParseError(NOT_A_WINDOW_FUNCTION@)
}

impl<T, I, A, R> JavaAggregateFunction<T, I, A, R> where
    I: Fn() -> JavaOutcome<Option<T>> + Send + Sync + 'static,
    A: Fn(JavaMethod, &Option<T>, &[ValueRef<'_>]) -> JavaOutcome<Option<T>>
        + Send
        + Sync
        + 'static,
    R: Fn(JavaMethod, &Option<T>) -> JavaOutcome<JavaObject> + Send + Sync + 'static,
 {
    pub closed spec fn spec_callback(&self) -> JavaAggregate<T, I, A, R> {
        *self.callback
    }

    pub closed spec fn spec_window(&self) -> bool {
        self.window
    }

    pub fn new(callback: JavaAggregate<T, I, A, R>, window: bool) -> (r: Self)
        ensures
            r.spec_callback() == callback,
            r.spec_window() == window,
    {
        JavaAggregateFunction { callback: Arc::new(callback), window }
    }

    pub fn is_window(&self) -> (r: bool)
        ensures
            r == self.spec_window(),
    {
        self.window
    }

    /// The accumulator of a new group, in the state that `init` gives.
    pub fn new_state(&self) -> (r: Result<JavaAggregateState<T, I, A, R>>)
        ensures
            exists|outcome: JavaOutcome<Option<T>>, first: Result<Option<T>>|
                {
                    &&& call_ensures(self.spec_callback().spec_init(), (), outcome)
                    &&& #[trigger] state_settled(outcome, first)
                    &&& match (first, r) {
                        (Ok(state), Ok(made)) => {
                            &&& made.spec_state() == state
                            &&& made.spec_callback() == self.spec_callback()
                            &&& made.spec_window() == self.spec_window()
                        },
                        (Err(e), Err(got)) => got == e,
                        _ => false,
                    }
                },
    {
        proof {
            use_type_invariant(&*self.callback);
        }
        let outcome = (self.callback.init)();
        let first = state_of_call(outcome);
        assert(state_settled(outcome, first));
        match first {
            Ok(state) => Ok(
                JavaAggregateState {
                    callback: self.callback.clone(),
                    window: self.window,
                    state,
                },
            ),
            Err(e) => Err(e),
        }
    }
}

impl<T, I, A, R> JavaAggregateState<T, I, A, R> where
    I: Fn() -> JavaOutcome<Option<T>> + Send + Sync + 'static,
    A: Fn(JavaMethod, &Option<T>, &[ValueRef<'_>]) -> JavaOutcome<Option<T>>
        + Send
        + Sync
        + 'static,
    R: Fn(JavaMethod, &Option<T>) -> JavaOutcome<JavaObject> + Send + Sync + 'static,
 {
    pub closed spec fn spec_callback(&self) -> JavaAggregate<T, I, A, R> {
        *self.callback
    }

    pub closed spec fn spec_window(&self) -> bool {
        self.window
    }

    pub closed spec fn spec_state(&self) -> Option<T> {
        self.state
    }

    fn accumulate(&mut self, method: JavaMethod, args: &[ValueRef<'_>]) -> (r: Result<()>)
        ensures
            accumulated(
                old(self).spec_callback(),
                method,
                old(self).spec_state(),
                final(self).spec_state(),
                args,
                r,
            ),
            final(self).spec_callback() == old(self).spec_callback(),
            final(self).spec_window() == old(self).spec_window(),
    {
        proof {
            use_type_invariant(&*self.callback);
        }
        let outcome = (self.callback.accumulate)(method, &self.state, args);
        let next = state_of_call(outcome);
        assert(state_settled(outcome, next));
        match next {
            Ok(state) => {
                self.state = state;
                Ok(())
            },
            Err(e) => Err(e),
        }
    }

    fn read(&self, method: JavaMethod) -> (r: Result<Value>)
        ensures
            java_read(self.spec_callback(), method, self.spec_state(), r),
    {
        proof {
            use_type_invariant(&*self.callback);
        }
        let outcome = (self.callback.read)(method, &self.state);
        value_of_call(outcome)
    }
}

impl<T, I, A, R, C, O> AggregateFunction<C, O> for JavaAggregateFunction<T, I, A, R> where
    T: Send + Sync + 'static,
    I: Fn() -> JavaOutcome<Option<T>> + Send + Sync + 'static,
    A: Fn(JavaMethod, &Option<T>, &[ValueRef<'_>]) -> JavaOutcome<Option<T>>
        + Send
        + Sync
        + 'static,
    R: Fn(JavaMethod, &Option<T>) -> JavaOutcome<JavaObject> + Send + Sync + 'static,
 {
    fn init(&self, ctx: &mut FunctionContext<'_, C, O>) -> (r: Result<
        Box<dyn AggregateState<C, O>>,
    >)
        ensures
            *final(ctx) == *old(ctx),
            exists|outcome: JavaOutcome<Option<T>>, first: Result<Option<T>>|
                {
                    &&& call_ensures(self.spec_callback().spec_init(), (), outcome)
                    &&& #[trigger] state_settled(outcome, first)
                    &&& match (first, r) {
                        (Ok(state), Ok(_)) => forall|turns: Seq<Turn<'_, C, O>>| #[trigger]
                            r->Ok_0.may(turns) ==> crate::turns::traced(
                                java_rules(self.spec_callback(), self.spec_window()),
                                state,
                                turns,
                            ),
                        (Err(e), Err(got)) => got == e,
                        _ => false,
                    }
                },
    {
        match self.new_state() {
            Ok(state) => Ok(Box::new(state)),
            Err(e) => Err(e),
        }
    }

    fn supports_window(&self) -> bool
        returns
            self.spec_window(),
    {
        self.is_window()
    }
}

impl<T, I, A, R, C, O> AggregateState<C, O> for JavaAggregateState<T, I, A, R> where
    T: Send + Sync + 'static,
    I: Fn() -> JavaOutcome<Option<T>> + Send + Sync + 'static,
    A: Fn(JavaMethod, &Option<T>, &[ValueRef<'_>]) -> JavaOutcome<Option<T>>
        + Send
        + Sync
        + 'static,
    R: Fn(JavaMethod, &Option<T>) -> JavaOutcome<JavaObject> + Send + Sync + 'static,
 {
    open spec fn may(&self, turns: Seq<Turn<'_, C, O>>) -> bool {
        crate::turns::traced(
            java_rules(self.spec_callback(), self.spec_window()),
            self.spec_state(),
            turns,
        )
    }

    fn step(
        &mut self,
        ctx: &mut FunctionContext<'_, C, O>,
        args: &[ValueRef<'_>],
    ) -> (r: Result<()>)
        ensures
            *final(ctx) == *old(ctx),
            final(self).spec_callback() == old(self).spec_callback(),
            final(self).spec_window() == old(self).spec_window(),
            accumulated(
                old(self).spec_callback(),
                JavaMethod::Step,
                old(self).spec_state(),
                final(self).spec_state(),
                args,
                r,
            ),
    {
        let r = self.accumulate(JavaMethod::Step, args);
        proof {
            let turn = Turn { before: *old(ctx), call: Call::Step { args, r }, after: *ctx };
            crate::turns::lemma_turn_first(
                java_rules(self.spec_callback(), self.spec_window()),
                old(self).spec_state(),
                turn,
                self.spec_state(),
            );
        }
        r
    }

    fn finalize(self: Box<Self>, ctx: &mut FunctionContext<'_, C, O>) -> (r: Result<Value>)
        ensures
            *final(ctx) == *old(ctx),
            java_read(self.spec_callback(), JavaMethod::Result, self.spec_state(), r),
    {
        let this = *self;
        let r = this.read(JavaMethod::Result);
        proof {
            let turn = Turn { before: *old(ctx), call: Call::Finalize { r }, after: *ctx };
            crate::turns::lemma_last_turn(java_rules(this.spec_callback(), this.spec_window()), this.spec_state(), turn);
        }
        r
    }

    fn value(&mut self, ctx: &mut FunctionContext<'_, C, O>) -> (r: Result<Value>)
        ensures
            *final(self) == *old(self),
            *final(ctx) == *old(ctx),
            !old(self).spec_window() ==> r is Err && r->Err_0@ == not_window(),
            old(self).spec_window() ==> java_read(old(self).spec_callback(), JavaMethod::Value, old(self).spec_state(), r),
    {
        let r = if self.window {
            self.read(JavaMethod::Value)
        } else {
            Err(LimboError::ParseError(NOT_A_WINDOW_FUNCTION.to_owned()))
        };
        proof {
            let turn = Turn { before: *old(ctx), call: Call::Value { r }, after: *ctx };
            crate::turns::lemma_turn_first(
                java_rules(self.spec_callback(), self.spec_window()),
                old(self).spec_state(),
                turn,
                self.spec_state(),
            );
        }
        r
    }

    fn inverse(
        &mut self,
        ctx: &mut FunctionContext<'_, C, O>,
        args: &[ValueRef<'_>],
    ) -> (r: Result<()>)
        ensures
            *final(ctx) == *old(ctx),
            final(self).spec_callback() == old(self).spec_callback(),
            final(self).spec_window() == old(self).spec_window(),
            !old(self).spec_window() ==> r is Err && r->Err_0@ == not_window() && *final(self)
                == *old(self),
            old(self).spec_window() ==> accumulated(
                old(self).spec_callback(),
                JavaMethod::Inverse,
                old(self).spec_state(),
                final(self).spec_state(),
                args,
                r,
            ),
    {
        let r = if self.window {
            self.accumulate(JavaMethod::Inverse, args)
        } else {
            Err(LimboError::ParseError(NOT_A_WINDOW_FUNCTION.to_owned()))
        };
        proof {
            let turn = Turn { before: *old(ctx), call: Call::Inverse { args, r }, after: *ctx };
            crate::turns::lemma_turn_first(
                java_rules(self.spec_callback(), self.spec_window()),
                old(self).spec_state(),
                turn,
                self.spec_state(),
            );
        }
        r
    }
}

/// The property flags a Java caller gives; bits that mean nothing are ignored.
pub fn function_flags(flags: i32) -> (r: FunctionFlags)
    ensures
        r == FunctionFlags::of_bits(flags as u32),
{
    FunctionFlags::from_bits_truncate(
        #[verifier::truncate]
        (flags as u32),
    )
}

/// A step that fails leaves the state as it was.
pub proof fn law_a_failed_step_keeps_the_state<T, I, A, R>(
    callback: JavaAggregate<T, I, A, R>,
    method: JavaMethod,
    before: Option<T>,
    after: Option<T>,
    args: &[ValueRef<'_>],
    r: Result<()>,
) where
    I: Fn() -> JavaOutcome<Option<T>> + Send + Sync + 'static,
    A: Fn(JavaMethod, &Option<T>, &[ValueRef<'_>]) -> JavaOutcome<Option<T>>
        + Send
        + Sync
        + 'static,
    R: Fn(JavaMethod, &Option<T>) -> JavaOutcome<JavaObject> + Send + Sync + 'static,

    requires
        accumulated(callback, method, before, after, args, r),
        r is Err,
    ensures
        after == before,
{
}

}
