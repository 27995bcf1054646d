//! Functions whose code is C callbacks.

use std::sync::Arc;
use vstd::prelude::*;

use crate::capi_context::{invalid_function, sqlite3_context, AggBuffer, CObject, CoreContext};
use crate::capi_value::sqlite3_value;
use crate::context::FunctionContext;
use crate::error::Result;
use crate::function::{AggregateFunction, AggregateState, ScalarFunction};
use crate::turns::{Call, Rules, Turn};
use crate::value::{Value, ValueRef};

verus! {

/// Whether a callback that takes arguments can be called in any situation.
pub open spec fn total_func<D, F>(f: F) -> bool where
    F: Fn(
        &mut FunctionContext<'_, usize, CObject<D>>,
        &mut sqlite3_context<D>,
        &mut Vec<sqlite3_value>,
    ),
 {
    forall|
        core: &mut FunctionContext<'_, usize, CObject<D>>,
        ctx: &mut sqlite3_context<D>,
        values: &mut Vec<sqlite3_value>,
    | call_requires(f, (core, ctx, values))
}

/// Whether a callback that takes no arguments can be called in any situation.
pub open spec fn total_final<D, G>(g: G) -> bool where
    G: Fn(&mut FunctionContext<'_, usize, CObject<D>>, &mut sqlite3_context<D>),
 {
    forall|core: &mut FunctionContext<'_, usize, CObject<D>>, ctx: &mut sqlite3_context<D>|
        call_requires(g, (core, ctx))
}

/// The callbacks of one registration. `F` is what `xFunc`, `xStep` and `xInverse` are, `G` what
/// `xFinal` and `xValue` are.
#[verifier::reject_recursive_types(D)]
pub struct CCallbacks<D, F, G> where
    F: Fn(
        &mut FunctionContext<'_, usize, CObject<D>>,
        &mut sqlite3_context<D>,
        &mut Vec<sqlite3_value>,
    ),
    G: Fn(&mut FunctionContext<'_, usize, CObject<D>>, &mut sqlite3_context<D>),
 {
    x_func: Option<F>,
    x_step: Option<F>,
    x_final: Option<G>,
    x_value: Option<G>,
    x_inverse: Option<F>,
    p_app: usize,
    db: usize,
    _objects: Ghost<Option<D>>,
}

impl<D, F, G> CCallbacks<D, F, G> where
    F: Fn(
        &mut FunctionContext<'_, usize, CObject<D>>,
        &mut sqlite3_context<D>,
        &mut Vec<sqlite3_value>,
    ),
    G: Fn(&mut FunctionContext<'_, usize, CObject<D>>, &mut sqlite3_context<D>),
 {
    #[verifier::type_invariant]
    spec fn total(self) -> bool {
        &&& self.x_func is Some ==> total_func::<D, F>(self.x_func->0)
        &&& self.x_step is Some ==> total_func::<D, F>(self.x_step->0)
        &&& self.x_final is Some ==> total_final::<D, G>(self.x_final->0)
        &&& self.x_value is Some ==> total_final::<D, G>(self.x_value->0)
        &&& self.x_inverse is Some ==> total_func::<D, F>(self.x_inverse->0)
    }

    pub closed spec fn spec_func(&self) -> Option<F> {
        self.x_func
    }

    pub closed spec fn spec_step(&self) -> Option<F> {
        self.x_step
    }

    pub closed spec fn spec_final(&self) -> Option<G> {
        self.x_final
    }

    pub closed spec fn spec_value(&self) -> Option<G> {
        self.x_value
    }

    pub closed spec fn spec_inverse(&self) -> Option<F> {
        self.x_inverse
    }

    pub closed spec fn spec_app(&self) -> usize {
        self.p_app
    }

    pub closed spec fn spec_db(&self) -> usize {
        self.db
    }

    pub fn new(
        x_func: Option<F>,
        x_step: Option<F>,
        x_final: Option<G>,
        x_value: Option<G>,
        x_inverse: Option<F>,
        p_app: usize,
        db: usize,
    ) -> (r: Self)
        requires
            x_func is Some ==> total_func::<D, F>(x_func->0),
            x_step is Some ==> total_func::<D, F>(x_step->0),
            x_final is Some ==> total_final::<D, G>(x_final->0),
            x_value is Some ==> total_final::<D, G>(x_value->0),
            x_inverse is Some ==> total_func::<D, F>(x_inverse->0),
        ensures
            r.spec_func() == x_func,
            r.spec_step() == x_step,
            r.spec_final() == x_final,
            r.spec_value() == x_value,
            r.spec_inverse() == x_inverse,
            r.spec_app() == p_app,
            r.spec_db() == db,
    {
        CCallbacks {
            x_func,
            x_step,
            x_final,
            x_value,
            x_inverse,
            p_app,
            db,
            _objects: Ghost(None),
        }
    }
}

/// Whether C values are copies of the arguments of a call, in their order, each knowing which it is
/// and what subtype it came with.
pub open spec fn copies_of<D>(
    core: CoreContext<'_, D>,
    args: Seq<ValueRef<'_>>,
    values: Seq<sqlite3_value>,
) -> bool {
    &&& values.len() == args.len()
    &&& forall|i: int|
        0 <= i < args.len() ==> {
            &&& (#[trigger] values[i]).spec_value() == args[i]@
            &&& values[i].spec_index() == Some(i as usize)
            &&& values[i].spec_subtype() == core.spec_arg_subtype(i)
        }
}

/// Whether a call has set nothing yet.
pub open spec fn fresh_call<D>(
    ctx: sqlite3_context<D>,
    db: usize,
    p_app: usize,
    agg: Option<AggBuffer>,
) -> bool {
    &&& ctx.spec_db() == db
    &&& ctx.spec_app() == p_app
    &&& ctx.spec_agg() == agg
    &&& ctx.outcome() == (crate::capi_context::Outcome::<D> {
        value: crate::value::ValueView::Null,
        subtype: 0,
        pointer: None,
        error: None,
    })
}

/// Copies the arguments of a call for a C callback.
pub fn c_values<D>(core: &CoreContext<'_, D>, args: &[ValueRef<'_>]) -> (r: Vec<sqlite3_value>)
    ensures
        copies_of(*core, args@, r@),
        r@.len() == args@.len(),
        forall|i: int|
            0 <= i < args@.len() ==> (#[trigger] r@[i]).spec_value() == args@[i]@
                && r@[i].spec_index() == Some(i as usize),
{
    let mut values: Vec<sqlite3_value> = Vec::new();
    let mut i: usize = 0;
    while i < args.len()
        invariant
            i <= args@.len(),
            values@.len() == i,
            forall|j: int|
                0 <= j < i ==> {
                    &&& (#[trigger] values@[j]).spec_value() == args@[j]@
                    &&& values@[j].spec_index() == Some(j as usize)
                    &&& values@[j].spec_subtype() == core.spec_arg_subtype(j)
                },
        decreases args@.len() - i,
    {
        values.push(sqlite3_value::from_arg(&args[i], i, core.arg_subtype(i)));
        i += 1;
    }
    values
}

/// Runs one C callback that takes arguments (`xFunc`, `xStep`, `xInverse`).
pub fn call_with_args<D, F>(
    db: usize,
    p_app: usize,
    callback: &F,
    core: &mut FunctionContext<'_, usize, CObject<D>>,
    args: &[ValueRef<'_>],
    agg: Option<AggBuffer>,
) -> (r: (Result<Value>, Option<AggBuffer>)) where
    F: Fn(
        &mut FunctionContext<'_, usize, CObject<D>>,
        &mut sqlite3_context<D>,
        &mut Vec<sqlite3_value>,
    ),

    requires
        total_func::<D, F>(*callback),
    ensures
        exists|
            c: &mut FunctionContext<'_, usize, CObject<D>>,
            x: &mut sqlite3_context<D>,
            v: &mut Vec<sqlite3_value>,
        |
            {
                &&& *c == *old(core)
                &&& fresh_call(*x, db, p_app, agg)
                &&& copies_of(*old(core), args@, v@)
                &&& v@.len() == args@.len()
                &&& forall|i: int|
                    0 <= i < args@.len() ==> (#[trigger] v@[i]).spec_value() == args@[i]@
                &&& call_ensures(*callback, (c, x, v), ())
                &&& crate::capi_context::finished(
                    (*final(x)).outcome(),
                    *final(c),
                    *final(core),
                    r.0,
                )
                &&& r.1 == (*final(x)).spec_agg()
            },
{
    let mut values = c_values(core, args);
    let mut ctx: sqlite3_context<D> = sqlite3_context::new(db, p_app, agg);
    (*callback)(core, &mut ctx, &mut values);
    let left = ctx.take_agg();
    (ctx.finish(core), left)
}

/// Runs one C callback that takes no arguments (`xFinal`, `xValue`).
pub fn call_no_args<D, G>(
    db: usize,
    p_app: usize,
    callback: &G,
    core: &mut FunctionContext<'_, usize, CObject<D>>,
    agg: Option<AggBuffer>,
) -> (r: (Result<Value>, Option<AggBuffer>)) where
    G: Fn(&mut FunctionContext<'_, usize, CObject<D>>, &mut sqlite3_context<D>),

    requires
        total_final::<D, G>(*callback),
    ensures
        exists|c: &mut FunctionContext<'_, usize, CObject<D>>, x: &mut sqlite3_context<D>|
            #![trigger fresh_call(*x, db, p_app, agg), (*final(c)).result_tag]
            {
                &&& *c == *old(core)
                &&& fresh_call(*x, db, p_app, agg)
                &&& call_ensures(*callback, (c, x), ())
                &&& crate::capi_context::finished(
                    (*final(x)).outcome(),
                    *final(c),
                    *final(core),
                    r.0,
                )
                &&& r.1 == (*final(x)).spec_agg()
            },
{
    let mut ctx: sqlite3_context<D> = sqlite3_context::new(db, p_app, agg);
    assert(fresh_call(ctx, db, p_app, agg));
    (*callback)(core, &mut ctx);
    let left = ctx.take_agg();
    (ctx.finish(core), left)
}

/// `call_with_args` on a context that is handed over and handed back.
pub fn run_with_args<'b, D, F>(
    db: usize,
    p_app: usize,
    callback: &F,
    core: FunctionContext<'b, usize, CObject<D>>,
    args: &[ValueRef<'_>],
    agg: Option<AggBuffer>,
) -> (r: (FunctionContext<'b, usize, CObject<D>>, Result<Value>, Option<AggBuffer>)) where
    F: Fn(
        &mut FunctionContext<'_, usize, CObject<D>>,
        &mut sqlite3_context<D>,
        &mut Vec<sqlite3_value>,
    ),

    requires
        total_func::<D, F>(*callback),
    ensures
        exists|
            c: &mut FunctionContext<'_, usize, CObject<D>>,
            x: &mut sqlite3_context<D>,
            v: &mut Vec<sqlite3_value>,
        |
            {
                &&& *c == core
                &&& fresh_call(*x, db, p_app, agg)
                &&& copies_of(core, args@, v@)
                &&& call_ensures(*callback, (c, x, v), ())
                &&& crate::capi_context::finished((*final(x)).outcome(), *final(c), r.0, r.1)
                &&& r.2 == (*final(x)).spec_agg()
            },
{
    let mut after = core;
    let (r, left) = call_with_args(db, p_app, callback, &mut after, args, agg);
    (after, r, left)
}

/// `call_no_args` on a context that is handed over and handed back.
pub fn run_no_args<'b, D, G>(
    db: usize,
    p_app: usize,
    callback: &G,
    core: FunctionContext<'b, usize, CObject<D>>,
    agg: Option<AggBuffer>,
) -> (r: (FunctionContext<'b, usize, CObject<D>>, Result<Value>, Option<AggBuffer>)) where
    G: Fn(&mut FunctionContext<'_, usize, CObject<D>>, &mut sqlite3_context<D>),

    requires
        total_final::<D, G>(*callback),
    ensures
        exists|c: &mut FunctionContext<'_, usize, CObject<D>>, x: &mut sqlite3_context<D>|
            #![trigger fresh_call(*x, db, p_app, agg), (*final(c)).result_tag]
            {
                &&& *c == core
                &&& fresh_call(*x, db, p_app, agg)
                &&& call_ensures(*callback, (c, x), ())
                &&& crate::capi_context::finished((*final(x)).outcome(), *final(c), r.0, r.1)
                &&& r.2 == (*final(x)).spec_agg()
            },
{
    let mut after = core;
    let (r, left) = call_no_args(db, p_app, callback, &mut after, agg);
    (after, r, left)
}

/// The buffer a group goes on with: the one its callback was left with, or a new one if none came
/// back.
pub open spec fn kept(left: Option<AggBuffer>) -> AggBuffer {
    match left {
        Some(buffer) => buffer,
        None => AggBuffer::empty(),
    }
}

/// Whether one call of a callback of the step kind can make `b` of the buffer `a`, `after` of the
/// context `before`, and return `r`.
pub open spec fn c_stepped<'a, D, F>(
    db: usize,
    p_app: usize,
    callback: F,
    a: AggBuffer,
    before: FunctionContext<'a, usize, CObject<D>>,
    b: AggBuffer,
    after: FunctionContext<'a, usize, CObject<D>>,
    args: &'a [ValueRef<'a>],
    r: Result<()>,
) -> bool where
    F: Fn(
        &mut FunctionContext<'_, usize, CObject<D>>,
        &mut sqlite3_context<D>,
        &mut Vec<sqlite3_value>,
    ),
 {
    exists|v: Result<Value>, left: Option<AggBuffer>|
        {
            &&& #[trigger] call_ensures(
                run_with_args::<D, F>,
                (db, p_app, &callback, before, args, Some(a)),
                (after, v, left),
            )
            &&& b == kept(left)
            &&& match v {
                Ok(_) => r is Ok,
                Err(e) => r == Err::<(), crate::error::LimboError>(e),
            }
        }
}

/// Whether one call of a callback of the final kind can make `b` of the buffer `a`, `after` of the
/// context `before`, and return `r`.
pub open spec fn c_answered<'a, D, G>(
    db: usize,
    p_app: usize,
    callback: G,
    a: AggBuffer,
    before: FunctionContext<'a, usize, CObject<D>>,
    b: AggBuffer,
    after: FunctionContext<'a, usize, CObject<D>>,
    r: Result<Value>,
) -> bool where
    G: Fn(&mut FunctionContext<'_, usize, CObject<D>>, &mut sqlite3_context<D>),
 {
    exists|left: Option<AggBuffer>|
        {
            &&& #[trigger] call_ensures(
                run_no_args::<D, G>,
                (db, p_app, &callback, before, Some(a)),
                (after, r, left),
            )
            &&& b == kept(left)
        }
}

/// Whether a call failed for want of a callback and changed nothing.
pub open spec fn c_missing<'a, D, T>(
    message: Seq<char>,
    a: AggBuffer,
    before: FunctionContext<'a, usize, CObject<D>>,
    b: AggBuffer,
    after: FunctionContext<'a, usize, CObject<D>>,
    r: Result<T>,
) -> bool {
    &&& r is Err
    &&& r->Err_0@ == no_callback(message)
    &&& b == a
    &&& after == before
}

/// What a C accumulator goes through: each turn is one call of the callback for it.
pub open spec fn c_rules<'a, D, F, G>(callbacks: CCallbacks<D, F, G>) -> Rules<
    'a,
    AggBuffer,
    usize,
    CObject<D>,
> where
    F: Fn(
        &mut FunctionContext<'_, usize, CObject<D>>,
        &mut sqlite3_context<D>,
        &mut Vec<sqlite3_value>,
    ),
    G: Fn(&mut FunctionContext<'_, usize, CObject<D>>, &mut sqlite3_context<D>),
 {
    let db = callbacks.spec_db();
    let app = callbacks.spec_app();
    Rules {
        step: |
            a: AggBuffer,
            before: FunctionContext<'a, usize, CObject<D>>,
            b: AggBuffer,
            after: FunctionContext<'a, usize, CObject<D>>,
            args: &'a [ValueRef<'a>],
            r: Result<()>,
        |
            match callbacks.spec_step() {
                None => c_missing(
                    "aggregate function has no step implementation"@,
                    a,
                    before,
                    b,
                    after,
                    r,
                ),
                Some(f) => c_stepped(db, app, f, a, before, b, after, args, r),
            },
        inverse: |
            a: AggBuffer,
            before: FunctionContext<'a, usize, CObject<D>>,
            b: AggBuffer,
            after: FunctionContext<'a, usize, CObject<D>>,
            args: &'a [ValueRef<'a>],
            r: Result<()>,
        |
            match callbacks.spec_inverse() {
                None => c_missing(
                    "aggregate may not be used as a window function"@,
                    a,
                    before,
                    b,
                    after,
                    r,
                ),
                Some(f) => c_stepped(db, app, f, a, before, b, after, args, r),
            },
        value: |
            a: AggBuffer,
            before: FunctionContext<'a, usize, CObject<D>>,
            b: AggBuffer,
            after: FunctionContext<'a, usize, CObject<D>>,
            r: Result<Value>,
        |
            match callbacks.spec_value() {
                None => c_missing(
                    "aggregate may not be used as a window function"@,
                    a,
                    before,
                    b,
                    after,
                    r,
                ),
                Some(g) => c_answered(db, app, g, a, before, b, after, r),
            },
        finalize: |
            a: AggBuffer,
            before: FunctionContext<'a, usize, CObject<D>>,
            after: FunctionContext<'a, usize, CObject<D>>,
            r: Result<Value>,
        |
            match callbacks.spec_final() {
                None => c_missing(
                    "aggregate function has no final implementation"@,
                    a,
                    before,
                    a,
                    after,
                    r,
                ),
                Some(g) => exists|b: AggBuffer| #[trigger]
                    c_answered(db, app, g, a, before, b, after, r),
            },
    }
}

/// A function registered by C code. Dropping it drops its destructor, which runs it.
#[verifier::reject_recursive_types(D)]
pub struct CFunction<D, F, G> where
    D: Send + Sync + 'static,
    F: Fn(
        &mut FunctionContext<'_, usize, CObject<D>>,
        &mut sqlite3_context<D>,
        &mut Vec<sqlite3_value>,
    ) + Send + Sync + 'static,
    G: Fn(&mut FunctionContext<'_, usize, CObject<D>>, &mut sqlite3_context<D>)
        + Send
        + Sync
        + 'static,
 {
    callbacks: Arc<CCallbacks<D, F, G>>,
    x_destroy: Option<D>,
    /// The name of a function that was only overloaded, every call of which is an error.
    unusable: Option<String>,
}

/// The accumulator of a C aggregate.
#[verifier::reject_recursive_types(D)]
pub struct CAggState<D, F, G> where
    D: Send + Sync + 'static,
    F: Fn(
        &mut FunctionContext<'_, usize, CObject<D>>,
        &mut sqlite3_context<D>,
        &mut Vec<sqlite3_value>,
    ) + Send + Sync + 'static,
    G: Fn(&mut FunctionContext<'_, usize, CObject<D>>, &mut sqlite3_context<D>)
        + Send
        + Sync
        + 'static,
 {
    callbacks: Arc<CCallbacks<D, F, G>>,
    buffer: AggBuffer,
}

/// The error of a call for which the registration has no callback.
pub open spec fn no_callback(message: Seq<char>) -> crate::error::ErrorView {
    crate::error::ErrorView::UserFunction { code: crate::context::SQLITE_ERROR, message }
}

/// The message of a call of a function that was only overloaded.
pub open spec fn unusable_message(name: Seq<char>) -> Seq<char> {
    "unable to use function "@ + name + " in the requested context"@
}

/// What the engine gets of a step that ended with this outcome: only whether it failed.
pub open spec fn step_finished<D>(
    outcome: crate::capi_context::Outcome<D>,
    before: CoreContext<'_, D>,
    after: CoreContext<'_, D>,
    r: Result<()>,
) -> bool {
    exists|value: Result<Value>|
        {
            &&& #[trigger] crate::capi_context::finished(outcome, before, after, value)
            &&& match value {
                Ok(_) => r is Ok,
                Err(e) => r == Err::<(), crate::error::LimboError>(e),
            }
        }
}

impl<D, F, G> CFunction<D, F, G> where
    D: Send + Sync + 'static,
    F: Fn(
        &mut FunctionContext<'_, usize, CObject<D>>,
        &mut sqlite3_context<D>,
        &mut Vec<sqlite3_value>,
    ) + Send + Sync + 'static,
    G: Fn(&mut FunctionContext<'_, usize, CObject<D>>, &mut sqlite3_context<D>)
        + Send
        + Sync
        + 'static,
 {
    pub closed spec fn spec_callbacks(&self) -> CCallbacks<D, F, G> {
        *self.callbacks
    }

    pub closed spec fn spec_destroy(&self) -> Option<D> {
        self.x_destroy
    }

    /// The name a function was overloaded under, if it only was.
    pub closed spec fn spec_unusable(&self) -> Option<Seq<char>> {
        match self.unusable {
            Some(name) => Some(name@),
            None => None,
        }
    }

    pub fn new(callbacks: CCallbacks<D, F, G>, x_destroy: Option<D>) -> (r: Self)
        ensures
            r.spec_callbacks() == callbacks,
            r.spec_destroy() == x_destroy,
            r.spec_unusable() is None,
    {
        CFunction { callbacks: Arc::new(callbacks), x_destroy, unusable: None }
    }

    /// A function that is there so that a call of it compiles, and fails when it is called.
    pub fn placeholder(name: String, db: usize) -> (r: Self)
        ensures
            r.spec_unusable() == Some(name@),
            r.spec_destroy() is None,
            r.spec_callbacks().spec_func() is None,
            r.spec_callbacks().spec_step() is None,
            r.spec_callbacks().spec_final() is None,
            r.spec_callbacks().spec_value() is None,
            r.spec_callbacks().spec_inverse() is None,
            r.spec_callbacks().spec_db() == db,
    {
        CFunction {
            callbacks: Arc::new(CCallbacks::new(None, None, None, None, None, 0, db)),
            x_destroy: None,
            unusable: Some(name),
        }
    }

    /// What a deletion leaves behind: the deleting call's destructor runs when the entry is
    /// registered again or the connection closes, not now.
    pub fn destructor_only(p_app: usize, x_destroy: Option<D>) -> (r: Self)
        ensures
            r.spec_destroy() == x_destroy,
            r.spec_callbacks().spec_func() is None,
            r.spec_callbacks().spec_step() is None,
            r.spec_callbacks().spec_final() is None,
            r.spec_callbacks().spec_value() is None,
            r.spec_callbacks().spec_inverse() is None,
            r.spec_callbacks().spec_app() == p_app,
            r.spec_callbacks().spec_db() == 0,
            r.spec_unusable() is None,
    {
        CFunction {
            callbacks: Arc::new(CCallbacks::new(None, None, None, None, None, p_app, 0)),
            x_destroy,
            unusable: None,
        }
    }

    /// The accumulator of a new group.
    pub fn new_state(&self) -> (r: CAggState<D, F, G>)
        ensures
            r.spec_callbacks() == self.spec_callbacks(),
            r.spec_buffer() == AggBuffer::empty(),
            r.spec_buffer().spec_words() is None,
            r.spec_buffer().spec_len() == 0,
    {
        CAggState { callbacks: self.callbacks.clone(), buffer: AggBuffer::new() }
    }
}

impl<D, F, G> ScalarFunction<usize, CObject<D>> for CFunction<D, F, G> where
    D: Send + Sync + 'static,
    F: Fn(
        &mut FunctionContext<'_, usize, CObject<D>>,
        &mut sqlite3_context<D>,
        &mut Vec<sqlite3_value>,
    ) + Send + Sync + 'static,
    G: Fn(&mut FunctionContext<'_, usize, CObject<D>>, &mut sqlite3_context<D>)
        + Send
        + Sync
        + 'static,
 {
    fn call(
        &self,
        ctx: &mut FunctionContext<'_, usize, CObject<D>>,
        args: &[ValueRef<'_>],
    ) -> (r: Result<Value>)
        ensures
            self.spec_unusable() matches Some(name) ==> {
                &&& r is Err
                &&& r->Err_0@ == no_callback(unusable_message(name))
                &&& final(ctx).same_call(old(ctx))
                &&& final(ctx).aux == old(ctx).aux
                &&& final(ctx).result_tag == old(ctx).result_tag
            },
            self.spec_unusable() is None ==> match self.spec_callbacks().spec_func() {
                None => {
                    &&& r is Err
                    &&& r->Err_0@ == no_callback("user-defined function has no implementation"@)
                    &&& *final(ctx) == *old(ctx)
                },
                Some(x_func) => exists|
                    c: &mut FunctionContext<'_, usize, CObject<D>>,
                    x: &mut sqlite3_context<D>,
                    v: &mut Vec<sqlite3_value>,
                |
                    {
                        &&& *c == *old(ctx)
                        &&& fresh_call(
                            *x,
                            self.spec_callbacks().spec_db(),
                            self.spec_callbacks().spec_app(),
                            None,
                        )
                        &&& copies_of(*old(ctx), args@, v@)
                        &&& call_ensures(x_func, (c, x, v), ())
                        &&& crate::capi_context::finished(
                            (*final(x)).outcome(),
                            *final(c),
                            *final(ctx),
                            r,
                        )
                    },
            },
    {
        proof {
            use_type_invariant(&*self.callbacks);
        }
        if let Some(name) = &self.unusable {
            let mut call: sqlite3_context<D> = sqlite3_context::new(self.callbacks.db, 0, None);
            let bytes = name.as_str().as_bytes();
            proof {
                vstd::utf8::encode_utf8_valid_utf8(name@);
                vstd::utf8::encode_utf8_decode_utf8(name@);
            }
            invalid_function(&mut call, Some(bytes));
            return call.finish(ctx);
        }
        match &self.callbacks.x_func {
            None => Err(ctx.error("user-defined function has no implementation".to_owned())),
            Some(x_func) => {
                let (r, _) = call_with_args(
                    self.callbacks.db,
                    self.callbacks.p_app,
                    x_func,
                    ctx,
                    args,
                    None,
                );
                r
            },
        }
    }
}

impl<D, F, G> AggregateFunction<usize, CObject<D>> for CFunction<D, F, G> where
    D: Send + Sync + 'static,
    F: Fn(
        &mut FunctionContext<'_, usize, CObject<D>>,
        &mut sqlite3_context<D>,
        &mut Vec<sqlite3_value>,
    ) + Send + Sync + 'static,
    G: Fn(&mut FunctionContext<'_, usize, CObject<D>>, &mut sqlite3_context<D>)
        + Send
        + Sync
        + 'static,
 {
    fn init(
        &self,
        ctx: &mut FunctionContext<'_, usize, CObject<D>>,
    ) -> (r: Result<Box<dyn AggregateState<usize, CObject<D>>>>)
        ensures
            r is Ok,
            forall|turns: Seq<Turn<'_, usize, CObject<D>>>| #[trigger]
                r->Ok_0.may(turns) ==> crate::turns::traced(
                    c_rules(self.spec_callbacks()),
                    AggBuffer::empty(),
                    turns,
                ),
            *final(ctx) == *old(ctx),
    {
        Ok(Box::new(self.new_state()))
    }

    fn supports_window(&self) -> (r: bool)
        ensures
            r == (self.spec_callbacks().spec_value() is Some
                && self.spec_callbacks().spec_inverse() is Some),
    {
        self.callbacks.x_value.is_some() && self.callbacks.x_inverse.is_some()
    }
}

impl<D, F, G> CAggState<D, F, G> where
    D: Send + Sync + 'static,
    F: Fn(
        &mut FunctionContext<'_, usize, CObject<D>>,
        &mut sqlite3_context<D>,
        &mut Vec<sqlite3_value>,
    ) + Send + Sync + 'static,
    G: Fn(&mut FunctionContext<'_, usize, CObject<D>>, &mut sqlite3_context<D>)
        + Send
        + Sync
        + 'static,
 {
    pub closed spec fn spec_callbacks(&self) -> CCallbacks<D, F, G> {
        *self.callbacks
    }

    pub closed spec fn spec_buffer(&self) -> AggBuffer {
        self.buffer
    }

    /// Runs a callback of the step kind on the accumulator.
    fn run_step(
        &mut self,
        x_step: &F,
        ctx: &mut FunctionContext<'_, usize, CObject<D>>,
        args: &[ValueRef<'_>],
    ) -> (r: Result<()>)
        requires
            total_func::<D, F>(*x_step),
        ensures
            exists|
                c: &mut FunctionContext<'_, usize, CObject<D>>,
                x: &mut sqlite3_context<D>,
                v: &mut Vec<sqlite3_value>,
            |
                {
                    &&& *c == *old(ctx)
                    &&& fresh_call(
                        *x,
                        old(self).spec_callbacks().spec_db(),
                        old(self).spec_callbacks().spec_app(),
                        Some(old(self).spec_buffer()),
                    )
                    &&& copies_of(*old(ctx), args@, v@)
                    &&& call_ensures(*x_step, (c, x, v), ())
                    &&& step_finished((*final(x)).outcome(), *final(c), *final(ctx), r)
                    &&& final(self).spec_buffer() == kept((*final(x)).spec_agg())
                },
            c_stepped(
                old(self).spec_callbacks().spec_db(),
                old(self).spec_callbacks().spec_app(),
                *x_step,
                old(self).spec_buffer(),
                *old(ctx),
                final(self).spec_buffer(),
                *final(ctx),
                args,
                r,
            ),
            final(self).spec_callbacks() == old(self).spec_callbacks(),
    {
        let mut buffer = AggBuffer::new();
        std::mem::swap(&mut buffer, &mut self.buffer);
        let core = ctx.hand_over();
        let (after, r, left) = run_with_args(
            self.callbacks.db,
            self.callbacks.p_app,
            x_step,
            core,
            args,
            Some(buffer),
        );
        *ctx = after;
        if let Some(buffer) = left {
            self.buffer = buffer;
        }
        match r {
            Ok(_) => Ok(()),
            Err(e) => Err(e),
        }
    }
}

impl<D, F, G> AggregateState<usize, CObject<D>> for CAggState<D, F, G> where
    D: Send + Sync + 'static,
    F: Fn(
        &mut FunctionContext<'_, usize, CObject<D>>,
        &mut sqlite3_context<D>,
        &mut Vec<sqlite3_value>,
    ) + Send + Sync + 'static,
    G: Fn(&mut FunctionContext<'_, usize, CObject<D>>, &mut sqlite3_context<D>)
        + Send
        + Sync
        + 'static,
 {
    open spec fn may(&self, turns: Seq<Turn<'_, usize, CObject<D>>>) -> bool {
        crate::turns::traced(c_rules(self.spec_callbacks()), self.spec_buffer(), turns)
    }

    fn step(
        &mut self,
        ctx: &mut FunctionContext<'_, usize, CObject<D>>,
        args: &[ValueRef<'_>],
    ) -> (r: Result<()>)
        ensures
            match old(self).spec_callbacks().spec_step() {
                None => {
                    &&& r is Err
                    &&& r->Err_0@ == no_callback("aggregate function has no step implementation"@)
                    &&& *final(ctx) == *old(ctx)
                    &&& *final(self) == *old(self)
                },
                Some(callback) => exists|
                    c: &mut FunctionContext<'_, usize, CObject<D>>,
                    x: &mut sqlite3_context<D>,
                    v: &mut Vec<sqlite3_value>,
                |
                    {
                        &&& *c == *old(ctx)
                        &&& fresh_call(
                            *x,
                            old(self).spec_callbacks().spec_db(),
                            old(self).spec_callbacks().spec_app(),
                            Some(old(self).spec_buffer()),
                        )
                        &&& copies_of(*old(ctx), args@, v@)
                        &&& call_ensures(callback, (c, x, v), ())
                        &&& step_finished((*final(x)).outcome(), *final(c), *final(ctx), r)
                        &&& final(self).spec_buffer() == kept((*final(x)).spec_agg())
                    },
            },
            final(self).spec_callbacks() == old(self).spec_callbacks(),
    {
        let callbacks = self.callbacks.clone();
        proof {
            use_type_invariant(&*callbacks);
        }
        let r = match &callbacks.x_step {
            None => Err(ctx.error("aggregate function has no step implementation".to_owned())),
            Some(x_step) => self.run_step(x_step, ctx, args),
        };
        proof {
            let rules = c_rules(self.spec_callbacks());
            let turn = Turn { before: *old(ctx), call: Call::Step { args, r }, after: *ctx };
            crate::turns::lemma_turn_first(
                rules,
                old(self).spec_buffer(),
                turn,
                self.spec_buffer(),
            );
        }
        r
    }

    fn finalize(
        self: Box<Self>,
        ctx: &mut FunctionContext<'_, usize, CObject<D>>,
    ) -> (r: Result<Value>)
        ensures
            match self.spec_callbacks().spec_final() {
                None => {
                    &&& r is Err
                    &&& r->Err_0@ == no_callback("aggregate function has no final implementation"@)
                    &&& *final(ctx) == *old(ctx)
                },
                Some(callback) => exists|
                    c: &mut FunctionContext<'_, usize, CObject<D>>,
                    x: &mut sqlite3_context<D>,
                |
                    {
                        &&& *c == *old(ctx)
                        &&& fresh_call(
                            *x,
                            self.spec_callbacks().spec_db(),
                            self.spec_callbacks().spec_app(),
                            Some(self.spec_buffer()),
                        )
                        &&& call_ensures(callback, (c, x), ())
                        &&& crate::capi_context::finished(
                            (*final(x)).outcome(),
                            *final(c),
                            *final(ctx),
                            r,
                        )
                    },
            },
    {
        let this = *self;
        proof {
            use_type_invariant(&*this.callbacks);
        }
        let r = match &this.callbacks.x_final {
            None => Err(ctx.error("aggregate function has no final implementation".to_owned())),
            Some(x_final) => {
                let core = ctx.hand_over();
                let (after, r, left) = run_no_args(
                    this.callbacks.db,
                    this.callbacks.p_app,
                    x_final,
                    core,
                    Some(this.buffer),
                );
                *ctx = after;
                assert(c_answered(
                    this.callbacks.db,
                    this.callbacks.p_app,
                    *x_final,
                    self.spec_buffer(),
                    *old(ctx),
                    kept(left),
                    *ctx,
                    r,
                ));
                r
            },
        };
        proof {
            let turn = Turn { before: *old(ctx), call: Call::Finalize { r }, after: *ctx };
            crate::turns::lemma_last_turn(
                c_rules(self.spec_callbacks()),
                self.spec_buffer(),
                turn,
            );
        }
        r
    }

    /// The answer so far. The callback works on the accumulator itself, so what it writes there
    /// stays.
    fn value(
        &mut self,
        ctx: &mut FunctionContext<'_, usize, CObject<D>>,
    ) -> (r: Result<Value>)
        ensures
            match old(self).spec_callbacks().spec_value() {
                None => {
                    &&& r is Err
                    &&& r->Err_0@ == no_callback("aggregate may not be used as a window function"@)
                    &&& *final(ctx) == *old(ctx)
                    &&& *final(self) == *old(self)
                },
                Some(callback) => exists|
                    c: &mut FunctionContext<'_, usize, CObject<D>>,
                    x: &mut sqlite3_context<D>,
                |
                    {
                        &&& *c == *old(ctx)
                        &&& fresh_call(
                            *x,
                            old(self).spec_callbacks().spec_db(),
                            old(self).spec_callbacks().spec_app(),
                            Some(old(self).spec_buffer()),
                        )
                        &&& call_ensures(callback, (c, x), ())
                        &&& crate::capi_context::finished(
                            (*final(x)).outcome(),
                            *final(c),
                            *final(ctx),
                            r,
                        )
                        &&& final(self).spec_buffer() == kept((*final(x)).spec_agg())
                    },
            },
            final(self).spec_callbacks() == old(self).spec_callbacks(),
    {
        let callbacks = self.callbacks.clone();
        proof {
            use_type_invariant(&*callbacks);
        }
        let r = match &callbacks.x_value {
            None => Err(ctx.error("aggregate may not be used as a window function".to_owned())),
            Some(x_value) => {
                let mut buffer = AggBuffer::new();
                std::mem::swap(&mut buffer, &mut self.buffer);
                let core = ctx.hand_over();
                let (after, r, left) = run_no_args(
                    callbacks.db,
                    callbacks.p_app,
                    x_value,
                    core,
                    Some(buffer),
                );
                *ctx = after;
                if let Some(buffer) = left {
                    self.buffer = buffer;
                }
                r
            },
        };
        proof {
            let rules = c_rules(self.spec_callbacks());
            let turn = Turn { before: *old(ctx), call: Call::Value { r }, after: *ctx };
            crate::turns::lemma_turn_first(
                rules,
                old(self).spec_buffer(),
                turn,
                self.spec_buffer(),
            );
        }
        r
    }

    fn inverse(
        &mut self,
        ctx: &mut FunctionContext<'_, usize, CObject<D>>,
        args: &[ValueRef<'_>],
    ) -> (r: Result<()>)
        ensures
            match old(self).spec_callbacks().spec_inverse() {
                None => {
                    &&& r is Err
                    &&& r->Err_0@ == no_callback("aggregate may not be used as a window function"@)
                    &&& *final(ctx) == *old(ctx)
                    &&& *final(self) == *old(self)
                },
                Some(callback) => exists|
                    c: &mut FunctionContext<'_, usize, CObject<D>>,
                    x: &mut sqlite3_context<D>,
                    v: &mut Vec<sqlite3_value>,
                |
                    {
                        &&& *c == *old(ctx)
                        &&& fresh_call(
                            *x,
                            old(self).spec_callbacks().spec_db(),
                            old(self).spec_callbacks().spec_app(),
                            Some(old(self).spec_buffer()),
                        )
                        &&& copies_of(*old(ctx), args@, v@)
                        &&& call_ensures(callback, (c, x, v), ())
                        &&& step_finished((*final(x)).outcome(), *final(c), *final(ctx), r)
                        &&& final(self).spec_buffer() == kept((*final(x)).spec_agg())
                    },
            },
            final(self).spec_callbacks() == old(self).spec_callbacks(),
    {
        let callbacks = self.callbacks.clone();
        proof {
            use_type_invariant(&*callbacks);
        }
        let r = match &callbacks.x_inverse {
            None => Err(ctx.error("aggregate may not be used as a window function".to_owned())),
            Some(x_inverse) => self.run_step(x_inverse, ctx, args),
        };
        proof {
            let rules = c_rules(self.spec_callbacks());
            let turn = Turn { before: *old(ctx), call: Call::Inverse { args, r }, after: *ctx };
            crate::turns::lemma_turn_first(
                rules,
                old(self).spec_buffer(),
                turn,
                self.spec_buffer(),
            );
        }
        r
    }
}

}
