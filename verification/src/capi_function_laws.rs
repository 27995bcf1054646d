//! What a C callback is called with and what becomes of what it leaves, said of the arguments, the
//! result and the accumulator.

use vstd::prelude::*;

use crate::capi_context::{sqlite3_context, AggBuffer, CObject, CoreContext, Outcome};
use crate::capi_function::{
    c_values, call_no_args, call_with_args, run_no_args, run_with_args, CAggState, CCallbacks,
    CFunction,
};
use crate::capi_value::sqlite3_value;
use crate::context::FunctionContext;
use crate::error::{LimboError, Result};
use crate::function::{AggregateFunction, AggregateState, ScalarFunction};
use crate::turns::{Call, Turn};
use crate::value::{Value, ValueRef, ValueView};

verus! {

/// Whether a callback gets the arguments of a call: as many values, the one at each place holding
/// the argument of that place, knowing the place, and with the subtype that the engine's tag there
/// has, or that text there carries.
pub open spec fn handed<D>(
    core: CoreContext<'_, D>,
    args: Seq<ValueRef<'_>>,
    values: Seq<sqlite3_value>,
) -> bool {
    &&& values.len() == args.len()
    &&& forall|i: int|
        0 <= i < args.len() ==> {
            &&& (#[trigger] values[i]).spec_value() == args[i]@
            &&& values[i].spec_index() == Some(i as usize)
            &&& i < core.arg_tags@.len() && core.arg_tags@[i] is Some ==> values[i].spec_subtype()
                == core.arg_tags@[i]->0.spec_subtype()
            &&& (i >= core.arg_tags@.len() || core.arg_tags@[i] is None) && i < core.args@.len()
                ==> values[i].spec_subtype() == (match core.args@[i] {
                ValueRef::Text(t) => t.subtype,
                _ => 0,
            })
        }
}

/// Whether a callback starts on a call of its own, with nothing set.
pub open spec fn starts<D>(
    ctx: sqlite3_context<D>,
    db: usize,
    p_app: usize,
    agg: Option<AggBuffer>,
) -> bool {
    &&& ctx.spec_db() == db
    &&& ctx.spec_app() == p_app
    &&& ctx.spec_agg() == agg
    &&& ctx.outcome().value == ValueView::Null
    &&& ctx.outcome().subtype == 0
    &&& ctx.outcome().pointer is None
    &&& ctx.outcome().error is None
}

/// Whether the engine gets what a callback left: its error before anything else, then its pointer
/// beside NULL, then its value with its subtype.
pub open spec fn delivered<D>(
    left: Outcome<D>,
    before: CoreContext<'_, D>,
    after: CoreContext<'_, D>,
    r: Result<Value>,
) -> bool {
    &&& after.connection == before.connection
    &&& after.args@ == before.args@
    &&& after.arg_tags@ == before.arg_tags@
    &&& after.aux == before.aux
    &&& left.error matches Some(e) ==> {
        &&& r matches Err(LimboError::UserFunction { code, message }) && code == e.0 && message@
            == e.1
        &&& after.result_tag == before.result_tag
    }
    &&& left.error is None && left.pointer is Some ==> {
        &&& r matches Ok(Value::Null)
        &&& after.result_tag matches Some(tag) && (tag.spec_pointer() matches Some(p)
            && p.spec_object() == (left.pointer->0).0 && p.spec_ptype() == (left.pointer->0).1)
    }
    &&& left.error is None && left.pointer is None ==> {
        &&& r matches Ok(v) && v@ == left.value
        &&& left.subtype == 0 ==> after.result_tag == before.result_tag
        &&& left.subtype != 0 ==> (after.result_tag matches Some(tag) && tag.spec_subtype()
            == left.subtype && tag.spec_pointer() is None)
    }
}

/// Whether a step ends as the callback left it: with its error, or well.
pub open spec fn step_delivered<D>(left: Outcome<D>, r: Result<()>) -> bool {
    match left.error {
        Some(e) => r matches Err(LimboError::UserFunction { code, message }) && code == e.0
            && message@ == e.1,
        None => r is Ok,
    }
}

/// Whether a failure is code 1 with this message.
pub open spec fn refused<T>(r: Result<T>, said: Seq<char>) -> bool {
    r matches Err(LimboError::UserFunction { code, message }) && code == 1 && message@ == said
}

/// The C values of a call are its arguments, each in its place, with its subtype.
pub proof fn law_c_values_are_the_arguments_in_order<D>(
    core: &CoreContext<'_, D>,
    args: &[ValueRef<'_>],
    r: Vec<sqlite3_value>,
    i: int,
    subtype: u8,
)
    requires
        call_ensures(c_values::<D>, (core, args), r),
        0 <= i < args@.len() <= usize::MAX,
        call_ensures(
            FunctionContext::<'_, usize, CObject<D>>::arg_subtype,
            (core, i as usize),
            subtype,
        ),
    ensures
        r@.len() == args@.len(),
        r@[i].spec_value() == args@[i]@,
        r@[i].spec_index() == Some(i as usize),
        r@[i].spec_subtype() == subtype,
        handed(*core, args@, r@),
{
}

/// A callback that takes arguments runs once, in the engine's call as it is, on a call that has set
/// nothing, with the arguments; the engine gets what it left.
pub proof fn law_a_callback_gets_the_arguments<D, F>(
    db: usize,
    p_app: usize,
    callback: F,
    core: &mut FunctionContext<'_, usize, CObject<D>>,
    args: &[ValueRef<'_>],
    agg: Option<AggBuffer>,
    r: (Result<Value>, Option<AggBuffer>),
) where
    F: Fn(
        &mut FunctionContext<'_, usize, CObject<D>>,
        &mut sqlite3_context<D>,
        &mut Vec<sqlite3_value>,
    ),

    requires
        call_ensures(call_with_args::<D, F>, (db, p_app, &callback, core, args, agg), r),
    ensures
        exists|
            c: &mut FunctionContext<'_, usize, CObject<D>>,
            x: &mut sqlite3_context<D>,
            v: &mut Vec<sqlite3_value>,
        |
            {
                &&& #[trigger] call_ensures(callback, (c, x, v), ())
                &&& *c == *old(core)
                &&& starts(*x, db, p_app, agg)
                &&& handed(*old(core), args@, v@)
                &&& delivered((*final(x)).outcome(), *final(c), *final(core), r.0)
                &&& r.1 == (*final(x)).spec_agg()
            },
{
}

/// A callback that takes no arguments runs once in the same way.
pub proof fn law_a_callback_without_arguments_runs_once<D, G>(
    db: usize,
    p_app: usize,
    callback: G,
    core: &mut FunctionContext<'_, usize, CObject<D>>,
    agg: Option<AggBuffer>,
    r: (Result<Value>, Option<AggBuffer>),
) where G: Fn(&mut FunctionContext<'_, usize, CObject<D>>, &mut sqlite3_context<D>)
    requires
        call_ensures(call_no_args::<D, G>, (db, p_app, &callback, core, agg), r),
    ensures
        exists|c: &mut FunctionContext<'_, usize, CObject<D>>, x: &mut sqlite3_context<D>|
            {
                &&& #[trigger] call_ensures(callback, (c, x), ())
                &&& *c == *old(core)
                &&& starts(*x, db, p_app, agg)
                &&& delivered((*final(x)).outcome(), *final(c), *final(core), r.0)
                &&& r.1 == (*final(x)).spec_agg()
            },
{
}

/// A registration holds the callbacks, the data and the handle it was made with, each in its place.
pub proof fn law_a_registration_holds_its_callbacks<D, F, G>(
    x_func: Option<F>,
    x_step: Option<F>,
    x_final: Option<G>,
    x_value: Option<G>,
    x_inverse: Option<F>,
    p_app: usize,
    db: usize,
    destroy: Option<D>,
    made: CCallbacks<D, F, G>,
    function: CFunction<D, F, G>,
    window: bool,
) where
    D: Send + Sync + 'static,
    F: Fn(
        &mut FunctionContext<'_, usize, CObject<D>>,
        &mut sqlite3_context<D>,
        &mut Vec<sqlite3_value>,
    ) + Send + Sync + 'static,
    G: Fn(&mut FunctionContext<'_, usize, CObject<D>>, &mut sqlite3_context<D>)
        + Send
        + Sync
        + 'static,

    requires
        call_ensures(
            CCallbacks::<D, F, G>::new,
            (x_func, x_step, x_final, x_value, x_inverse, p_app, db),
            made,
        ),
        call_ensures(CFunction::<D, F, G>::new, (made, destroy), function),
        call_ensures(
            <CFunction<D, F, G> as AggregateFunction<usize, CObject<D>>>::supports_window,
            (&function,),
            window,
        ),
    ensures
        function.spec_callbacks().spec_func() == x_func,
        function.spec_callbacks().spec_step() == x_step,
        function.spec_callbacks().spec_final() == x_final,
        function.spec_callbacks().spec_value() == x_value,
        function.spec_callbacks().spec_inverse() == x_inverse,
        function.spec_callbacks().spec_app() == p_app,
        function.spec_callbacks().spec_db() == db,
        function.spec_destroy() == destroy,
        function.spec_unusable() is None,
        window <==> x_value is Some && x_inverse is Some,
{
}

/// A call of a C function runs its callback on the arguments. Without one it is an error, and so is
/// every call of a function that was only overloaded.
pub proof fn law_a_c_function_calls_its_callback<D, F, G>(
    function: &CFunction<D, F, G>,
    ctx: &mut FunctionContext<'_, usize, CObject<D>>,
    args: &[ValueRef<'_>],
    r: Result<Value>,
) where
    D: Send + Sync + 'static,
    F: Fn(
        &mut FunctionContext<'_, usize, CObject<D>>,
        &mut sqlite3_context<D>,
        &mut Vec<sqlite3_value>,
    ) + Send + Sync + 'static,
    G: Fn(&mut FunctionContext<'_, usize, CObject<D>>, &mut sqlite3_context<D>)
        + Send
        + Sync
        + 'static,

    requires
        call_ensures(
            <CFunction<D, F, G> as ScalarFunction<usize, CObject<D>>>::call,
            (function, ctx, args),
            r,
        ),
    ensures
        function.spec_unusable() matches Some(name) ==> refused(
            r,
            "unable to use function "@ + name + " in the requested context"@,
        ) && final(ctx).result_tag == old(ctx).result_tag,
        function.spec_unusable() is None && function.spec_callbacks().spec_func() is None ==> refused(
            r,
            "user-defined function has no implementation"@,
        ) && *final(ctx) == *old(ctx),
        function.spec_unusable() is None && function.spec_callbacks().spec_func() is Some ==> exists|
            c: &mut FunctionContext<'_, usize, CObject<D>>,
            x: &mut sqlite3_context<D>,
            v: &mut Vec<sqlite3_value>,
        |
            {
                &&& #[trigger] call_ensures(
                    function.spec_callbacks().spec_func()->0,
                    (c, x, v),
                    (),
                )
                &&& *c == *old(ctx)
                &&& starts(
                    *x,
                    function.spec_callbacks().spec_db(),
                    function.spec_callbacks().spec_app(),
                    None,
                )
                &&& handed(*old(ctx), args@, v@)
                &&& delivered((*final(x)).outcome(), *final(c), *final(ctx), r)
            },
{
}

/// A group of a C aggregate starts with no bytes, steps through its callback on the arguments of
/// each row with the accumulator it has, and goes on with what the callback left; a new one where
/// nothing was left. Without a callback a step is an error and changes nothing.
pub proof fn law_a_c_step_calls_its_callback<D, F, G>(
    function: &CFunction<D, F, G>,
    fresh: CAggState<D, F, G>,
    state: &mut CAggState<D, F, G>,
    ctx: &mut FunctionContext<'_, usize, CObject<D>>,
    args: &[ValueRef<'_>],
    r: Result<()>,
) where
    D: Send + Sync + 'static,
    F: Fn(
        &mut FunctionContext<'_, usize, CObject<D>>,
        &mut sqlite3_context<D>,
        &mut Vec<sqlite3_value>,
    ) + Send + Sync + 'static,
    G: Fn(&mut FunctionContext<'_, usize, CObject<D>>, &mut sqlite3_context<D>)
        + Send
        + Sync
        + 'static,

    requires
        call_ensures(CFunction::<D, F, G>::new_state, (function,), fresh),
        call_ensures(
            <CAggState<D, F, G> as AggregateState<usize, CObject<D>>>::step,
            (state, ctx, args),
            r,
        ),
    ensures
        fresh.spec_callbacks() == function.spec_callbacks(),
        fresh.spec_buffer().spec_words() is None,
        fresh.spec_buffer().spec_len() == 0,
        final(state).spec_callbacks() == old(state).spec_callbacks(),
        old(state).spec_callbacks().spec_step() is None ==> refused(
            r,
            "aggregate function has no step implementation"@,
        ) && *final(ctx) == *old(ctx) && *final(state) == *old(state),
        old(state).spec_callbacks().spec_step() is Some ==> exists|
            c: &mut FunctionContext<'_, usize, CObject<D>>,
            x: &mut sqlite3_context<D>,
            v: &mut Vec<sqlite3_value>,
        |
            {
                &&& #[trigger] call_ensures(
                    old(state).spec_callbacks().spec_step()->0,
                    (c, x, v),
                    (),
                )
                &&& *c == *old(ctx)
                &&& starts(
                    *x,
                    old(state).spec_callbacks().spec_db(),
                    old(state).spec_callbacks().spec_app(),
                    Some(old(state).spec_buffer()),
                )
                &&& handed(*old(ctx), args@, v@)
                &&& step_delivered((*final(x)).outcome(), r)
                &&& (*final(x)).spec_agg() matches Some(b) ==> final(state).spec_buffer() == b
                &&& (*final(x)).spec_agg() is None ==> final(state).spec_buffer()
                    == fresh.spec_buffer()
            },
{
}

/// The undoing of a step does the same with the callback that undoes one.
pub proof fn law_a_c_inverse_calls_its_callback<D, F, G>(
    function: &CFunction<D, F, G>,
    fresh: CAggState<D, F, G>,
    state: &mut CAggState<D, F, G>,
    ctx: &mut FunctionContext<'_, usize, CObject<D>>,
    args: &[ValueRef<'_>],
    r: Result<()>,
) where
    D: Send + Sync + 'static,
    F: Fn(
        &mut FunctionContext<'_, usize, CObject<D>>,
        &mut sqlite3_context<D>,
        &mut Vec<sqlite3_value>,
    ) + Send + Sync + 'static,
    G: Fn(&mut FunctionContext<'_, usize, CObject<D>>, &mut sqlite3_context<D>)
        + Send
        + Sync
        + 'static,

    requires
        call_ensures(CFunction::<D, F, G>::new_state, (function,), fresh),
        call_ensures(
            <CAggState<D, F, G> as AggregateState<usize, CObject<D>>>::inverse,
            (state, ctx, args),
            r,
        ),
    ensures
        final(state).spec_callbacks() == old(state).spec_callbacks(),
        old(state).spec_callbacks().spec_inverse() is None ==> refused(
            r,
            "aggregate may not be used as a window function"@,
        ) && *final(ctx) == *old(ctx) && *final(state) == *old(state),
        old(state).spec_callbacks().spec_inverse() is Some ==> exists|
            c: &mut FunctionContext<'_, usize, CObject<D>>,
            x: &mut sqlite3_context<D>,
            v: &mut Vec<sqlite3_value>,
        |
            {
                &&& #[trigger] call_ensures(
                    old(state).spec_callbacks().spec_inverse()->0,
                    (c, x, v),
                    (),
                )
                &&& *c == *old(ctx)
                &&& starts(
                    *x,
                    old(state).spec_callbacks().spec_db(),
                    old(state).spec_callbacks().spec_app(),
                    Some(old(state).spec_buffer()),
                )
                &&& handed(*old(ctx), args@, v@)
                &&& step_delivered((*final(x)).outcome(), r)
                &&& (*final(x)).spec_agg() matches Some(b) ==> final(state).spec_buffer() == b
                &&& (*final(x)).spec_agg() is None ==> final(state).spec_buffer()
                    == fresh.spec_buffer()
            },
{
}

/// The value of a group is what the callback for it leaves, of the accumulator the group has.
pub proof fn law_a_c_value_calls_its_callback<D, F, G>(
    function: &CFunction<D, F, G>,
    fresh: CAggState<D, F, G>,
    state: &mut CAggState<D, F, G>,
    ctx: &mut FunctionContext<'_, usize, CObject<D>>,
    r: Result<Value>,
) where
    D: Send + Sync + 'static,
    F: Fn(
        &mut FunctionContext<'_, usize, CObject<D>>,
        &mut sqlite3_context<D>,
        &mut Vec<sqlite3_value>,
    ) + Send + Sync + 'static,
    G: Fn(&mut FunctionContext<'_, usize, CObject<D>>, &mut sqlite3_context<D>)
        + Send
        + Sync
        + 'static,

    requires
        call_ensures(CFunction::<D, F, G>::new_state, (function,), fresh),
        call_ensures(
            <CAggState<D, F, G> as AggregateState<usize, CObject<D>>>::value,
            (state, ctx),
            r,
        ),
    ensures
        final(state).spec_callbacks() == old(state).spec_callbacks(),
        old(state).spec_callbacks().spec_value() is None ==> refused(
            r,
            "aggregate may not be used as a window function"@,
        ) && *final(ctx) == *old(ctx) && *final(state) == *old(state),
        old(state).spec_callbacks().spec_value() is Some ==> exists|
            c: &mut FunctionContext<'_, usize, CObject<D>>,
            x: &mut sqlite3_context<D>,
        |
            {
                &&& #[trigger] call_ensures(
                    old(state).spec_callbacks().spec_value()->0,
                    (c, x),
                    (),
                )
                &&& *c == *old(ctx)
                &&& starts(
                    *x,
                    old(state).spec_callbacks().spec_db(),
                    old(state).spec_callbacks().spec_app(),
                    Some(old(state).spec_buffer()),
                )
                &&& delivered((*final(x)).outcome(), *final(c), *final(ctx), r)
                &&& (*final(x)).spec_agg() matches Some(b) ==> final(state).spec_buffer() == b
                &&& (*final(x)).spec_agg() is None ==> final(state).spec_buffer()
                    == fresh.spec_buffer()
            },
{
}

/// The result of a group is what the callback that ends it leaves, of the accumulator the group has.
pub proof fn law_a_c_final_calls_its_callback<D, F, G>(
    state: Box<CAggState<D, F, G>>,
    ctx: &mut FunctionContext<'_, usize, CObject<D>>,
    r: Result<Value>,
) where
    D: Send + Sync + 'static,
    F: Fn(
        &mut FunctionContext<'_, usize, CObject<D>>,
        &mut sqlite3_context<D>,
        &mut Vec<sqlite3_value>,
    ) + Send + Sync + 'static,
    G: Fn(&mut FunctionContext<'_, usize, CObject<D>>, &mut sqlite3_context<D>)
        + Send
        + Sync
        + 'static,

    requires
        call_ensures(
            <CAggState<D, F, G> as AggregateState<usize, CObject<D>>>::finalize,
            (state, ctx),
            r,
        ),
    ensures
        state.spec_callbacks().spec_final() is None ==> refused(
            r,
            "aggregate function has no final implementation"@,
        ) && *final(ctx) == *old(ctx),
        state.spec_callbacks().spec_final() is Some ==> exists|
            c: &mut FunctionContext<'_, usize, CObject<D>>,
            x: &mut sqlite3_context<D>,
        |
            {
                &&& #[trigger] call_ensures(state.spec_callbacks().spec_final()->0, (c, x), ())
                &&& *c == *old(ctx)
                &&& starts(
                    *x,
                    state.spec_callbacks().spec_db(),
                    state.spec_callbacks().spec_app(),
                    Some(state.spec_buffer()),
                )
                &&& delivered((*final(x)).outcome(), *final(c), *final(ctx), r)
            },
{
}

/// A callback that runs on a context handed over and handed back runs in the same way.
pub proof fn law_a_callback_runs_on_a_context_handed_over<'b, D, F>(
    db: usize,
    p_app: usize,
    callback: F,
    core: FunctionContext<'b, usize, CObject<D>>,
    args: &[ValueRef<'_>],
    agg: Option<AggBuffer>,
    r: (FunctionContext<'b, usize, CObject<D>>, Result<Value>, Option<AggBuffer>),
) where
    F: Fn(
        &mut FunctionContext<'_, usize, CObject<D>>,
        &mut sqlite3_context<D>,
        &mut Vec<sqlite3_value>,
    ),

    requires
        call_ensures(run_with_args::<D, F>, (db, p_app, &callback, core, args, agg), r),
    ensures
        exists|
            c: &mut FunctionContext<'_, usize, CObject<D>>,
            x: &mut sqlite3_context<D>,
            v: &mut Vec<sqlite3_value>,
        |
            {
                &&& #[trigger] call_ensures(callback, (c, x, v), ())
                &&& *c == core
                &&& starts(*x, db, p_app, agg)
                &&& handed(core, args@, v@)
                &&& delivered((*final(x)).outcome(), *final(c), r.0, r.1)
                &&& r.2 == (*final(x)).spec_agg()
            },
{
}

/// And so does one that takes no arguments.
pub proof fn law_a_callback_ends_on_a_context_handed_over<'b, D, G>(
    db: usize,
    p_app: usize,
    callback: G,
    core: FunctionContext<'b, usize, CObject<D>>,
    agg: Option<AggBuffer>,
    r: (FunctionContext<'b, usize, CObject<D>>, Result<Value>, Option<AggBuffer>),
) where G: Fn(&mut FunctionContext<'_, usize, CObject<D>>, &mut sqlite3_context<D>)
    requires
        call_ensures(run_no_args::<D, G>, (db, p_app, &callback, core, agg), r),
    ensures
        exists|c: &mut FunctionContext<'_, usize, CObject<D>>, x: &mut sqlite3_context<D>|
            {
                &&& #[trigger] call_ensures(callback, (c, x), ())
                &&& *c == core
                &&& starts(*x, db, p_app, agg)
                &&& delivered((*final(x)).outcome(), *final(c), r.0, r.1)
                &&& r.2 == (*final(x)).spec_agg()
            },
{
}

/// A function that was only overloaded has a name and no callbacks, and one that was deleted has
/// nothing but its destructor.
pub proof fn law_functions_without_callbacks<D, F, G>(
    name: String,
    db: usize,
    overloaded: CFunction<D, F, G>,
    p_app: usize,
    destroy: Option<D>,
    deleted: CFunction<D, F, G>,
) where
    D: Send + Sync + 'static,
    F: Fn(
        &mut FunctionContext<'_, usize, CObject<D>>,
        &mut sqlite3_context<D>,
        &mut Vec<sqlite3_value>,
    ) + Send + Sync + 'static,
    G: Fn(&mut FunctionContext<'_, usize, CObject<D>>, &mut sqlite3_context<D>)
        + Send
        + Sync
        + 'static,

    requires
        call_ensures(CFunction::<D, F, G>::placeholder, (name, db), overloaded),
        call_ensures(CFunction::<D, F, G>::destructor_only, (p_app, destroy), deleted),
    ensures
        overloaded.spec_unusable() == Some(name@),
        overloaded.spec_destroy() is None,
        overloaded.spec_callbacks().spec_db() == db,
        overloaded.spec_callbacks().spec_func() is None,
        overloaded.spec_callbacks().spec_step() is None,
        overloaded.spec_callbacks().spec_final() is None,
        deleted.spec_unusable() is None,
        deleted.spec_destroy() == destroy,
        deleted.spec_callbacks().spec_app() == p_app,
        deleted.spec_callbacks().spec_func() is None,
        deleted.spec_callbacks().spec_step() is None,
        deleted.spec_callbacks().spec_final() is None,
{
}

/// A group that is begun goes through the turns of its callbacks, from a buffer without words on.
pub proof fn law_a_c_group_begins_without_bytes<'a, D, F, G>(
    function: &CFunction<D, F, G>,
    ctx: &mut FunctionContext<'_, usize, CObject<D>>,
    made: Result<Box<dyn AggregateState<usize, CObject<D>>>>,
    fresh: AggBuffer,
    turns: Seq<Turn<'a, usize, CObject<D>>>,
) where
    D: Send + Sync + 'static,
    F: Fn(
        &mut FunctionContext<'_, usize, CObject<D>>,
        &mut sqlite3_context<D>,
        &mut Vec<sqlite3_value>,
    ) + Send + Sync + 'static,
    G: Fn(&mut FunctionContext<'_, usize, CObject<D>>, &mut sqlite3_context<D>)
        + Send
        + Sync
        + 'static,

    requires
        call_ensures(
            <CFunction<D, F, G> as AggregateFunction<usize, CObject<D>>>::init,
            (function, ctx),
            made,
        ),
        call_ensures(AggBuffer::new, (), fresh),
        made->Ok_0.may(turns),
    ensures
        made is Ok,
        *final(ctx) == *old(ctx),
        fresh.spec_words() is None,
        crate::turns::traced(
            crate::capi_function::c_rules(function.spec_callbacks()),
            fresh,
            turns,
        ),
{
}

/// A step in those turns runs the callback for it on the arguments with the buffer so far, and the
/// next turn begins with the buffer that was left; without a callback it is an error and the buffer
/// stays. Its undoing does the same with the callback for that.
pub proof fn law_a_c_turn_is_a_callback<'a, D, F, G>(
    callbacks: CCallbacks<D, F, G>,
    a: AggBuffer,
    turn: Turn<'a, usize, CObject<D>>,
    rest: Seq<Turn<'a, usize, CObject<D>>>,
    fresh: AggBuffer,
) where
    D: Send + Sync + 'static,
    F: Fn(
        &mut FunctionContext<'_, usize, CObject<D>>,
        &mut sqlite3_context<D>,
        &mut Vec<sqlite3_value>,
    ) + Send + Sync + 'static,
    G: Fn(&mut FunctionContext<'_, usize, CObject<D>>, &mut sqlite3_context<D>)
        + Send
        + Sync
        + 'static,

    requires
        call_ensures(AggBuffer::new, (), fresh),
        crate::turns::traced(crate::capi_function::c_rules(callbacks), a, seq![turn] + rest),
    ensures
        turn.call matches Call::Step { args, r } ==> match callbacks.spec_step() {
            None => {
                &&& refused(r, "aggregate function has no step implementation"@)
                &&& turn.after == turn.before
                &&& crate::turns::traced(crate::capi_function::c_rules(callbacks), a, rest)
            },
            Some(f) => exists|v: Result<Value>, left: Option<AggBuffer>, b: AggBuffer|
                {
                    &&& #[trigger] call_ensures(
                        run_with_args::<D, F>,
                        (
                            callbacks.spec_db(),
                            callbacks.spec_app(),
                            &f,
                            turn.before,
                            args,
                            Some(a),
                        ),
                        (turn.after, v, left),
                    )
                    &&& (v is Ok <==> r is Ok) && (v is Err ==> r->Err_0 == v->Err_0)
                    &&& left is Some ==> b == left->0
                    &&& left is None ==> b == fresh
                    &&& #[trigger] crate::turns::traced(
                        crate::capi_function::c_rules(callbacks),
                        b,
                        rest,
                    )
                },
        },
        turn.call matches Call::Inverse { args, r } ==> match callbacks.spec_inverse() {
            None => {
                &&& refused(r, "aggregate may not be used as a window function"@)
                &&& turn.after == turn.before
                &&& crate::turns::traced(crate::capi_function::c_rules(callbacks), a, rest)
            },
            Some(f) => exists|v: Result<Value>, left: Option<AggBuffer>, b: AggBuffer|
                {
                    &&& #[trigger] call_ensures(
                        run_with_args::<D, F>,
                        (
                            callbacks.spec_db(),
                            callbacks.spec_app(),
                            &f,
                            turn.before,
                            args,
                            Some(a),
                        ),
                        (turn.after, v, left),
                    )
                    &&& (v is Ok <==> r is Ok) && (v is Err ==> r->Err_0 == v->Err_0)
                    &&& left is Some ==> b == left->0
                    &&& left is None ==> b == fresh
                    &&& #[trigger] crate::turns::traced(
                        crate::capi_function::c_rules(callbacks),
                        b,
                        rest,
                    )
                },
        },
{
    crate::turns::law_turns_follow_their_rules(
        crate::capi_function::c_rules(callbacks),
        a,
        turn,
        rest,
    );
}

/// The value of a group in those turns, and its end, run their callbacks in the same way.
pub proof fn law_a_c_answer_is_a_callback<'a, D, F, G>(
    callbacks: CCallbacks<D, F, G>,
    a: AggBuffer,
    turn: Turn<'a, usize, CObject<D>>,
    rest: Seq<Turn<'a, usize, CObject<D>>>,
    fresh: AggBuffer,
) where
    D: Send + Sync + 'static,
    F: Fn(
        &mut FunctionContext<'_, usize, CObject<D>>,
        &mut sqlite3_context<D>,
        &mut Vec<sqlite3_value>,
    ) + Send + Sync + 'static,
    G: Fn(&mut FunctionContext<'_, usize, CObject<D>>, &mut sqlite3_context<D>)
        + Send
        + Sync
        + 'static,

    requires
        call_ensures(AggBuffer::new, (), fresh),
        crate::turns::traced(crate::capi_function::c_rules(callbacks), a, seq![turn] + rest),
    ensures
        turn.call matches Call::Value { r } ==> match callbacks.spec_value() {
            None => {
                &&& refused(r, "aggregate may not be used as a window function"@)
                &&& turn.after == turn.before
                &&& crate::turns::traced(crate::capi_function::c_rules(callbacks), a, rest)
            },
            Some(g) => exists|left: Option<AggBuffer>, b: AggBuffer|
                {
                    &&& #[trigger] call_ensures(
                        run_no_args::<D, G>,
                        (callbacks.spec_db(), callbacks.spec_app(), &g, turn.before, Some(a)),
                        (turn.after, r, left),
                    )
                    &&& left is Some ==> b == left->0
                    &&& left is None ==> b == fresh
                    &&& #[trigger] crate::turns::traced(
                        crate::capi_function::c_rules(callbacks),
                        b,
                        rest,
                    )
                },
        },
        turn.call matches Call::Finalize { r } ==> rest.len() == 0 && match callbacks.spec_final() {
            None => {
                &&& refused(r, "aggregate function has no final implementation"@)
                &&& turn.after == turn.before
            },
            Some(g) => exists|left: Option<AggBuffer>| #[trigger]
                call_ensures(
                    run_no_args::<D, G>,
                    (callbacks.spec_db(), callbacks.spec_app(), &g, turn.before, Some(a)),
                    (turn.after, r, left),
                ),
        },
{
    crate::turns::law_turns_follow_their_rules(
        crate::capi_function::c_rules(callbacks),
        a,
        turn,
        rest,
    );
}

}
