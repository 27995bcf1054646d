//! What registering through a database handle answers and leaves behind, said of single names and
//! argument counts.

use vstd::prelude::*;

use crate::capi_context::{sqlite3_context, CObject};
use crate::capi_function::CFunction;
use crate::capi_handle::{
    create_function, drop_all_functions, function_name, function_name16, holds_nul,
    sqlite3_create_function, sqlite3_create_function16, sqlite3_create_function_v2,
    sqlite3_create_window_function, sqlite3_overload_function, FunctionHandle, FunctionKey,
};
use crate::capi_value::sqlite3_value;
use crate::context::FunctionContext;
use crate::flags::FunctionFlags;
use crate::function::FunctionImpl;
use crate::registry::Connection;
use crate::utf16::decode_units_strict;

verus! {

/// What a registration brings besides its name.
pub struct Registration<D, F, G> {
    pub db: usize,
    pub n_args: i32,
    pub enc: i32,
    pub p_app: usize,
    pub x_func: Option<F>,
    pub x_step: Option<F>,
    pub x_final: Option<G>,
    pub x_value: Option<G>,
    pub x_inverse: Option<F>,
    pub x_destroy: Option<D>,
}

impl<D, F, G> Registration<D, F, G> {
    /// Whether the callbacks go together: a function or an aggregate, a step with its end, and a
    /// value with its undoing.
    pub open spec fn goes_together(self) -> bool {
        &&& self.x_func is None || self.x_final is None
        &&& self.x_step is Some <==> self.x_final is Some
        &&& self.x_value is Some <==> self.x_inverse is Some
    }
}

/// Whether a function has the callbacks, the data and the destructor of a registration.
pub open spec fn brought<D, F, G>(f: CFunction<D, F, G>, reg: Registration<D, F, G>) -> bool where
    D: Send + Sync + 'static,
    F: Fn(
        &mut FunctionContext<'_, usize, CObject<D>>,
        &mut sqlite3_context<D>,
        &mut Vec<sqlite3_value>,
    ) + Send + Sync + 'static,
    G: Fn(&mut FunctionContext<'_, usize, CObject<D>>, &mut sqlite3_context<D>)
        + Send
        + Sync
        + 'static,
 {
    &&& f.spec_callbacks().spec_func() == reg.x_func
    &&& f.spec_callbacks().spec_step() == reg.x_step
    &&& f.spec_callbacks().spec_final() == reg.x_final
    &&& f.spec_callbacks().spec_value() == reg.x_value
    &&& f.spec_callbacks().spec_inverse() == reg.x_inverse
    &&& f.spec_callbacks().spec_app() == reg.p_app
    &&& f.spec_callbacks().spec_db() == reg.db
    &&& f.spec_destroy() == reg.x_destroy
    &&& f.spec_unusable() is None
}

/// Whether a handle has the same for a name and an argument count.
pub open spec fn untouched<D, F, G>(
    before: FunctionHandle<D, F, G>,
    after: FunctionHandle<D, F, G>,
    key: FunctionKey,
) -> bool where
    D: Send + Sync + 'static,
    F: Fn(
        &mut FunctionContext<'_, usize, CObject<D>>,
        &mut sqlite3_context<D>,
        &mut Vec<sqlite3_value>,
    ) + Send + Sync + 'static,
    G: Fn(&mut FunctionContext<'_, usize, CObject<D>>, &mut sqlite3_context<D>)
        + Send
        + Sync
        + 'static,
 {
    &&& crate::registration_laws::same_at(before.spec_functions(), after.spec_functions(), key)
    &&& before.known().contains(key) <==> after.known().contains(key)
    &&& before.tombstones().contains_key(key) <==> after.tombstones().contains_key(key)
    &&& before.tombstones().contains_key(key) ==> after.tombstones()[key]
        == before.tombstones()[key]
}

/// Whether a handle answers a registration rightly. Callbacks that do not go together and names or
/// counts that do not fit are misuse, 21. A function that is known while statements run is busy, 5.
/// Without callbacks what was there is deleted, and its destructor kept for later. Otherwise the
/// function is registered.
pub open spec fn handled<D, F, G>(
    before: FunctionHandle<D, F, G>,
    after: FunctionHandle<D, F, G>,
    r: i32,
    name: Option<Seq<char>>,
    reg: Registration<D, F, G>,
    flags: FunctionFlags,
    running: bool,
    other: FunctionKey,
) -> bool where
    D: Send + Sync + 'static,
    F: Fn(
        &mut FunctionContext<'_, usize, CObject<D>>,
        &mut sqlite3_context<D>,
        &mut Vec<sqlite3_value>,
    ) + Send + Sync + 'static,
    G: Fn(&mut FunctionContext<'_, usize, CObject<D>>, &mut sqlite3_context<D>)
        + Send
        + Sync
        + 'static,
 {
    let key = (crate::registry::lowercase(name->0), reg.n_args);
    let known = before.known().contains(key);
    if name is None || !reg.goes_together() || !crate::registration_laws::fits(
        name->0,
        reg.n_args,
    ) {
        r == 21 && after == before
    } else if known && running {
        &&& r == 5
        &&& untouched(before, after, other)
        &&& after.spec_generation() == before.spec_generation()
        &&& after.spec_error() == Some(
            (5i32, "unable to delete/modify user-function due to active statements"@),
        )
    } else if reg.x_func is None && reg.x_final is None {
        if !known && !before.tombstones().contains_key(key) {
            r == 0 && after == before
        } else {
            &&& r == 0
            &&& other != key ==> untouched(before, after, other)
            &&& !after.spec_functions().contains_key(key)
            &&& !after.known().contains(key)
            &&& reg.x_destroy is None ==> !after.tombstones().contains_key(key)
            &&& reg.x_destroy is Some ==> {
                &&& after.tombstones().contains_key(key)
                &&& after.tombstones()[key].spec_destroy() == reg.x_destroy
                &&& after.tombstones()[key].spec_callbacks().spec_app() == reg.p_app
                &&& after.tombstones()[key].spec_callbacks().spec_func() is None
                &&& after.tombstones()[key].spec_callbacks().spec_final() is None
            }
            &&& before.spec_functions().contains_key(key) ==> crate::registration_laws::follows(
                before.spec_generation(),
                after.spec_generation(),
            )
            &&& !before.spec_functions().contains_key(key) ==> after.spec_generation()
                == before.spec_generation()
            &&& after.spec_error() == before.spec_error()
        }
    } else if !crate::registration_laws::fits(key.0, reg.n_args) {
        &&& r == 21
        &&& other != key ==> untouched(before, after, other)
        &&& crate::registration_laws::same_at(before.spec_functions(), after.spec_functions(), key)
        &&& after.spec_generation() == before.spec_generation()
        &&& after.known().contains(key) <==> known
        &&& !after.tombstones().contains_key(key)
        &&& after.spec_error() == before.spec_error()
    } else {
        let func = after.spec_functions()[key];
        &&& r == 0
        &&& other != key ==> untouched(before, after, other)
        &&& after.spec_functions().contains_key(key)
        &&& func.spec_name() == key.0
        &&& func.spec_argc() == reg.n_args
        &&& func.spec_flags() == flags
        &&& reg.x_func is Some ==> (func.spec_imp() matches FunctionImpl::Scalar(f) && brought(
            *f,
            reg,
        ))
        &&& reg.x_func is None ==> (func.spec_imp() matches FunctionImpl::Aggregate(f) && brought(
            *f,
            reg,
        ))
        &&& after.known().contains(key)
        &&& !after.tombstones().contains_key(key)
        &&& crate::registration_laws::follows(before.spec_generation(), after.spec_generation())
        &&& after.spec_error() == before.spec_error()
    }
}

proof fn lemma_handled<D, F, G>(
    before: FunctionHandle<D, F, G>,
    after: FunctionHandle<D, F, G>,
    r: i32,
    name: Option<Seq<char>>,
    reg: Registration<D, F, G>,
    running: bool,
    other: FunctionKey,
) where
    D: Send + Sync + 'static,
    F: Fn(
        &mut FunctionContext<'_, usize, CObject<D>>,
        &mut sqlite3_context<D>,
        &mut Vec<sqlite3_value>,
    ) + Send + Sync + 'static,
    G: Fn(&mut FunctionContext<'_, usize, CObject<D>>, &mut sqlite3_context<D>)
        + Send
        + Sync
        + 'static,

    requires
        crate::capi_handle::answered(
            before,
            after,
            r,
            reg.db,
            name,
            reg.n_args,
            reg.enc,
            reg.p_app,
            reg.x_func,
            reg.x_step,
            reg.x_final,
            reg.x_value,
            reg.x_inverse,
            reg.x_destroy,
            running,
        ),
    ensures
        handled(
            before,
            after,
            r,
            name,
            reg,
            FunctionFlags::of_bits(reg.enc as u32),
            running,
            other,
        ),
{
    let key = (crate::registry::lowercase(name->0), reg.n_args);
    if other != key {
        assert(after.tombstones().remove(key).contains_key(other) == after.tombstones().contains_key(
            other,
        ));
        assert(before.tombstones().remove(key).contains_key(other)
            == before.tombstones().contains_key(other));
        if before.tombstones().contains_key(other) {
            assert(after.tombstones().remove(key)[other] == after.tombstones()[other]);
            assert(before.tombstones().remove(key)[other] == before.tombstones()[other]);
        }
    }
}

/// A registration by name is answered rightly, and without a handle it is misuse.
pub proof fn law_a_handle_registers<D, F, G>(
    h: &mut FunctionHandle<D, F, G>,
    name: Option<String>,
    reg: Registration<D, F, G>,
    flags: FunctionFlags,
    running: bool,
    r: i32,
    missing: i32,
    other: FunctionKey,
) where
    D: Send + Sync + 'static,
    F: Fn(
        &mut FunctionContext<'_, usize, CObject<D>>,
        &mut sqlite3_context<D>,
        &mut Vec<sqlite3_value>,
    ) + Send + Sync + 'static,
    G: Fn(&mut FunctionContext<'_, usize, CObject<D>>, &mut sqlite3_context<D>)
        + Send
        + Sync
        + 'static,

    requires
        call_ensures(FunctionFlags::from_bits_truncate, (reg.enc as u32,), flags),
        call_ensures(
            create_function::<D, F, G>,
            (
                Some(h),
                reg.db,
                name,
                reg.n_args,
                reg.enc,
                reg.p_app,
                reg.x_func,
                reg.x_step,
                reg.x_final,
                reg.x_value,
                reg.x_inverse,
                reg.x_destroy,
                running,
            ),
            r,
        ),
        call_ensures(
            create_function::<D, F, G>,
            (
                None,
                reg.db,
                name,
                reg.n_args,
                reg.enc,
                reg.p_app,
                reg.x_func,
                reg.x_step,
                reg.x_final,
                reg.x_value,
                reg.x_inverse,
                reg.x_destroy,
                running,
            ),
            missing,
        ),
    ensures
        missing == 21,
        handled(
            *old(h),
            *final(h),
            r,
            if name is Some {
                Some(name->0@)
            } else {
                None
            },
            reg,
            flags,
            running,
            other,
        ),
{
    lemma_handled(
        *old(h),
        *final(h),
        r,
        if name is Some {
            Some(name->0@)
        } else {
            None
        },
        reg,
        running,
        other,
    );
}

/// A registration with a name in UTF-8 brings neither a window nor a destructor.
pub proof fn law_a_plain_registration<D, F, G>(
    h: &mut FunctionHandle<D, F, G>,
    name: Option<&[u8]>,
    read: Option<String>,
    reg: Registration<D, F, G>,
    flags: FunctionFlags,
    running: bool,
    r: i32,
    missing: i32,
    other: FunctionKey,
) where
    D: Send + Sync + 'static,
    F: Fn(
        &mut FunctionContext<'_, usize, CObject<D>>,
        &mut sqlite3_context<D>,
        &mut Vec<sqlite3_value>,
    ) + Send + Sync + 'static,
    G: Fn(&mut FunctionContext<'_, usize, CObject<D>>, &mut sqlite3_context<D>)
        + Send
        + Sync
        + 'static,

    requires
        reg.x_value is None,
        reg.x_inverse is None,
        reg.x_destroy is None,
        call_ensures(function_name, (name,), read),
        call_ensures(FunctionFlags::from_bits_truncate, (reg.enc as u32,), flags),
        call_ensures(
            sqlite3_create_function::<D, F, G>,
            (
                Some(h),
                reg.db,
                name,
                reg.n_args,
                reg.enc,
                reg.p_app,
                reg.x_func,
                reg.x_step,
                reg.x_final,
                running,
            ),
            r,
        ),
        call_ensures(
            sqlite3_create_function::<D, F, G>,
            (
                None,
                reg.db,
                name,
                reg.n_args,
                reg.enc,
                reg.p_app,
                reg.x_func,
                reg.x_step,
                reg.x_final,
                running,
            ),
            missing,
        ),
    ensures
        missing == 21,
        handled(
            *old(h),
            *final(h),
            r,
            if read is Some {
                Some(read->0@)
            } else {
                None
            },
            reg,
            flags,
            running,
            other,
        ),
{
    lemma_handled(
        *old(h),
        *final(h),
        r,
        if read is Some {
            Some(read->0@)
        } else {
            None
        },
        reg,
        running,
        other,
    );
}

/// A registration with a destructor brings no window.
pub proof fn law_a_registration_with_a_destructor<D, F, G>(
    h: &mut FunctionHandle<D, F, G>,
    name: Option<&[u8]>,
    read: Option<String>,
    reg: Registration<D, F, G>,
    flags: FunctionFlags,
    running: bool,
    r: i32,
    missing: i32,
    other: FunctionKey,
) where
    D: Send + Sync + 'static,
    F: Fn(
        &mut FunctionContext<'_, usize, CObject<D>>,
        &mut sqlite3_context<D>,
        &mut Vec<sqlite3_value>,
    ) + Send + Sync + 'static,
    G: Fn(&mut FunctionContext<'_, usize, CObject<D>>, &mut sqlite3_context<D>)
        + Send
        + Sync
        + 'static,

    requires
        reg.x_value is None,
        reg.x_inverse is None,
        call_ensures(function_name, (name,), read),
        call_ensures(FunctionFlags::from_bits_truncate, (reg.enc as u32,), flags),
        call_ensures(
            sqlite3_create_function_v2::<D, F, G>,
            (
                Some(h),
                reg.db,
                name,
                reg.n_args,
                reg.enc,
                reg.p_app,
                reg.x_func,
                reg.x_step,
                reg.x_final,
                reg.x_destroy,
                running,
            ),
            r,
        ),
        call_ensures(
            sqlite3_create_function_v2::<D, F, G>,
            (
                None,
                reg.db,
                name,
                reg.n_args,
                reg.enc,
                reg.p_app,
                reg.x_func,
                reg.x_step,
                reg.x_final,
                reg.x_destroy,
                running,
            ),
            missing,
        ),
    ensures
        missing == 21,
        handled(
            *old(h),
            *final(h),
            r,
            if read is Some {
                Some(read->0@)
            } else {
                None
            },
            reg,
            flags,
            running,
            other,
        ),
{
    lemma_handled(
        *old(h),
        *final(h),
        r,
        if read is Some {
            Some(read->0@)
        } else {
            None
        },
        reg,
        running,
        other,
    );
}

/// A registration with a name in UTF-16 brings neither a window nor a destructor.
pub proof fn law_a_registration_under_utf16<D, F, G>(
    h: &mut FunctionHandle<D, F, G>,
    name: Option<&[u16]>,
    read: Option<String>,
    reg: Registration<D, F, G>,
    flags: FunctionFlags,
    running: bool,
    r: i32,
    missing: i32,
    other: FunctionKey,
) where
    D: Send + Sync + 'static,
    F: Fn(
        &mut FunctionContext<'_, usize, CObject<D>>,
        &mut sqlite3_context<D>,
        &mut Vec<sqlite3_value>,
    ) + Send + Sync + 'static,
    G: Fn(&mut FunctionContext<'_, usize, CObject<D>>, &mut sqlite3_context<D>)
        + Send
        + Sync
        + 'static,

    requires
        reg.x_value is None,
        reg.x_inverse is None,
        reg.x_destroy is None,
        call_ensures(function_name16, (name,), read),
        call_ensures(FunctionFlags::from_bits_truncate, (reg.enc as u32,), flags),
        call_ensures(
            sqlite3_create_function16::<D, F, G>,
            (
                Some(h),
                reg.db,
                name,
                reg.n_args,
                reg.enc,
                reg.p_app,
                reg.x_func,
                reg.x_step,
                reg.x_final,
                running,
            ),
            r,
        ),
        call_ensures(
            sqlite3_create_function16::<D, F, G>,
            (
                None,
                reg.db,
                name,
                reg.n_args,
                reg.enc,
                reg.p_app,
                reg.x_func,
                reg.x_step,
                reg.x_final,
                running,
            ),
            missing,
        ),
    ensures
        missing == 21,
        handled(
            *old(h),
            *final(h),
            r,
            if read is Some {
                Some(read->0@)
            } else {
                None
            },
            reg,
            flags,
            running,
            other,
        ),
{
    lemma_handled(
        *old(h),
        *final(h),
        r,
        if read is Some {
            Some(read->0@)
        } else {
            None
        },
        reg,
        running,
        other,
    );
}

/// A registration of a window function brings no function of its own.
pub proof fn law_a_window_registration<D, F, G>(
    h: &mut FunctionHandle<D, F, G>,
    name: Option<&[u8]>,
    read: Option<String>,
    reg: Registration<D, F, G>,
    flags: FunctionFlags,
    running: bool,
    r: i32,
    missing: i32,
    other: FunctionKey,
) where
    D: Send + Sync + 'static,
    F: Fn(
        &mut FunctionContext<'_, usize, CObject<D>>,
        &mut sqlite3_context<D>,
        &mut Vec<sqlite3_value>,
    ) + Send + Sync + 'static,
    G: Fn(&mut FunctionContext<'_, usize, CObject<D>>, &mut sqlite3_context<D>)
        + Send
        + Sync
        + 'static,

    requires
        reg.x_func is None,
        call_ensures(function_name, (name,), read),
        call_ensures(FunctionFlags::from_bits_truncate, (reg.enc as u32,), flags),
        call_ensures(
            sqlite3_create_window_function::<D, F, G>,
            (
                Some(h),
                reg.db,
                name,
                reg.n_args,
                reg.enc,
                reg.p_app,
                reg.x_step,
                reg.x_final,
                reg.x_value,
                reg.x_inverse,
                reg.x_destroy,
                running,
            ),
            r,
        ),
        call_ensures(
            sqlite3_create_window_function::<D, F, G>,
            (
                None,
                reg.db,
                name,
                reg.n_args,
                reg.enc,
                reg.p_app,
                reg.x_step,
                reg.x_final,
                reg.x_value,
                reg.x_inverse,
                reg.x_destroy,
                running,
            ),
            missing,
        ),
    ensures
        missing == 21,
        handled(
            *old(h),
            *final(h),
            r,
            if read is Some {
                Some(read->0@)
            } else {
                None
            },
            reg,
            flags,
            running,
            other,
        ),
{
    lemma_handled(
        *old(h),
        *final(h),
        r,
        if read is Some {
            Some(read->0@)
        } else {
            None
        },
        reg,
        running,
        other,
    );
}

/// A name is the text its bytes are the UTF-8 of, and none where they are not; in UTF-16 it is what
/// its units read as, and none where they are no text.
pub proof fn law_a_name_is_the_text_it_is(
    name: &[u8],
    read: Option<String>,
    wide: &[u16],
    read_wide: Option<String>,
    strict: Option<String>,
    none: Option<String>,
    text: &str,
    nul: bool,
)
    requires
        call_ensures(function_name, (Some(name),), read),
        call_ensures(function_name16, (Some(wide),), read_wide),
        call_ensures(decode_units_strict, (wide,), strict),
        call_ensures(function_name, (None,), none),
        call_ensures(holds_nul, (text,), nul),
    ensures
        none is None,
        read is Some <==> vstd::utf8::valid_utf8(name@),
        read matches Some(t) ==> vstd::utf8::encode_utf8(t@) == name@,
        read_wide is Some <==> strict is Some,
        read_wide is Some ==> read_wide->0@ == strict->0@,
        nul <==> exists|i: int|
            0 <= i < vstd::utf8::encode_utf8(text@).len() && #[trigger] vstd::utf8::encode_utf8(
                text@,
            )[i] == 0,
{
    broadcast use vstd::utf8::decode_utf8_encode_utf8;

    if nul {
        let bytes = vstd::utf8::encode_utf8(text@);
        let i = choose|i: int| 0 <= i < bytes.len() && bytes[i] == 0u8;
        assert(vstd::utf8::encode_utf8(text@)[i] == 0);
    }
}

/// A new handle has the functions of its connection, knows none of them as its own and has nothing
/// to take down.
pub proof fn law_a_new_handle_knows_nothing<D, F, G>(
    conn: Connection<CFunction<D, F, G>, CFunction<D, F, G>>,
    h: FunctionHandle<D, F, G>,
    name: &str,
    argc: i32,
    knows: bool,
    key: FunctionKey,
    error: Option<(i32, String)>,
) where
    D: Send + Sync + 'static,
    F: Fn(
        &mut FunctionContext<'_, usize, CObject<D>>,
        &mut sqlite3_context<D>,
        &mut Vec<sqlite3_value>,
    ) + Send + Sync + 'static,
    G: Fn(&mut FunctionContext<'_, usize, CObject<D>>, &mut sqlite3_context<D>)
        + Send
        + Sync
        + 'static,

    requires
        call_ensures(FunctionHandle::<D, F, G>::new, (conn,), h),
        call_ensures(FunctionHandle::<D, F, G>::knows_function, (&h, name, argc), knows),
        call_ensures(FunctionHandle::<D, F, G>::last_error, (&h,), error),
    ensures
        !knows,
        error is None,
        crate::registration_laws::same_at(conn.spec_functions(), h.spec_functions(), key),
        h.spec_generation() == conn.spec_generation(),
        !h.known().contains(key),
        !h.tombstones().contains_key(key),
{
}

/// What a handle says of itself is what it is.
pub proof fn law_a_handle_reads_as_it_is<D, F, G>(
    h: &FunctionHandle<D, F, G>,
    conn: &Connection<CFunction<D, F, G>, CFunction<D, F, G>>,
    name: &str,
    argc: i32,
    knows: bool,
    error: Option<(i32, String)>,
) where
    D: Send + Sync + 'static,
    F: Fn(
        &mut FunctionContext<'_, usize, CObject<D>>,
        &mut sqlite3_context<D>,
        &mut Vec<sqlite3_value>,
    ) + Send + Sync + 'static,
    G: Fn(&mut FunctionContext<'_, usize, CObject<D>>, &mut sqlite3_context<D>)
        + Send
        + Sync
        + 'static,

    requires
        call_ensures(FunctionHandle::<D, F, G>::connection, (h,), conn),
        call_ensures(FunctionHandle::<D, F, G>::knows_function, (h, name, argc), knows),
        call_ensures(FunctionHandle::<D, F, G>::last_error, (h,), error),
    ensures
        conn.spec_functions() == h.spec_functions(),
        conn.spec_generation() == h.spec_generation(),
        knows <==> h.known().contains((crate::registry::lowercase(name@), argc)),
        error is Some <==> h.spec_error() is Some,
        error matches Some(e) ==> (h.spec_error() matches Some(f) && e.0 == f.0 && e.1@ == f.1),
{
}

/// Overloading a name makes a function of it that cannot be used, unless the handle or the engine has
/// one already. Fewer than -2 arguments, no name and a name with a NUL in it are misuse, and so are
/// names and counts that do not fit.
pub proof fn law_an_overloaded_name_cannot_be_used<D, F, G>(
    h: &mut FunctionHandle<D, F, G>,
    db: usize,
    name: Option<&[u8]>,
    read: Option<String>,
    n_args: i32,
    builtin: bool,
    flags: FunctionFlags,
    r: i32,
    missing: i32,
    other: FunctionKey,
) where
    D: Send + Sync + 'static,
    F: Fn(
        &mut FunctionContext<'_, usize, CObject<D>>,
        &mut sqlite3_context<D>,
        &mut Vec<sqlite3_value>,
    ) + Send + Sync + 'static,
    G: Fn(&mut FunctionContext<'_, usize, CObject<D>>, &mut sqlite3_context<D>)
        + Send
        + Sync
        + 'static,

    requires
        call_ensures(function_name, (name,), read),
        call_ensures(FunctionFlags::from_bits_truncate, (1u32,), flags),
        call_ensures(
            sqlite3_overload_function::<D, F, G>,
            (Some(h), db, name, n_args, builtin),
            r,
        ),
        call_ensures(sqlite3_overload_function::<D, F, G>, (None, db, name, n_args, builtin), missing),
    ensures
        missing == 21,
        n_args < -2 || read is None ==> r == 21 && *final(h) == *old(h),
        n_args >= -2 && read is Some ==> {
            let text = read->0@;
            let key = (crate::registry::lowercase(text), n_args);
            let there = old(h).known().contains(key) || (n_args >= 0 && builtin);
            let fit = !vstd::utf8::encode_utf8(text).contains(0u8) && crate::registration_laws::fits(
                text,
                n_args,
            );
            &&& there ==> r == 0 && *final(h) == *old(h)
            &&& !there && !fit ==> r == 21 && *final(h) == *old(h)
            &&& !there && fit && !crate::registration_laws::fits(key.0, n_args) ==> {
                &&& r == 21
                &&& crate::registration_laws::same_at(
                    old(h).spec_functions(),
                    final(h).spec_functions(),
                    other,
                )
                &&& final(h).spec_generation() == old(h).spec_generation()
                &&& final(h).known().contains(other) <==> old(h).known().contains(other)
                &&& other != key ==> untouched(*old(h), *final(h), other)
                &&& !final(h).tombstones().contains_key(key)
                &&& final(h).spec_error() == old(h).spec_error()
            }
            &&& !there && fit && crate::registration_laws::fits(key.0, n_args) ==> {
                &&& r == 0
                &&& final(h).spec_functions().contains_key(key)
                &&& final(h).known().contains(key)
                &&& !final(h).tombstones().contains_key(key)
                &&& final(h).spec_functions()[key].spec_imp() matches FunctionImpl::Scalar(f)
                    && f.spec_unusable() == Some(text)
                &&& final(h).spec_functions()[key].spec_name() == key.0
                &&& final(h).spec_functions()[key].spec_argc() == n_args
                &&& final(h).spec_functions()[key].spec_flags() == flags
                &&& other != key ==> untouched(*old(h), *final(h), other)
                &&& crate::registration_laws::follows(
                    old(h).spec_generation(),
                    final(h).spec_generation(),
                )
                &&& final(h).spec_error() == old(h).spec_error()
            }
        },
{
}

proof fn lemma_advanced(generation: u64, changes: nat)
    ensures
        (crate::registry::advanced(generation, changes) as int - generation as int - changes)
            % 0x1_0000_0000_0000_0000 == 0,
    decreases changes,
{
    if changes > 0 {
        lemma_advanced(generation, (changes - 1) as nat);
    }
}

/// Dropping everything a handle registered takes those functions off its connection and no others,
/// moves the generation on by as many, and leaves nothing to take down.
pub proof fn law_dropping_all_functions_takes_only_its_own<D, F, G>(
    h: &mut FunctionHandle<D, F, G>,
    key: FunctionKey,
) where
    D: Send + Sync + 'static,
    F: Fn(
        &mut FunctionContext<'_, usize, CObject<D>>,
        &mut sqlite3_context<D>,
        &mut Vec<sqlite3_value>,
    ) + Send + Sync + 'static,
    G: Fn(&mut FunctionContext<'_, usize, CObject<D>>, &mut sqlite3_context<D>)
        + Send
        + Sync
        + 'static,

    requires
        call_ensures(drop_all_functions::<D, F, G>, (h,), ()),
    ensures
        !final(h).known().contains(key),
        !final(h).tombstones().contains_key(key),
        old(h).known().contains(key) ==> !final(h).spec_functions().contains_key(key),
        !old(h).known().contains(key) ==> crate::registration_laws::same_at(
            old(h).spec_functions(),
            final(h).spec_functions(),
            key,
        ),
        (final(h).spec_generation() as int - old(h).spec_generation() as int - old(h).known().len()) % 0x1_0000_0000_0000_0000 == 0,
        final(h).spec_error() == old(h).spec_error(),
{
    lemma_advanced(old(h).spec_generation(), old(h).known().len());
}

}
