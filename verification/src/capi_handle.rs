//! A database handle of the C API: what was registered through it, and what it takes down with it.

use vstd::prelude::*;

use std::sync::Arc;

use crate::capi_context::{sqlite3_context, CObject, SQLITE_BUSY, SQLITE_MISUSE, SQLITE_OK};
use crate::capi_function::{CCallbacks, CFunction};
use crate::capi_value::{sqlite3_value, SQLITE_UTF8};
use crate::context::{FunctionContext, SQLITE_ERROR};
use crate::error::LimboError;
use crate::flags::FunctionFlags;
use crate::function::{FunctionImpl, ScalarFunction};
use crate::registry::{
    normalize_ident, validate_registration, Connection, MAX_FUNCTION_ARG, MAX_FUNCTION_NAME_LEN,
};
use crate::table::NamedTable;
use crate::utf16::{decode_units_strict, from_utf8};
use crate::value::{Value, ValueRef};

verus! {

/// The functions registered through one handle.
#[verifier::reject_recursive_types(D)]
#[verifier::reject_recursive_types(F)]
#[verifier::reject_recursive_types(G)]
pub struct FunctionHandle<D, F, G> where
    D: Send + Sync + 'static,
    F: Fn(
        &mut FunctionContext<'_, usize, CObject<D>>,
        &mut sqlite3_context<D>,
        &mut Vec<sqlite3_value>,
    ) + Send + Sync + 'static,
    G: Fn(&mut FunctionContext<'_, usize, CObject<D>>, &mut sqlite3_context<D>)
        + Send
        + Sync
        + 'static,
 {
    conn: Connection<CFunction<D, F, G>, CFunction<D, F, G>>,
    /// The name each was registered by, filed under the name the connection knows it by.
    functions: NamedTable<String>,
    /// What deletions left behind.
    deleted_functions: NamedTable<CFunction<D, F, G>>,
    /// The code and the message of the last failure that left one.
    error: Option<(i32, String)>,
}

/// A registration's name as the connection knows it, and its argument count.
pub type FunctionKey = (Seq<char>, i32);

impl<D, F, G> FunctionHandle<D, F, G> where
    D: Send + Sync + 'static,
    F: Fn(
        &mut FunctionContext<'_, usize, CObject<D>>,
        &mut sqlite3_context<D>,
        &mut Vec<sqlite3_value>,
    ) + Send + Sync + 'static,
    G: Fn(&mut FunctionContext<'_, usize, CObject<D>>, &mut sqlite3_context<D>)
        + Send
        + Sync
        + 'static,
 {
    /// What the connection can call.
    pub closed spec fn spec_functions(&self) -> crate::registry::FunctionMap<
        CFunction<D, F, G>,
        CFunction<D, F, G>,
    > {
        self.conn.spec_functions()
    }

    /// Which generation statements of the connection are compiled under.
    pub closed spec fn spec_generation(&self) -> u64 {
        self.conn.spec_generation()
    }

    /// What was registered through this handle and not deleted since.
    pub closed spec fn known(&self) -> Set<FunctionKey> {
        self.functions@.dom()
    }

    /// The destructors deletions left behind, by what they deleted.
    pub closed spec fn tombstones(&self) -> Map<FunctionKey, CFunction<D, F, G>> {
        self.deleted_functions@
    }

    pub closed spec fn spec_error(&self) -> Option<(i32, Seq<char>)> {
        match self.error {
            Some((code, message)) => Some((code, message@)),
            None => None,
        }
    }

    /// Everything known is registered on the connection under the name it was given, and nothing
    /// known is deleted.
    pub closed spec fn wf(&self) -> bool {
        forall|key: FunctionKey| #[trigger]
            self.functions@.contains_key(key) ==> {
                &&& self.conn.spec_functions().contains_key(key)
                &&& crate::registry::lowercase(self.functions@[key]@) == key.0
                &&& crate::registry::registration_error(self.functions@[key]@, key.1) is None
                &&& !self.deleted_functions@.contains_key(key)
            }
    }

    /// A handle on a connection, through which nothing was registered yet.
    pub fn new(conn: Connection<CFunction<D, F, G>, CFunction<D, F, G>>) -> (r: Self)
        ensures
            r.spec_functions() == conn.spec_functions(),
            r.spec_generation() == conn.spec_generation(),
            r.known() == Set::<FunctionKey>::empty(),
            r.tombstones() == Map::<FunctionKey, CFunction<D, F, G>>::empty(),
            r.spec_error() is None,
            r.wf(),
    {
        let r = FunctionHandle {
            conn,
            functions: NamedTable::new(),
            deleted_functions: NamedTable::new(),
            error: None,
        };
        assert(r.known() =~= Set::<FunctionKey>::empty());
        r
    }

    /// The connection behind the handle.
    pub fn connection(&self) -> (r: &Connection<CFunction<D, F, G>, CFunction<D, F, G>>)
        ensures
            r.spec_functions() == self.spec_functions(),
            r.spec_generation() == self.spec_generation(),
    {
        &self.conn
    }

    /// The code and the message of the last failure that left one.
    pub fn last_error(&self) -> (r: Option<(i32, String)>)
        ensures
            match r {
                Some((code, message)) => self.spec_error() == Some((code, message@)),
                None => self.spec_error() is None,
            },
    {
        match &self.error {
            Some((code, message)) => Some((*code, message.clone())),
            None => None,
        }
    }

    /// Whether a function was registered through this handle and not deleted since.
    pub fn knows_function(&self, name: &str, argc: i32) -> (r: bool)
        ensures
            r == self.known().contains((crate::registry::lowercase(name@), argc)),
    {
        let key = normalize_ident(name);
        self.functions.contains(key.as_str(), argc)
    }
}

/// Whether a set of callbacks and a name are not a registration at all.
pub open spec fn misuse<F, G>(
    name: Option<Seq<char>>,
    n_args: i32,
    x_func: Option<F>,
    x_step: Option<F>,
    x_final: Option<G>,
    x_value: Option<G>,
    x_inverse: Option<F>,
) -> bool {
    ||| name is None
    ||| x_func is Some && x_final is Some
    ||| (x_final is None) != (x_step is None)
    ||| (x_value is None) != (x_inverse is None)
    ||| crate::registry::registration_error(name->0, n_args) is Some
}

/// What the connection is asked to register: a scalar function or an aggregate.
fn implementation<D, F, G>(scalar: bool, function: CFunction<D, F, G>) -> (r: FunctionImpl<
    CFunction<D, F, G>,
    CFunction<D, F, G>,
>) where
    D: Send + Sync + 'static,
    F: Fn(
        &mut FunctionContext<'_, usize, CObject<D>>,
        &mut sqlite3_context<D>,
        &mut Vec<sqlite3_value>,
    ) + Send + Sync + 'static,
    G: Fn(&mut FunctionContext<'_, usize, CObject<D>>, &mut sqlite3_context<D>)
        + Send
        + Sync
        + 'static,

    ensures
        r == (if scalar {
            FunctionImpl::<CFunction<D, F, G>, CFunction<D, F, G>>::Scalar(Arc::new(function))
        } else {
            FunctionImpl::Aggregate(Arc::new(function))
        }),
{
    if scalar {
        FunctionImpl::Scalar(Arc::new(function))
    } else {
        FunctionImpl::Aggregate(Arc::new(function))
    }
}

/// The function behind a registration.
pub open spec fn behind<D, F, G>(
    imp: FunctionImpl<CFunction<D, F, G>, CFunction<D, F, G>>,
) -> CFunction<D, F, G> where
    D: Send + Sync + 'static,
    F: Fn(
        &mut FunctionContext<'_, usize, CObject<D>>,
        &mut sqlite3_context<D>,
        &mut Vec<sqlite3_value>,
    ) + Send + Sync + 'static,
    G: Fn(&mut FunctionContext<'_, usize, CObject<D>>, &mut sqlite3_context<D>)
        + Send
        + Sync
        + 'static,
 {
    match imp {
        FunctionImpl::Scalar(f) => *f,
        FunctionImpl::Aggregate(f) => *f,
    }
}

/// Whether a function runs these callbacks, hands them this `pApp` and this handle, and has this
/// destructor.
pub open spec fn made_of<D, F, G>(
    f: CFunction<D, F, G>,
    db: usize,
    p_app: usize,
    x_func: Option<F>,
    x_step: Option<F>,
    x_final: Option<G>,
    x_value: Option<G>,
    x_inverse: Option<F>,
    x_destroy: Option<D>,
) -> bool where
    D: Send + Sync + 'static,
    F: Fn(
        &mut FunctionContext<'_, usize, CObject<D>>,
        &mut sqlite3_context<D>,
        &mut Vec<sqlite3_value>,
    ) + Send + Sync + 'static,
    G: Fn(&mut FunctionContext<'_, usize, CObject<D>>, &mut sqlite3_context<D>)
        + Send
        + Sync
        + 'static,
 {
    &&& f.spec_callbacks().spec_func() == x_func
    &&& f.spec_callbacks().spec_step() == x_step
    &&& f.spec_callbacks().spec_final() == x_final
    &&& f.spec_callbacks().spec_value() == x_value
    &&& f.spec_callbacks().spec_inverse() == x_inverse
    &&& f.spec_callbacks().spec_app() == p_app
    &&& f.spec_callbacks().spec_db() == db
    &&& f.spec_destroy() == x_destroy
    &&& f.spec_unusable() is None
}

/// The message of a registration that would move a function under a running statement.
pub open spec fn busy_message() -> Seq<char> {
    "unable to delete/modify user-function due to active statements"@
}

/// What a registration, or a deletion, does to a handle it is asked of and what it answers. `known`
/// and `tombstones` are what the handle held before. The destructor of the call is dropped unless
/// the new function or a tombstone keeps it.
pub enum Registering {
    /// Not a registration at all: nothing changes.
    Misuse,
    /// It would move a function under a running statement: nothing changes but the last error.
    Busy,
    /// There is nothing to delete: nothing changes.
    Nothing,
    /// The function goes, and a destructor of the deleting call stays behind in its place.
    Delete,
    /// The name is too long once it is normalized: only a tombstone is taken away.
    TooLong,
    /// The function is registered, in place of any other and of a tombstone.
    Register,
}

/// Which of them a call comes to.
pub open spec fn registering<F, G>(
    name: Option<Seq<char>>,
    n_args: i32,
    x_func: Option<F>,
    x_step: Option<F>,
    x_final: Option<G>,
    x_value: Option<G>,
    x_inverse: Option<F>,
    known: bool,
    deleted: bool,
    running: bool,
) -> Registering {
    if misuse(name, n_args, x_func, x_step, x_final, x_value, x_inverse) {
        Registering::Misuse
    } else if known && running {
        Registering::Busy
    } else if x_func is None && x_final is None {
        if known || deleted {
            Registering::Delete
        } else {
            Registering::Nothing
        }
    } else if crate::registry::registration_error(
        crate::registry::lowercase(name->0),
        n_args,
    ) is Some {
        Registering::TooLong
    } else {
        Registering::Register
    }
}

/// What becomes of registering a function that nothing stands in the way of: it fails only where
/// the name is refused, as given or once it is normalized.
pub open spec fn placing(name: Seq<char>, n_args: i32) -> Registering {
    if crate::registry::registration_error(name, n_args) is Some {
        Registering::Misuse
    } else if crate::registry::registration_error(
        crate::registry::lowercase(name),
        n_args,
    ) is Some {
        Registering::TooLong
    } else {
        Registering::Register
    }
}

impl Registering {
    /// The result code it is answered with.
    pub open spec fn code(self) -> i32 {
        match self {
            Registering::Misuse => SQLITE_MISUSE,
            Registering::Busy => SQLITE_BUSY,
            Registering::Nothing => SQLITE_OK,
            Registering::Delete => SQLITE_OK,
            Registering::TooLong => SQLITE_MISUSE,
            Registering::Register => SQLITE_OK,
        }
    }
}

/// Whether `after` is what a call leaves of the handle `before`. The generation of the connection
/// moves on where its functions do, and only there.
pub open spec fn left_by<D, F, G>(
    before: FunctionHandle<D, F, G>,
    after: FunctionHandle<D, F, G>,
    did: Registering,
    key: FunctionKey,
    flags: FunctionFlags,
    scalar: bool,
    p_app: usize,
    x_destroy: Option<D>,
) -> bool where
    D: Send + Sync + 'static,
    F: Fn(
        &mut FunctionContext<'_, usize, CObject<D>>,
        &mut sqlite3_context<D>,
        &mut Vec<sqlite3_value>,
    ) + Send + Sync + 'static,
    G: Fn(&mut FunctionContext<'_, usize, CObject<D>>, &mut sqlite3_context<D>)
        + Send
        + Sync
        + 'static,
 {
    match did {
        Registering::Misuse | Registering::Nothing => after == before,
        Registering::Busy => {
            &&& after.spec_functions() == before.spec_functions()
            &&& after.spec_generation() == before.spec_generation()
            &&& after.known() == before.known()
            &&& after.tombstones() == before.tombstones()
            &&& after.spec_error() == Some((SQLITE_BUSY, busy_message()))
        },
        Registering::Delete => {
            &&& after.spec_functions() == before.spec_functions().remove(key)
            &&& after.spec_generation() == (if before.spec_functions().contains_key(key) {
                crate::registry::next_generation(before.spec_generation())
            } else {
                before.spec_generation()
            })
            &&& after.known() == before.known().remove(key)
            &&& after.tombstones().remove(key) == before.tombstones().remove(key)
            &&& after.tombstones().contains_key(key) <==> x_destroy is Some
            &&& x_destroy is Some ==> {
                let left = after.tombstones()[key];
                &&& left.spec_destroy() == x_destroy
                &&& left.spec_callbacks().spec_app() == p_app
                &&& left.spec_callbacks().spec_func() is None
                &&& left.spec_callbacks().spec_final() is None
            }
            &&& after.spec_error() == before.spec_error()
        },
        Registering::TooLong => {
            &&& after.spec_functions() == before.spec_functions()
            &&& after.spec_generation() == before.spec_generation()
            &&& after.known() == before.known()
            &&& after.tombstones() == before.tombstones().remove(key)
            &&& after.spec_error() == before.spec_error()
        },
        Registering::Register => {
            let func = after.spec_functions()[key];
            &&& after.spec_functions() == before.spec_functions().insert(key, func)
            &&& after.spec_generation() == crate::registry::next_generation(
                before.spec_generation(),
            )
            &&& func.spec_name() == key.0
            &&& func.spec_argc() == key.1
            &&& func.spec_flags() == flags
            &&& func.spec_imp() is Scalar <==> scalar
            &&& after.known() == before.known().insert(key)
            &&& after.tombstones() == before.tombstones().remove(key)
            &&& after.spec_error() == before.spec_error()
        },
    }
}

/// Whether a call is answered with `r` and leaves `after` of the handle `before`.
pub open spec fn answered<D, F, G>(
    before: FunctionHandle<D, F, G>,
    after: FunctionHandle<D, F, G>,
    r: i32,
    db: usize,
    name: Option<Seq<char>>,
    n_args: i32,
    enc: i32,
    p_app: usize,
    x_func: Option<F>,
    x_step: Option<F>,
    x_final: Option<G>,
    x_value: Option<G>,
    x_inverse: Option<F>,
    x_destroy: Option<D>,
    running: bool,
) -> bool where
    D: Send + Sync + 'static,
    F: Fn(
        &mut FunctionContext<'_, usize, CObject<D>>,
        &mut sqlite3_context<D>,
        &mut Vec<sqlite3_value>,
    ) + Send + Sync + 'static,
    G: Fn(&mut FunctionContext<'_, usize, CObject<D>>, &mut sqlite3_context<D>)
        + Send
        + Sync
        + 'static,
 {
    let key = (crate::registry::lowercase(name->0), n_args);
    let did = registering(
        name,
        n_args,
        x_func,
        x_step,
        x_final,
        x_value,
        x_inverse,
        before.known().contains(key),
        before.tombstones().contains_key(key),
        running,
    );
    &&& r == did.code()
    &&& left_by(
        before,
        after,
        did,
        key,
        FunctionFlags::of_bits(enc as u32),
        x_func is Some,
        p_app,
        x_destroy,
    )
    &&& did is Register ==> made_of(
        behind(after.spec_functions()[key].spec_imp()),
        db,
        p_app,
        x_func,
        x_step,
        x_final,
        x_value,
        x_inverse,
        x_destroy,
    )
}

/// Registers or deletes a function. `enc` holds the text encoding, which makes no difference, and
/// the property flags. `running` says whether a statement of the handle is running: a definition may
/// not move under it, but a name and argument count nobody registered yet is new and may be added
/// even then. A call without an `xFunc` and without an `xFinal` deletes.
pub fn create_function<D, F, G>(
    handle: Option<&mut FunctionHandle<D, F, G>>,
    db: usize,
    name: Option<String>,
    n_args: i32,
    enc: i32,
    p_app: usize,
    x_func: Option<F>,
    x_step: Option<F>,
    x_final: Option<G>,
    x_value: Option<G>,
    x_inverse: Option<F>,
    x_destroy: Option<D>,
    running: bool,
) -> (r: i32) where
    D: Send + Sync + 'static,
    F: Fn(
        &mut FunctionContext<'_, usize, CObject<D>>,
        &mut sqlite3_context<D>,
        &mut Vec<sqlite3_value>,
    ) + Send + Sync + 'static,
    G: Fn(&mut FunctionContext<'_, usize, CObject<D>>, &mut sqlite3_context<D>)
        + Send
        + Sync
        + 'static,

    requires
        handle is Some ==> handle->0.wf(),
        x_func is Some ==> crate::capi_function::total_func::<D, F>(x_func->0),
        x_step is Some ==> crate::capi_function::total_func::<D, F>(x_step->0),
        x_final is Some ==> crate::capi_function::total_final::<D, G>(x_final->0),
        x_value is Some ==> crate::capi_function::total_final::<D, G>(x_value->0),
        x_inverse is Some ==> crate::capi_function::total_func::<D, F>(x_inverse->0),
    ensures
        match handle {
            None => r == SQLITE_MISUSE,
            Some(h) => {
                &&& answered(
                    *h,
                    *final(h),
                    r,
                    db,
                    name_view(name),
                    n_args,
                    enc,
                    p_app,
                    x_func,
                    x_step,
                    x_final,
                    x_value,
                    x_inverse,
                    x_destroy,
                    running,
                )
                &&& final(h).wf()
            },
        },
{
    let name = match name {
        None => {
            return SQLITE_MISUSE;
        },
        Some(name) => name,
    };
    let h = match handle {
        None => {
            return SQLITE_MISUSE;
        },
        Some(h) => h,
    };
    let len: usize = name.as_str().as_bytes().len();
    if (x_func.is_some() && x_final.is_some()) || (x_final.is_none() != x_step.is_none()) || (
    x_value.is_none() != x_inverse.is_none()) || n_args < -1 || n_args > MAX_FUNCTION_ARG || len
        > MAX_FUNCTION_NAME_LEN || len == 0 {
        return SQLITE_MISUSE;
    }
    let key = normalize_ident(name.as_str());
    let ghost k = (key@, n_args);
    let known = h.functions.contains(key.as_str(), n_args);
    if known && running {
        h.error = Some(
            (
                SQLITE_BUSY,
                "unable to delete/modify user-function due to active statements".to_owned(),
            ),
        );
        return SQLITE_BUSY;
    }
    if x_func.is_none() && x_final.is_none() {
        let deleted = h.deleted_functions.contains(key.as_str(), n_args);
        if !known && !deleted {
            return SQLITE_OK;
        }
        let _ = h.deleted_functions.remove(key.as_str(), n_args);
        let _ = h.conn.remove_function(name.as_str(), n_args);
        let _ = h.functions.remove(key.as_str(), n_args);
        if x_destroy.is_some() {
            let tombstone = CFunction::destructor_only(p_app, x_destroy);
            let _ = h.deleted_functions.insert(key, n_args, tombstone);
        }
        proof {
            let before = *old(handle->0);
            assert(h.spec_functions() =~= before.spec_functions().remove(k));
            assert(h.known() =~= before.known().remove(k));
            assert(h.tombstones().remove(k) =~= before.tombstones().remove(k));
        }
        return SQLITE_OK;
    }
    let scalar = x_func.is_some();
    let callbacks = CCallbacks::new(x_func, x_step, x_final, x_value, x_inverse, p_app, db);
    register(h, name, n_args, enc, scalar, CFunction::new(callbacks, x_destroy))
}

/// Registers a function under a name and argument count the handle accepts, in place of any other
/// and of a tombstone.
fn register<D, F, G>(
    h: &mut FunctionHandle<D, F, G>,
    name: String,
    n_args: i32,
    enc: i32,
    scalar: bool,
    function: CFunction<D, F, G>,
) -> (r: i32) where
    D: Send + Sync + 'static,
    F: Fn(
        &mut FunctionContext<'_, usize, CObject<D>>,
        &mut sqlite3_context<D>,
        &mut Vec<sqlite3_value>,
    ) + Send + Sync + 'static,
    G: Fn(&mut FunctionContext<'_, usize, CObject<D>>, &mut sqlite3_context<D>)
        + Send
        + Sync
        + 'static,

    requires
        old(h).wf(),
        crate::registry::registration_error(name@, n_args) is None,
    ensures
        final(h).wf(),
        r == placing(name@, n_args).code(),
        left_by(
            *old(h),
            *final(h),
            placing(name@, n_args),
            (crate::registry::lowercase(name@), n_args),
            FunctionFlags::of_bits(enc as u32),
            scalar,
            0,
            None,
        ),
        placing(name@, n_args) is Register ==> behind(
            final(h).spec_functions()[(crate::registry::lowercase(name@), n_args)].spec_imp(),
        ) == function,
{
    let ghost before = *h;
    let key = normalize_ident(name.as_str());
    let ghost k = (key@, n_args);
    let _ = h.deleted_functions.remove(key.as_str(), n_args);
    let imp = implementation(scalar, function);
    let flags = FunctionFlags::from_bits_truncate(#[verifier::truncate] (enc as u32));
    match h.conn.create_function(name.as_str(), n_args, flags, imp) {
        Err(LimboError::InvalidArgument(_)) => SQLITE_MISUSE,
        Err(_) => SQLITE_ERROR,
        Ok(()) => {
            let _ = h.functions.insert(key, n_args, name);
            assert(h.known() =~= before.known().insert(k));
            SQLITE_OK
        },
    }
}

pub open spec fn name_view(name: Option<String>) -> Option<Seq<char>> {
    match name {
        Some(name) => Some(name@),
        None => None,
    }
}

/// The text of a C string; none where there is none or it is not UTF-8.
pub open spec fn utf8_name(name: Option<&[u8]>) -> Option<Seq<char>> {
    match name {
        Some(bytes) => if vstd::utf8::valid_utf8(bytes@) {
            Some(vstd::utf8::decode_utf8(bytes@))
        } else {
            None
        },
        None => None,
    }
}

/// The text of a UTF-16 C string; none where there is none or a surrogate in it stands alone.
pub open spec fn utf16_name(name: Option<&[u16]>) -> Option<Seq<char>> {
    match name {
        Some(units) => if crate::utf16::well_formed_utf16(units@) {
            Some(crate::utf16::decode_lossy(units@))
        } else {
            None
        },
        None => None,
    }
}

/// The name a C string gives a function.
pub fn function_name(name: Option<&[u8]>) -> (r: Option<String>)
    ensures
        name_view(r) == utf8_name(name),
{
    match name {
        Some(bytes) => from_utf8(bytes),
        None => None,
    }
}

/// The name a UTF-16 C string gives a function.
pub fn function_name16(name: Option<&[u16]>) -> (r: Option<String>)
    ensures
        name_view(r) == utf16_name(name),
{
    match name {
        Some(units) => decode_units_strict(units),
        None => None,
    }
}

/// Registers or deletes a function that has no destructor.
pub fn sqlite3_create_function<D, F, G>(
    handle: Option<&mut FunctionHandle<D, F, G>>,
    db: usize,
    name: Option<&[u8]>,
    n_args: i32,
    enc: i32,
    p_app: usize,
    x_func: Option<F>,
    x_step: Option<F>,
    x_final: Option<G>,
    running: bool,
) -> (r: i32) where
    D: Send + Sync + 'static,
    F: Fn(
        &mut FunctionContext<'_, usize, CObject<D>>,
        &mut sqlite3_context<D>,
        &mut Vec<sqlite3_value>,
    ) + Send + Sync + 'static,
    G: Fn(&mut FunctionContext<'_, usize, CObject<D>>, &mut sqlite3_context<D>)
        + Send
        + Sync
        + 'static,

    requires
        handle is Some ==> handle->0.wf(),
        x_func is Some ==> crate::capi_function::total_func::<D, F>(x_func->0),
        x_step is Some ==> crate::capi_function::total_func::<D, F>(x_step->0),
        x_final is Some ==> crate::capi_function::total_final::<D, G>(x_final->0),
    ensures
        match handle {
            None => r == SQLITE_MISUSE,
            Some(h) => {
                &&& answered(
                    *h,
                    *final(h),
                    r,
                    db,
                    utf8_name(name),
                    n_args,
                    enc,
                    p_app,
                    x_func,
                    x_step,
                    x_final,
                    None,
                    None,
                    None,
                    running,
                )
                &&& final(h).wf()
            },
        },
{
    create_function(
        handle,
        db,
        function_name(name),
        n_args,
        enc,
        p_app,
        x_func,
        x_step,
        x_final,
        None,
        None,
        None,
        running,
    )
}

/// Registers or deletes a function.
pub fn sqlite3_create_function_v2<D, F, G>(
    handle: Option<&mut FunctionHandle<D, F, G>>,
    db: usize,
    name: Option<&[u8]>,
    n_args: i32,
    enc: i32,
    p_app: usize,
    x_func: Option<F>,
    x_step: Option<F>,
    x_final: Option<G>,
    x_destroy: Option<D>,
    running: bool,
) -> (r: i32) where
    D: Send + Sync + 'static,
    F: Fn(
        &mut FunctionContext<'_, usize, CObject<D>>,
        &mut sqlite3_context<D>,
        &mut Vec<sqlite3_value>,
    ) + Send + Sync + 'static,
    G: Fn(&mut FunctionContext<'_, usize, CObject<D>>, &mut sqlite3_context<D>)
        + Send
        + Sync
        + 'static,

    requires
        handle is Some ==> handle->0.wf(),
        x_func is Some ==> crate::capi_function::total_func::<D, F>(x_func->0),
        x_step is Some ==> crate::capi_function::total_func::<D, F>(x_step->0),
        x_final is Some ==> crate::capi_function::total_final::<D, G>(x_final->0),
    ensures
        match handle {
            None => r == SQLITE_MISUSE,
            Some(h) => {
                &&& answered(
                    *h,
                    *final(h),
                    r,
                    db,
                    utf8_name(name),
                    n_args,
                    enc,
                    p_app,
                    x_func,
                    x_step,
                    x_final,
                    None,
                    None,
                    x_destroy,
                    running,
                )
                &&& final(h).wf()
            },
        },
{
    create_function(
        handle,
        db,
        function_name(name),
        n_args,
        enc,
        p_app,
        x_func,
        x_step,
        x_final,
        None,
        None,
        x_destroy,
        running,
    )
}

/// Registers or deletes a function whose name is in UTF-16.
pub fn sqlite3_create_function16<D, F, G>(
    handle: Option<&mut FunctionHandle<D, F, G>>,
    db: usize,
    name: Option<&[u16]>,
    n_args: i32,
    enc: i32,
    p_app: usize,
    x_func: Option<F>,
    x_step: Option<F>,
    x_final: Option<G>,
    running: bool,
) -> (r: i32) where
    D: Send + Sync + 'static,
    F: Fn(
        &mut FunctionContext<'_, usize, CObject<D>>,
        &mut sqlite3_context<D>,
        &mut Vec<sqlite3_value>,
    ) + Send + Sync + 'static,
    G: Fn(&mut FunctionContext<'_, usize, CObject<D>>, &mut sqlite3_context<D>)
        + Send
        + Sync
        + 'static,

    requires
        handle is Some ==> handle->0.wf(),
        x_func is Some ==> crate::capi_function::total_func::<D, F>(x_func->0),
        x_step is Some ==> crate::capi_function::total_func::<D, F>(x_step->0),
        x_final is Some ==> crate::capi_function::total_final::<D, G>(x_final->0),
    ensures
        match handle {
            None => r == SQLITE_MISUSE,
            Some(h) => {
                &&& answered(
                    *h,
                    *final(h),
                    r,
                    db,
                    utf16_name(name),
                    n_args,
                    enc,
                    p_app,
                    x_func,
                    x_step,
                    x_final,
                    None,
                    None,
                    None,
                    running,
                )
                &&& final(h).wf()
            },
        },
{
    create_function(
        handle,
        db,
        function_name16(name),
        n_args,
        enc,
        p_app,
        x_func,
        x_step,
        x_final,
        None,
        None,
        None,
        running,
    )
}

/// Registers or deletes an aggregate that can drive a window frame.
pub fn sqlite3_create_window_function<D, F, G>(
    handle: Option<&mut FunctionHandle<D, F, G>>,
    db: usize,
    name: Option<&[u8]>,
    n_args: i32,
    enc: i32,
    p_app: usize,
    x_step: Option<F>,
    x_final: Option<G>,
    x_value: Option<G>,
    x_inverse: Option<F>,
    x_destroy: Option<D>,
    running: bool,
) -> (r: i32) where
    D: Send + Sync + 'static,
    F: Fn(
        &mut FunctionContext<'_, usize, CObject<D>>,
        &mut sqlite3_context<D>,
        &mut Vec<sqlite3_value>,
    ) + Send + Sync + 'static,
    G: Fn(&mut FunctionContext<'_, usize, CObject<D>>, &mut sqlite3_context<D>)
        + Send
        + Sync
        + 'static,

    requires
        handle is Some ==> handle->0.wf(),
        x_step is Some ==> crate::capi_function::total_func::<D, F>(x_step->0),
        x_final is Some ==> crate::capi_function::total_final::<D, G>(x_final->0),
        x_value is Some ==> crate::capi_function::total_final::<D, G>(x_value->0),
        x_inverse is Some ==> crate::capi_function::total_func::<D, F>(x_inverse->0),
    ensures
        match handle {
            None => r == SQLITE_MISUSE,
            Some(h) => {
                &&& answered(
                    *h,
                    *final(h),
                    r,
                    db,
                    utf8_name(name),
                    n_args,
                    enc,
                    p_app,
                    None,
                    x_step,
                    x_final,
                    x_value,
                    x_inverse,
                    x_destroy,
                    running,
                )
                &&& final(h).wf()
            },
        },
{
    create_function(
        handle,
        db,
        function_name(name),
        n_args,
        enc,
        p_app,
        None,
        x_step,
        x_final,
        x_value,
        x_inverse,
        x_destroy,
        running,
    )
}

/// Whether a text holds a NUL, and so does not fit a C string.
pub fn holds_nul(text: &str) -> (r: bool)
    ensures
        r == vstd::utf8::encode_utf8(text@).contains(0u8),
{
    let bytes = text.as_bytes();
    let mut i: usize = 0;
    while i < bytes.len()
        invariant
            i <= bytes@.len(),
            bytes@ == vstd::utf8::encode_utf8(text@),
            forall|j: int| 0 <= j < i ==> bytes@[j] != 0u8,
        decreases bytes@.len() - i,
    {
        if bytes[i] == 0 {
            assert(bytes@[i as int] == 0u8);
            return true;
        }
        i += 1;
    }
    false
}

/// Makes sure a call of the function compiles: unless this handle registered one, or one is built
/// in, a placeholder is registered, every call of which fails with a message that names it.
/// `builtin` says whether the engine itself has a function by that name for that many arguments; a
/// placeholder would hide it.
pub fn sqlite3_overload_function<D, F, G>(
    handle: Option<&mut FunctionHandle<D, F, G>>,
    db: usize,
    name: Option<&[u8]>,
    n_args: i32,
    builtin: bool,
) -> (r: i32) where
    D: Send + Sync + 'static,
    F: Fn(
        &mut FunctionContext<'_, usize, CObject<D>>,
        &mut sqlite3_context<D>,
        &mut Vec<sqlite3_value>,
    ) + Send + Sync + 'static,
    G: Fn(&mut FunctionContext<'_, usize, CObject<D>>, &mut sqlite3_context<D>)
        + Send
        + Sync
        + 'static,

    requires
        handle is Some ==> handle->0.wf(),
    ensures
        match handle {
            None => r == SQLITE_MISUSE,
            Some(h) => {
                let name = utf8_name(name);
                let key = (crate::registry::lowercase(name->0), n_args);
                &&& final(h).wf()
                &&& if n_args < -2 || name is None {
                    r == SQLITE_MISUSE && *final(h) == *h
                } else if h.known().contains(key) || n_args >= 0 && builtin {
                    r == SQLITE_OK && *final(h) == *h
                } else if vstd::utf8::encode_utf8(name->0).contains(0u8) {
                    r == SQLITE_MISUSE && *final(h) == *h
                } else {
                    let did = placing(name->0, n_args);
                    &&& r == did.code()
                    &&& left_by(
                        *h,
                        *final(h),
                        did,
                        key,
                        FunctionFlags::of_bits(SQLITE_UTF8 as u32),
                        true,
                        0,
                        None,
                    )
                    &&& did is Register ==> behind(
                        final(h).spec_functions()[key].spec_imp(),
                    ).spec_unusable() == name
                }
            },
        },
{
    let h = match handle {
        None => {
            return SQLITE_MISUSE;
        },
        Some(h) => h,
    };
    if n_args < -2 {
        return SQLITE_MISUSE;
    }
    let name = match function_name(name) {
        None => {
            return SQLITE_MISUSE;
        },
        Some(name) => name,
    };
    if h.knows_function(name.as_str(), n_args) {
        return SQLITE_OK;
    }
    if n_args >= 0 && builtin {
        return SQLITE_OK;
    }
    if holds_nul(name.as_str()) {
        return SQLITE_MISUSE;
    }
    if validate_registration(name.as_str(), n_args).is_err() {
        return SQLITE_MISUSE;
    }
    let placeholder = CFunction::placeholder(name.clone(), db);
    register(h, name, n_args, SQLITE_UTF8, true, placeholder)
}

/// Every call of a function that was only overloaded fails with a message that names it.
pub proof fn law_a_placeholder_always_fails<D, F, G>(
    f: &CFunction<D, F, G>,
    ctx: &mut FunctionContext<'_, usize, CObject<D>>,
    args: &[ValueRef<'_>],
    name: Seq<char>,
    r: crate::error::Result<Value>,
) where
    D: Send + Sync + 'static,
    F: Fn(
        &mut FunctionContext<'_, usize, CObject<D>>,
        &mut sqlite3_context<D>,
        &mut Vec<sqlite3_value>,
    ) + Send + Sync + 'static,
    G: Fn(&mut FunctionContext<'_, usize, CObject<D>>, &mut sqlite3_context<D>)
        + Send
        + Sync
        + 'static,

    requires
        f.spec_unusable() == Some(name),
        call_ensures(
            <CFunction<D, F, G> as ScalarFunction<usize, CObject<D>>>::call,
            (f, ctx, args),
            r,
        ),
    ensures
        r is Err,
        r->Err_0@ == (crate::error::ErrorView::UserFunction {
            code: SQLITE_ERROR,
            message: "unable to use function "@ + name + " in the requested context"@,
        }),
{
}

/// Drops every function the handle registered, and with them their destructors and those deletions
/// left behind.
pub fn drop_all_functions<D, F, G>(h: &mut FunctionHandle<D, F, G>) where
    D: Send + Sync + 'static,
    F: Fn(
        &mut FunctionContext<'_, usize, CObject<D>>,
        &mut sqlite3_context<D>,
        &mut Vec<sqlite3_value>,
    ) + Send + Sync + 'static,
    G: Fn(&mut FunctionContext<'_, usize, CObject<D>>, &mut sqlite3_context<D>)
        + Send
        + Sync
        + 'static,

    requires
        old(h).wf(),
    ensures
        final(h).wf(),
        final(h).known() == Set::<FunctionKey>::empty(),
        final(h).tombstones() == Map::<FunctionKey, CFunction<D, F, G>>::empty(),
        final(h).spec_functions() == old(h).spec_functions().remove_keys(old(h).known()),
        final(h).spec_generation() == crate::registry::advanced(
            old(h).spec_generation(),
            old(h).known().len(),
        ),
        final(h).spec_error() == old(h).spec_error(),
{
    let ghost before = *h;
    assert(before.spec_functions().remove_keys(Set::<FunctionKey>::empty())
        =~= before.spec_functions());
    assert(before.known().difference(before.known()) =~= Set::<FunctionKey>::empty());
    loop
        invariant
            h.wf(),
            h.known().subset_of(before.known()),
            h.spec_functions() == before.spec_functions().remove_keys(
                before.known().difference(h.known()),
            ),
            before.known().difference(h.known()).finite(),
            h.spec_generation() == crate::registry::advanced(
                before.spec_generation(),
                before.known().difference(h.known()).len(),
            ),
            h.spec_error() == before.spec_error(),
        ensures
            h.known() == Set::<FunctionKey>::empty(),
        decreases h.functions.count(),
    {
        let ghost here = *h;
        match h.functions.pop() {
            None => {
                proof {
                    assert(h.known() =~= Set::<FunctionKey>::empty());
                }
                break;
            },
            Some((key, argc, name)) => {
                let ghost k = (key@, argc);
                let _ = h.conn.remove_function(name.as_str(), argc);
                proof {
                    assert(here.known().contains(k));
                    assert(h.known() =~= here.known().remove(k));
                    assert(h.spec_functions() =~= here.spec_functions().remove(k));
                    assert(h.spec_functions() =~= before.spec_functions().remove_keys(
                        before.known().difference(h.known()),
                    ));
                    let gone = before.known().difference(here.known());
                    assert(!gone.contains(k));
                    assert(before.known().difference(h.known()) =~= gone.insert(k));
                }
            },
        }
    }
    h.deleted_functions.clear();
    assert(before.known().difference(Set::<FunctionKey>::empty()) =~= before.known());
}

/// Every function a handle knows can be called on its connection, takes no more arguments than a
/// function can, and is not waiting for a destructor that a deletion left behind.
pub proof fn law_known_functions_are_registered<D, F, G>(h: FunctionHandle<D, F, G>) where
    D: Send + Sync + 'static,
    F: Fn(
        &mut FunctionContext<'_, usize, CObject<D>>,
        &mut sqlite3_context<D>,
        &mut Vec<sqlite3_value>,
    ) + Send + Sync + 'static,
    G: Fn(&mut FunctionContext<'_, usize, CObject<D>>, &mut sqlite3_context<D>)
        + Send
        + Sync
        + 'static,

    requires
        h.wf(),
    ensures
        h.known().subset_of(h.spec_functions().dom()),
        h.known().disjoint(h.tombstones().dom()),
        forall|key: FunctionKey| #[trigger]
            h.known().contains(key) ==> -1 <= key.1 <= MAX_FUNCTION_ARG,
{
    assert forall|key: FunctionKey| #[trigger] h.known().contains(key) implies -1 <= key.1
        <= MAX_FUNCTION_ARG by {
        assert(h.functions@.contains_key(key));
    }
}

/// Whatever a call on a handle does to the functions of its connection, statements compiled before
/// are compiled again; a call that is refused leaves them and their generation as they were.
pub proof fn law_a_change_through_a_handle_is_noticed<D, F, G>(
    before: FunctionHandle<D, F, G>,
    after: FunctionHandle<D, F, G>,
    r: i32,
    db: usize,
    name: Option<Seq<char>>,
    n_args: i32,
    enc: i32,
    p_app: usize,
    x_func: Option<F>,
    x_step: Option<F>,
    x_final: Option<G>,
    x_value: Option<G>,
    x_inverse: Option<F>,
    x_destroy: Option<D>,
    running: bool,
) where
    D: Send + Sync + 'static,
    F: Fn(
        &mut FunctionContext<'_, usize, CObject<D>>,
        &mut sqlite3_context<D>,
        &mut Vec<sqlite3_value>,
    ) + Send + Sync + 'static,
    G: Fn(&mut FunctionContext<'_, usize, CObject<D>>, &mut sqlite3_context<D>)
        + Send
        + Sync
        + 'static,

    requires
        answered(
            before,
            after,
            r,
            db,
            name,
            n_args,
            enc,
            p_app,
            x_func,
            x_step,
            x_final,
            x_value,
            x_inverse,
            x_destroy,
            running,
        ),
    ensures
        after.spec_functions() != before.spec_functions() ==> after.spec_generation()
            != before.spec_generation(),
        r != SQLITE_OK ==> after.spec_functions() == before.spec_functions()
            && after.spec_generation() == before.spec_generation(),
{
    let key = (crate::registry::lowercase(name->0), n_args);
    if !before.spec_functions().contains_key(key) {
        assert(before.spec_functions().remove(key) =~= before.spec_functions());
    }
}

/// Once a registration succeeded, a call by that name with that many arguments reaches a function
/// that runs the callbacks handed in, with their `pApp` and their handle.
pub proof fn law_a_call_reaches_the_callbacks_handed_in<D, F, G>(
    before: FunctionHandle<D, F, G>,
    after: FunctionHandle<D, F, G>,
    r: i32,
    db: usize,
    name: Option<Seq<char>>,
    n_args: i32,
    enc: i32,
    p_app: usize,
    x_func: Option<F>,
    x_step: Option<F>,
    x_final: Option<G>,
    x_value: Option<G>,
    x_inverse: Option<F>,
    x_destroy: Option<D>,
    running: bool,
) where
    D: Send + Sync + 'static,
    F: Fn(
        &mut FunctionContext<'_, usize, CObject<D>>,
        &mut sqlite3_context<D>,
        &mut Vec<sqlite3_value>,
    ) + Send + Sync + 'static,
    G: Fn(&mut FunctionContext<'_, usize, CObject<D>>, &mut sqlite3_context<D>)
        + Send
        + Sync
        + 'static,

    requires
        answered(
            before,
            after,
            r,
            db,
            name,
            n_args,
            enc,
            p_app,
            x_func,
            x_step,
            x_final,
            x_value,
            x_inverse,
            x_destroy,
            running,
        ),
        r == SQLITE_OK,
        n_args >= 0,
        x_func is Some || x_final is Some,
    ensures
        ({
            let found = crate::registry::resolution(after.spec_functions(), name->0, n_args as nat);
            &&& found is Some
            &&& found->0.spec_imp() is Scalar <==> x_func is Some
            &&& made_of(
                behind(found->0.spec_imp()),
                db,
                p_app,
                x_func,
                x_step,
                x_final,
                x_value,
                x_inverse,
                x_destroy,
            )
        }),
{
}

/// While a statement runs, no function the handle knows is replaced or deleted, whatever is asked.
pub proof fn law_a_running_statement_keeps_its_functions<D, F, G>(
    before: FunctionHandle<D, F, G>,
    after: FunctionHandle<D, F, G>,
    r: i32,
    db: usize,
    name: Option<Seq<char>>,
    n_args: i32,
    enc: i32,
    p_app: usize,
    x_func: Option<F>,
    x_step: Option<F>,
    x_final: Option<G>,
    x_value: Option<G>,
    x_inverse: Option<F>,
    x_destroy: Option<D>,
    key: FunctionKey,
) where
    D: Send + Sync + 'static,
    F: Fn(
        &mut FunctionContext<'_, usize, CObject<D>>,
        &mut sqlite3_context<D>,
        &mut Vec<sqlite3_value>,
    ) + Send + Sync + 'static,
    G: Fn(&mut FunctionContext<'_, usize, CObject<D>>, &mut sqlite3_context<D>)
        + Send
        + Sync
        + 'static,

    requires
        before.wf(),
        answered(
            before,
            after,
            r,
            db,
            name,
            n_args,
            enc,
            p_app,
            x_func,
            x_step,
            x_final,
            x_value,
            x_inverse,
            x_destroy,
            true,
        ),
        before.known().contains(key),
    ensures
        after.known().contains(key),
        after.spec_functions().contains_key(key),
        after.spec_functions()[key] == before.spec_functions()[key],
{
}

}
