//! What registering, removing and finding functions does, said of single names and argument counts.

use std::sync::Arc;
use vstd::prelude::*;

use crate::collation::to_ascii_lowercase;
use crate::error::{LimboError, Result};
use crate::flags::FunctionFlags;
use crate::function::{AggregateFunction, ExternalFunc, FunctionImpl};
use crate::registry::{
    check_usable_from_schema, validate_registration, Connection, Database, FunctionMap,
};
use crate::text::push_decimal;

verus! {

/// Whether a function can have this name and argument count: 1 to 255 bytes, and -1 to 127
/// arguments.
pub open spec fn fits(name: Seq<char>, argc: i32) -> bool {
    0 < vstd::utf8::encode_utf8(name).len() <= 255 && -1 <= argc <= 127
}

/// Whether two maps have the same for a key.
pub open spec fn same_at<S, A>(
    before: FunctionMap<S, A>,
    after: FunctionMap<S, A>,
    key: (Seq<char>, i32),
) -> bool {
    &&& before.contains_key(key) <==> after.contains_key(key)
    &&& before.contains_key(key) ==> after[key] == before[key]
}

/// Whether a generation is the one after another: one more, and 0 after the last.
pub open spec fn follows(before: u64, after: u64) -> bool {
    (after as int - before as int - 1) % 0x1_0000_0000_0000_0000 == 0
}

/// A name and an argument count are fit for a function or it is said what is wrong with them: first
/// an empty name, then a long one, then the count, which is said.
pub proof fn law_a_registration_is_checked(
    name: &str,
    argc: i32,
    r: Result<()>,
    counted: &mut String,
)
    requires
        call_ensures(validate_registration, (name, argc), r),
        old(counted)@ == "function argument count must be between -1 and 127, got "@,
        call_ensures(push_decimal, (counted, argc as i64), ()),
    ensures
        r is Ok <==> fits(name@, argc),
        vstd::utf8::encode_utf8(name@).len() == 0 ==> (r matches Err(LimboError::InvalidArgument(m))
            && m@ == "function name may not be empty"@),
        vstd::utf8::encode_utf8(name@).len() > 255 ==> (r matches Err(
            LimboError::InvalidArgument(m),
        ) && m@ == "function name is longer than 255 bytes"@),
        0 < vstd::utf8::encode_utf8(name@).len() <= 255 && !(-1 <= argc <= 127) ==> (
        r matches Err(LimboError::InvalidArgument(m)) && m@ == final(counted)@),
{
}

/// Names in ASCII are filed under their small letters.
pub proof fn law_ascii_names_are_filed_in_small_letters<S, A>(
    conn: &Connection<S, A>,
    name: &str,
    arg_count: usize,
    small: String,
    r: Option<Arc<ExternalFunc<S, A>>>,
)
    requires
        vstd::utf8::is_ascii_chars(name@),
        call_ensures(to_ascii_lowercase, (name,), small),
        call_ensures(Connection::<S, A>::resolve_function, (conn, name, arg_count), r),
    ensures
        crate::registry::lowercase(name@) == small@,
{
}

/// A function created on a connection is filed under its folded name and its argument count, with
/// what it was created with. Everything else stays, and the generation moves on by one. It fails as
/// a check of the name or of the folded name does, and changes nothing.
pub proof fn law_a_created_function_is_filed<S, A>(
    conn: &mut Connection<S, A>,
    name: &str,
    folded: &str,
    argc: i32,
    flags: FunctionFlags,
    imp: FunctionImpl<S, A>,
    r: Result<()>,
    checked: Result<()>,
    checked_folded: Result<()>,
    other: (Seq<char>, i32),
)
    requires
        folded@ == crate::registry::lowercase(name@),
        call_ensures(validate_registration, (name, argc), checked),
        call_ensures(validate_registration, (folded, argc), checked_folded),
        call_ensures(Connection::<S, A>::create_function, (conn, name, argc, flags, imp), r),
    ensures
        r is Ok <==> fits(name@, argc) && fits(folded@, argc),
        !fits(name@, argc) ==> r is Err && checked is Err && r->Err_0@ == checked->Err_0@,
        fits(name@, argc) && !fits(folded@, argc) ==> r is Err && checked_folded is Err
            && r->Err_0@ == checked_folded->Err_0@,
        r is Err ==> *final(conn) == *old(conn),
        r is Ok ==> {
            let key = (folded@, argc);
            &&& final(conn).spec_functions().contains_key(key)
            &&& final(conn).spec_functions()[key].spec_name() == folded@
            &&& final(conn).spec_functions()[key].spec_argc() == argc
            &&& final(conn).spec_functions()[key].spec_flags() == flags
            &&& final(conn).spec_functions()[key].spec_imp() == imp
            &&& other != key ==> same_at(
                old(conn).spec_functions(),
                final(conn).spec_functions(),
                other,
            )
            &&& follows(old(conn).spec_generation(), final(conn).spec_generation())
        },
{
}

/// Creating a scalar or an aggregate is creating a function of that kind.
pub proof fn law_scalars_and_aggregates_are_created_as_such<S, A>(
    a: &mut Connection<S, A>,
    b: &mut Connection<S, A>,
    name: &str,
    argc: i32,
    flags: FunctionFlags,
    f: S,
    g: A,
    r: Result<()>,
    q: Result<()>,
    other: (Seq<char>, i32),
)
    requires
        call_ensures(Connection::<S, A>::create_scalar_function, (a, name, argc, flags, f), r),
        call_ensures(Connection::<S, A>::create_aggregate_function, (b, name, argc, flags, g), q),
    ensures
        r is Ok <==> fits(name@, argc) && fits(crate::registry::lowercase(name@), argc),
        q is Ok <==> fits(name@, argc) && fits(crate::registry::lowercase(name@), argc),
        r is Err ==> *final(a) == *old(a),
        q is Err ==> *final(b) == *old(b),
        r is Ok ==> {
            let key = (crate::registry::lowercase(name@), argc);
            &&& final(a).spec_functions().contains_key(key)
            &&& final(a).spec_functions()[key].spec_flags() == flags
            &&& final(a).spec_functions()[key].spec_imp() matches FunctionImpl::Scalar(s) && *s == f
            &&& other != key ==> same_at(old(a).spec_functions(), final(a).spec_functions(), other)
            &&& follows(old(a).spec_generation(), final(a).spec_generation())
        },
        q is Ok ==> {
            let key = (crate::registry::lowercase(name@), argc);
            &&& final(b).spec_functions().contains_key(key)
            &&& final(b).spec_functions()[key].spec_flags() == flags
            &&& final(b).spec_functions()[key].spec_imp() matches FunctionImpl::Aggregate(s) && *s
                == g
            &&& other != key ==> same_at(old(b).spec_functions(), final(b).spec_functions(), other)
            &&& follows(old(b).spec_generation(), final(b).spec_generation())
        },
{
}

/// A function that is handed over is filed under its own name and argument count.
pub proof fn law_a_registered_function_is_filed<S, A>(
    conn: &mut Connection<S, A>,
    func: Arc<ExternalFunc<S, A>>,
    r: Result<()>,
    other: (Seq<char>, i32),
)
    requires
        call_ensures(Connection::<S, A>::register_function, (conn, func), r),
    ensures
        r is Ok <==> fits(func.spec_name(), func.spec_argc()),
        r is Err ==> *final(conn) == *old(conn),
        r is Ok ==> {
            let key = (func.spec_name(), func.spec_argc());
            &&& final(conn).spec_functions().contains_key(key)
            &&& final(conn).spec_functions()[key] == func
            &&& other != key ==> same_at(
                old(conn).spec_functions(),
                final(conn).spec_functions(),
                other,
            )
            &&& follows(old(conn).spec_generation(), final(conn).spec_generation())
        },
{
}

/// A removed function is gone, alone, and the generation moves on; removing what is not there
/// changes nothing.
pub proof fn law_a_removed_function_is_gone<S, A>(
    conn: &mut Connection<S, A>,
    name: &str,
    argc: i32,
    r: Result<()>,
    other: (Seq<char>, i32),
)
    requires
        call_ensures(Connection::<S, A>::remove_function, (conn, name, argc), r),
    ensures
        r is Ok <==> fits(name@, argc),
        r is Err ==> *final(conn) == *old(conn),
        r is Ok ==> {
            let key = (crate::registry::lowercase(name@), argc);
            &&& !final(conn).spec_functions().contains_key(key)
            &&& other != key ==> same_at(
                old(conn).spec_functions(),
                final(conn).spec_functions(),
                other,
            )
            &&& old(conn).spec_functions().contains_key(key) ==> follows(
                old(conn).spec_generation(),
                final(conn).spec_generation(),
            )
            &&& !old(conn).spec_functions().contains_key(key) ==> *final(conn) == *old(conn)
        },
{
}

/// Removing a name removes it with every argument count, leaves other names, and says whether there
/// was anything to remove.
pub proof fn law_a_removed_name_is_gone<S, A>(
    conn: &mut Connection<S, A>,
    name: &str,
    r: bool,
    argc: i32,
    other: (Seq<char>, i32),
)
    requires
        call_ensures(Connection::<S, A>::remove_all_functions_named, (conn, name), r),
    ensures
        !final(conn).spec_functions().contains_key((crate::registry::lowercase(name@), argc)),
        old(conn).spec_functions().contains_key((crate::registry::lowercase(name@), argc)) ==> r,
        r ==> exists|n: i32| #[trigger]
            old(conn).spec_functions().contains_key((crate::registry::lowercase(name@), n)),
        other.0 != crate::registry::lowercase(name@) ==> same_at(
            old(conn).spec_functions(),
            final(conn).spec_functions(),
            other,
        ),
        r ==> follows(old(conn).spec_generation(), final(conn).spec_generation()),
        !r ==> *final(conn) == *old(conn),
{
}

/// A call is answered by the function of its folded name with exactly its argument count, then by the
/// one with any count, and by none without either.
pub proof fn law_a_call_finds_its_count_before_any<S, A>(
    conn: &Connection<S, A>,
    name: &str,
    arg_count: usize,
    r: Option<Arc<ExternalFunc<S, A>>>,
    q: Result<Arc<ExternalFunc<S, A>>>,
    argc: i32,
)
    requires
        call_ensures(Connection::<S, A>::resolve_function, (conn, name, arg_count), r),
        call_ensures(Connection::<S, A>::function_for_call, (conn, name, arg_count), q),
    ensures
        ({
            let low = crate::registry::lowercase(name@);
            let functions = conn.spec_functions();
            &&& argc == arg_count && functions.contains_key((low, argc)) ==> r == Some(
                functions[(low, argc)],
            )
            &&& r is None || (r->0.spec_argc() == arg_count || r->0.spec_argc() < 0)
            &&& (argc == arg_count || (arg_count > i32::MAX && argc == 0)) && (arg_count > i32::MAX
                || !functions.contains_key((low, argc))) ==> {
                &&& functions.contains_key((low, -1i32)) ==> r == Some(functions[(low, -1i32)])
                &&& !functions.contains_key((low, -1i32)) ==> r is None
            }
            &&& r is Some ==> (q matches Ok(f) && f == r->0)
            &&& r is None && functions.contains_key((low, argc)) ==> (q matches Err(
                LimboError::ParseError(m),
            ) && m@ == "wrong number of arguments to function "@ + name@ + "()"@)
            &&& (q matches Err(LimboError::ParseError(m)) && m@ == "no such function: "@ + name@)
                || q is Ok || exists|n: i32| #[trigger] functions.contains_key((low, n))
            &&& q is Err ==> r is None && q->Err_0 is ParseError
        }),
{
}

/// A connection starts without functions, or with those of its database, at generation 0.
pub proof fn law_a_connection_starts_with_its_database<S, A>(
    fresh: Connection<S, A>,
    database: Database<S, A>,
    empty: Database<S, A>,
    conn: Connection<S, A>,
    generation: u64,
    key: (Seq<char>, i32),
)
    requires
        call_ensures(Connection::<S, A>::new, (), fresh),
        call_ensures(Database::<S, A>::new, (), empty),
        call_ensures(Database::<S, A>::connect, (&database,), conn),
        call_ensures(Connection::<S, A>::prepare_context_generation, (&conn,), generation),
    ensures
        !fresh.spec_functions().contains_key(key),
        fresh.spec_generation() == 0,
        !empty.spec_functions().contains_key(key),
        same_at(database.spec_functions(), conn.spec_functions(), key),
        generation == 0,
        conn.spec_generation() == 0,
{
}

/// What is created on a database, registered or removed there is so in its own functions.
pub proof fn law_a_database_files_like_a_connection<S, A>(
    a: &mut Database<S, A>,
    b: &mut Database<S, A>,
    c: &mut Database<S, A>,
    d: &mut Database<S, A>,
    name: &str,
    argc: i32,
    flags: FunctionFlags,
    f: S,
    g: A,
    func: Arc<ExternalFunc<S, A>>,
    created: Result<()>,
    aggregated: Result<()>,
    registered: Result<()>,
    removed: Result<()>,
    other: (Seq<char>, i32),
)
    requires
        call_ensures(Database::<S, A>::create_scalar_function, (a, name, argc, flags, f), created),
        call_ensures(
            Database::<S, A>::create_aggregate_function,
            (b, name, argc, flags, g),
            aggregated,
        ),
        call_ensures(Database::<S, A>::register_function, (c, func), registered),
        call_ensures(Database::<S, A>::remove_function, (d, name, argc), removed),
    ensures
        ({
            let key = (crate::registry::lowercase(name@), argc);
            let own = (func.spec_name(), func.spec_argc());
            &&& created is Ok <==> fits(name@, argc) && fits(key.0, argc)
            &&& created is Err || other != key ==> same_at(
                old(a).spec_functions(),
                final(a).spec_functions(),
                other,
            )
            &&& created is Ok ==> {
                &&& final(a).spec_functions().contains_key(key)
                &&& final(a).spec_functions()[key].spec_flags() == flags
                &&& final(a).spec_functions()[key].spec_name() == key.0
                &&& final(a).spec_functions()[key].spec_argc() == argc
                &&& final(a).spec_functions()[key].spec_imp() matches FunctionImpl::Scalar(s) && *s
                    == f
            }
            &&& aggregated is Ok <==> fits(name@, argc) && fits(key.0, argc)
            &&& aggregated is Err || other != key ==> same_at(
                old(b).spec_functions(),
                final(b).spec_functions(),
                other,
            )
            &&& aggregated is Ok ==> {
                &&& final(b).spec_functions().contains_key(key)
                &&& final(b).spec_functions()[key].spec_flags() == flags
                &&& final(b).spec_functions()[key].spec_name() == key.0
                &&& final(b).spec_functions()[key].spec_argc() == argc
                &&& final(b).spec_functions()[key].spec_imp() matches FunctionImpl::Aggregate(s)
                    && *s == g
            }
            &&& registered is Ok <==> fits(own.0, own.1)
            &&& registered is Err || other != own ==> same_at(
                old(c).spec_functions(),
                final(c).spec_functions(),
                other,
            )
            &&& registered is Ok ==> final(c).spec_functions().contains_key(own) && final(c).spec_functions()[own] == func
            &&& removed is Ok <==> fits(name@, argc)
            &&& removed is Err || other != key ==> same_at(
                old(d).spec_functions(),
                final(d).spec_functions(),
                other,
            )
            &&& removed is Ok ==> !final(d).spec_functions().contains_key(key)
        }),
{
}

/// From the schema a function can be used when its bit 19 is clear, and either the schema is trusted
/// or its bit 21 is set; otherwise it is said that it is unsafe there.
pub proof fn law_use_from_the_schema_goes_by_two_bits(
    name: &str,
    flags: FunctionFlags,
    bits: u32,
    trusted: bool,
    r: Result<()>,
)
    requires
        call_ensures(FunctionFlags::bits, (flags,), bits),
        call_ensures(check_usable_from_schema, (name, flags, trusted), r),
    ensures
        r is Ok <==> (bits >> 19u32) & 1u32 == 0 && (trusted || (bits >> 21u32) & 1u32 == 1),
        r matches Err(e) ==> (e matches LimboError::ParseError(m) && m@ == "unsafe use of "@ + name@
            + "()"@),
{
    assert((bits & 0x0008_0000u32 == 0x0008_0000u32) == ((bits >> 19u32) & 1u32 == 1))
        by (bit_vector);
    assert((bits >> 19u32) & 1u32 == 1 || (bits >> 19u32) & 1u32 == 0) by (bit_vector);
    assert((bits & 0x0020_0000u32 == 0x0020_0000u32) == ((bits >> 21u32) & 1u32 == 1))
        by (bit_vector);
}

/// A function is what it was made of, says which kind it is, takes its own argument count or any if
/// that is negative, and is deterministic by bit 11.
pub proof fn law_a_function_is_what_it_was_made_of<S, A>(
    name: String,
    argc: i32,
    flags: FunctionFlags,
    f: Arc<S>,
    g: Arc<A>,
    scalar: ExternalFunc<S, A>,
    aggregate: ExternalFunc<S, A>,
    bits: u32,
    count: usize,
    takes: bool,
    deterministic: bool,
    scalar_aggregates: bool,
    aggregate_aggregates: bool,
    as_scalar: Option<&Arc<S>>,
    not_scalar: Option<&Arc<S>>,
    as_aggregate: Option<&Arc<A>>,
    not_aggregate: Option<&Arc<A>>,
)
    requires
        call_ensures(ExternalFunc::<S, A>::new_scalar, (name, argc, flags, f), scalar),
        call_ensures(ExternalFunc::<S, A>::new_aggregate, (name, argc, flags, g), aggregate),
        call_ensures(FunctionFlags::bits, (flags,), bits),
        call_ensures(ExternalFunc::<S, A>::matches_arg_count, (&scalar, count), takes),
        call_ensures(ExternalFunc::<S, A>::is_deterministic, (&scalar,), deterministic),
        call_ensures(ExternalFunc::<S, A>::is_aggregate, (&scalar,), scalar_aggregates),
        call_ensures(ExternalFunc::<S, A>::is_aggregate, (&aggregate,), aggregate_aggregates),
        call_ensures(ExternalFunc::<S, A>::as_scalar, (&scalar,), as_scalar),
        call_ensures(ExternalFunc::<S, A>::as_scalar, (&aggregate,), not_scalar),
        call_ensures(ExternalFunc::<S, A>::as_aggregate, (&aggregate,), as_aggregate),
        call_ensures(ExternalFunc::<S, A>::as_aggregate, (&scalar,), not_aggregate),
    ensures
        scalar.spec_name() == name@ && aggregate.spec_name() == name@,
        scalar.spec_argc() == argc && aggregate.spec_argc() == argc,
        scalar.spec_flags() == flags && aggregate.spec_flags() == flags,
        takes <==> argc < 0 || argc == count,
        deterministic <==> (bits >> 11u32) & 1u32 == 1,
        !scalar_aggregates,
        aggregate_aggregates,
        as_scalar == Some(&f),
        not_scalar is None,
        as_aggregate == Some(&g),
        not_aggregate is None,
{
    assert((bits & 0x0000_0800u32 == 0x0000_0800u32) == ((bits >> 11u32) & 1u32 == 1))
        by (bit_vector);
}

/// What is read of a function is what is said of it.
pub proof fn law_a_function_reads_as_it_is<S, A>(
    func: &ExternalFunc<S, A>,
    name: &str,
    argc: i32,
    flags: FunctionFlags,
    imp: &FunctionImpl<S, A>,
    answer: bool,
    windows: bool,
)
    requires
        call_ensures(ExternalFunc::<S, A>::name, (func,), name),
        call_ensures(ExternalFunc::<S, A>::argc, (func,), argc),
        call_ensures(ExternalFunc::<S, A>::flags, (func,), flags),
        call_ensures(ExternalFunc::<S, A>::imp, (func,), imp),
        call_ensures(ExternalFunc::<S, A>::windows_if, (func, answer), windows),
    ensures
        name@ == func.spec_name(),
        argc == func.spec_argc(),
        flags == func.spec_flags(),
        *imp == func.spec_imp(),
        windows <==> *imp is Aggregate && answer,
{
}

/// A scalar is no window, and an aggregate is one where it says so itself.
pub proof fn law_a_window_is_what_an_aggregate_says<S, A, C, O>(func: &ExternalFunc<S, A>, r: bool) where
    A: AggregateFunction<C, O>,

    requires
        call_ensures(ExternalFunc::<S, A>::supports_window::<C, O>, (func,), r),
    ensures
        func.spec_imp() is Scalar ==> !r,
        func.spec_imp() matches FunctionImpl::Aggregate(agg) ==> call_ensures(
            A::supports_window,
            (&*agg,),
            r,
        ),
{
}

}
