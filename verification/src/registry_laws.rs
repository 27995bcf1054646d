//! What holds of registrations taken together.

use vstd::prelude::*;

use crate::flags::FunctionFlags;
use crate::function::FunctionImpl;
use crate::registry;

verus! {

/// A function can be called with the argument count it was registered with, as soon as it is.
pub proof fn law_a_registration_is_found<S, A>(
    before: registry::FunctionMap<S, A>,
    after: registry::FunctionMap<S, A>,
    name: Seq<char>,
    argc: i32,
    flags: FunctionFlags,
    imp: FunctionImpl<S, A>,
)
    requires
        argc >= 0,
        registry::created(before, after, name, argc, flags, imp),
    ensures
        registry::resolution(after, name, argc as nat) is Some,
        registry::resolution(after, name, argc as nat)->0.spec_imp() == imp,
        registry::resolution(after, name, argc as nat)->0.spec_flags() == flags,
{
}

/// A variadic function answers every argument count nobody registered on its own, and only those.
pub proof fn law_exact_counts_beat_variadic<S, A>(
    before: registry::FunctionMap<S, A>,
    after: registry::FunctionMap<S, A>,
    name: Seq<char>,
    flags: FunctionFlags,
    imp: FunctionImpl<S, A>,
    arg_count: nat,
)
    requires
        registry::created(before, after, name, -1i32, flags, imp),
    ensures
        arg_count <= i32::MAX && before.contains_key(
            (registry::lowercase(name), arg_count as i32),
        ) ==> registry::resolution(after, name, arg_count) == Some(
            before[(registry::lowercase(name), arg_count as i32)],
        ),
        !(arg_count <= i32::MAX && before.contains_key(
            (registry::lowercase(name), arg_count as i32),
        )) ==> registry::resolution(after, name, arg_count) is Some
            && registry::resolution(after, name, arg_count)->0.spec_imp() == imp,
{
}

/// Registering a function changes nothing for a call by another name, nor for a call with an
/// argument count that was registered on its own.
pub proof fn law_other_calls_are_untouched<S, A>(
    before: registry::FunctionMap<S, A>,
    after: registry::FunctionMap<S, A>,
    name: Seq<char>,
    argc: i32,
    flags: FunctionFlags,
    imp: FunctionImpl<S, A>,
    other: Seq<char>,
    arg_count: nat,
)
    requires
        registry::created(before, after, name, argc, flags, imp),
        registry::lowercase(other) != registry::lowercase(name) || (argc != arg_count
            && (argc != -1 || arg_count <= i32::MAX && before.contains_key(
            (registry::lowercase(name), arg_count as i32),
        ))),
    ensures
        registry::resolution(after, other, arg_count) == registry::resolution(
            before,
            other,
            arg_count,
        ),
{
}

/// Registering again under the same name and argument count leaves no trace of the first function.
pub proof fn law_registering_again_replaces<S, A>(
    before: registry::FunctionMap<S, A>,
    between: registry::FunctionMap<S, A>,
    after: registry::FunctionMap<S, A>,
    name: Seq<char>,
    argc: i32,
    first_flags: FunctionFlags,
    first: FunctionImpl<S, A>,
    flags: FunctionFlags,
    imp: FunctionImpl<S, A>,
)
    requires
        registry::created(before, between, name, argc, first_flags, first),
        registry::created(between, after, name, argc, flags, imp),
    ensures
        registry::created(before, after, name, argc, flags, imp),
        after.dom() == between.dom(),
{
    let key = (registry::lowercase(name), argc);
    assert(after =~= before.insert(key, after[key]));
    assert(after.dom() =~= between.dom());
}

/// Removing a function that was new undoes its registration.
pub proof fn law_removal_undoes_registration<S, A>(
    before: registry::FunctionMap<S, A>,
    after: registry::FunctionMap<S, A>,
    name: Seq<char>,
    argc: i32,
    flags: FunctionFlags,
    imp: FunctionImpl<S, A>,
)
    requires
        registry::created(before, after, name, argc, flags, imp),
        !before.contains_key((registry::lowercase(name), argc)),
    ensures
        after.remove((registry::lowercase(name), argc)) == before,
{
    assert(after.remove((registry::lowercase(name), argc)) =~= before);
}

/// Removing one argument count leaves calls with every other one, and every other name, alone.
pub proof fn law_removal_takes_one_argument_count<S, A>(
    functions: registry::FunctionMap<S, A>,
    name: Seq<char>,
    argc: i32,
    other: Seq<char>,
    arg_count: nat,
)
    requires
        argc >= 0,
        registry::lowercase(other) != registry::lowercase(name) || argc != arg_count,
    ensures
        registry::resolution(
            functions.remove((registry::lowercase(name), argc)),
            other,
            arg_count,
        ) == registry::resolution(functions, other, arg_count),
{
}

/// Once every function of a name is removed no call by that name compiles, whatever its argument
/// count, and calls by another name find what they found before.
pub proof fn law_removing_a_name_removes_every_argument_count<S, A>(
    functions: registry::FunctionMap<S, A>,
    name: Seq<char>,
    other: Seq<char>,
    arg_count: nat,
)
    ensures
        ({
            let left = functions.restrict(
                Set::new(|key: (Seq<char>, i32)| key.0 != registry::lowercase(name)),
            );
            &&& registry::resolution(left, name, arg_count) is None
            &&& !registry::named(left, registry::lowercase(name))
            &&& registry::lowercase(other) != registry::lowercase(name)
                ==> registry::resolution(left, other, arg_count)
                == registry::resolution(functions, other, arg_count)
        }),
{
}

/// A function found for a call takes that many arguments and carries the name it was called by.
pub proof fn law_resolution_fits_the_call<S, A>(
    functions: registry::FunctionMap<S, A>,
    name: Seq<char>,
    arg_count: nat,
)
    requires
        registry::filed_correctly(functions),
        registry::resolution(functions, name, arg_count) is Some,
    ensures
        registry::resolution(functions, name, arg_count)->0.accepts(arg_count),
        registry::resolution(functions, name, arg_count)->0.spec_name()
            == registry::lowercase(name),
{
}

/// A DIRECTONLY function is never usable from the schema, whatever else it claims.
pub proof fn law_directonly_is_never_usable_from_the_schema(flags: FunctionFlags, trusted: bool)
    requires
        flags.has(FunctionFlags::DIRECTONLY),
    ensures
        !registry::usable_from_schema(flags, trusted),
{
}

/// Trusting the schema only ever allows more.
pub proof fn law_trust_only_widens(flags: FunctionFlags)
    requires
        registry::usable_from_schema(flags, false),
    ensures
        registry::usable_from_schema(flags, true),
        flags.has(FunctionFlags::INNOCUOUS),
{
}

/// ASCII names that differ in case alone reach the same function. Both names have been looked up or
/// registered at least once.
pub proof fn law_case_does_not_matter<S, A>(
    functions: registry::FunctionMap<S, A>,
    a: Seq<char>,
    b: Seq<char>,
    arg_count: nat,
)
    requires
        vstd::utf8::is_ascii_chars(a),
        vstd::utf8::is_ascii_chars(b),
        registry::folded(a),
        registry::folded(b),
        registry::ascii_lowercase(a) == registry::ascii_lowercase(b),
    ensures
        registry::resolution(functions, a, arg_count) == registry::resolution(
            functions,
            b,
            arg_count,
        ),
{
}

/// A function registered on a database is found by a connection opened afterwards, unless the
/// connection registered its own under the same name and argument count: then it finds that one.
pub proof fn law_a_connection_inherits_and_shadows<S, A>(
    before: registry::FunctionMap<S, A>,
    seed: registry::FunctionMap<S, A>,
    own: registry::FunctionMap<S, A>,
    name: Seq<char>,
    argc: i32,
    flags: FunctionFlags,
    inherited: FunctionImpl<S, A>,
    private: FunctionImpl<S, A>,
)
    requires
        argc >= 0,
        registry::created(before, seed, name, argc, flags, inherited),
        registry::created(seed, own, name, argc, flags, private),
    ensures
        registry::resolution(seed, name, argc as nat)->0.spec_imp() == inherited,
        registry::resolution(own, name, argc as nat)->0.spec_imp() == private,
{
}

/// Every change to a connection's functions gives it another generation, so a statement compiled
/// before the change is told from one compiled after it.
pub proof fn law_a_change_is_noticed(generation: u64)
    ensures
        registry::next_generation(generation) != generation,
{
}

}
