//! Registering functions on a connection or on a database, and finding the one a call names.

use std::sync::Arc;
use vstd::prelude::*;

use crate::error::{LimboError, Result};
use crate::flags::FunctionFlags;
use crate::function::{BoxedAggregate, BoxedScalar, ExternalFunc, FunctionImpl};
use crate::table::NamedTable;
use crate::text::{join2, join3, push_decimal};

verus! {

/// The most arguments a function may declare.
pub const MAX_FUNCTION_ARG: i32 = 127;

/// The longest function name, in bytes of UTF-8.
pub const MAX_FUNCTION_NAME_LEN: usize = 255;

/// The lower-case form of a text, as [`str::to_lowercase`] gives it.
pub uninterp spec fn lowercase(s: Seq<char>) -> Seq<char>;

/// An ASCII text in lower case.
pub open spec fn ascii_lowercase(s: Seq<char>) -> Seq<char> {
    Seq::new(
        s.len(),
        |i: int|
            if 'A' <= s[i] <= 'Z' {
                ((s[i] as u32 + 32) as u32) as char
            } else {
                s[i]
            },
    )
}

/// Calls [`str::to_lowercase`]. Claimed of it: the result is a function of the text alone, and for
/// a text that is all ASCII only the letters `A` to `Z` change.
#[verifier::external_body]
pub(crate) fn normalize_ident(name: &str) -> (r: String)
    ensures
        r@ == lowercase(name@),
        vstd::utf8::is_ascii_chars(name@) ==> r@ == ascii_lowercase(name@),
{
    name.to_lowercase()
}

/// Whether an ASCII name is filed under its ASCII lower-case form.
pub open spec fn folded(name: Seq<char>) -> bool {
    vstd::utf8::is_ascii_chars(name) ==> lowercase(name) == ascii_lowercase(name)
}

/// How many bytes a text takes in UTF-8.
pub open spec fn byte_len(s: Seq<char>) -> nat {
    vstd::utf8::encode_utf8(s).len()
}

/// What is wrong with registering a function under this name with this argument count, if anything.
pub open spec fn registration_error(name: Seq<char>, argc: i32) -> Option<
    crate::error::ErrorView,
> {
    if byte_len(name) == 0 {
        Some(crate::error::ErrorView::InvalidArgument("function name may not be empty"@))
    } else if byte_len(name) > MAX_FUNCTION_NAME_LEN {
        Some(
            crate::error::ErrorView::InvalidArgument("function name is longer than 255 bytes"@),
        )
    } else if !(-1 <= argc <= MAX_FUNCTION_ARG) {
        Some(
            crate::error::ErrorView::InvalidArgument(
                "function argument count must be between -1 and 127, got "@ + crate::text::decimal(
                    argc as int,
                ),
            ),
        )
    } else {
        None
    }
}

/// Whether a result is `Ok` exactly when nothing is wrong, and otherwise that very error.
pub open spec fn reports<T>(r: Result<T>, wrong: Option<crate::error::ErrorView>) -> bool {
    match r {
        Ok(_) => wrong is None,
        Err(e) => wrong == Some(e@),
    }
}

/// Checks a name and an argument count before anything is registered under them.
pub fn validate_registration(name: &str, argc: i32) -> (r: Result<()>)
    ensures
        reports(r, registration_error(name@, argc)),
{
    let len: usize = name.as_bytes().len();
    if len == 0 {
        return Err(LimboError::InvalidArgument("function name may not be empty".to_owned()));
    }
    if len > MAX_FUNCTION_NAME_LEN {
        return Err(
            LimboError::InvalidArgument("function name is longer than 255 bytes".to_owned()),
        );
    }
    if argc < -1 || argc > MAX_FUNCTION_ARG {
        let mut message: String =
            "function argument count must be between -1 and 127, got ".to_owned();
        push_decimal(&mut message, argc as i64);
        return Err(LimboError::InvalidArgument(message));
    }
    Ok(())
}

/// The functions registered on one connection or one database.
pub type FunctionMap<S, A> = Map<(Seq<char>, i32), Arc<ExternalFunc<S, A>>>;

/// What is wrong with registering under a name that is normalized on the way in: the name as given
/// is checked, and then the name it is stored under.
pub open spec fn creation_error(name: Seq<char>, argc: i32) -> Option<crate::error::ErrorView> {
    match registration_error(name, argc) {
        Some(e) => Some(e),
        None => registration_error(lowercase(name), argc),
    }
}

/// Which registration a call of `name` with `arg_count` arguments reaches: the one with exactly that
/// many, or else the one that takes any number.
pub open spec fn resolution<S, A>(
    functions: FunctionMap<S, A>,
    name: Seq<char>,
    arg_count: nat,
) -> Option<Arc<ExternalFunc<S, A>>> {
    if arg_count <= i32::MAX && functions.contains_key((lowercase(name), arg_count as i32)) {
        Some(functions[(lowercase(name), arg_count as i32)])
    } else if functions.contains_key((lowercase(name), -1i32)) {
        Some(functions[(lowercase(name), -1i32)])
    } else {
        None
    }
}

/// Every entry is filed under the name and the argument count of its own function, both of which a
/// registration accepts.
pub open spec fn filed_correctly<S, A>(functions: FunctionMap<S, A>) -> bool {
    forall|key: (Seq<char>, i32)| #[trigger]
        functions.contains_key(key) ==> functions[key].spec_name() == key.0
            && functions[key].spec_argc() == key.1 && registration_error(key.0, key.1) is None
}

/// The functions a statement of one connection can call: `S` is what its scalar functions are, `A`
/// what its aggregates are.
#[verifier::reject_recursive_types(S)]
#[verifier::reject_recursive_types(A)]
pub struct Connection<S, A> {
    functions: NamedTable<Arc<ExternalFunc<S, A>>>,
    /// Prepared statements compiled under another generation are compiled again before they run.
    generation: u64,
}

/// The generation that follows; counting starts over once every number was used.
pub open spec fn next_generation(generation: u64) -> u64 {
    if generation == u64::MAX {
        0
    } else {
        (generation + 1) as u64
    }
}

/// The generation after that many changes.
pub open spec fn advanced(generation: u64, changes: nat) -> u64
    decreases changes,
{
    if changes == 0 {
        generation
    } else {
        next_generation(advanced(generation, (changes - 1) as nat))
    }
}

impl<S, A> Connection<S, A> {
    /// What is registered, by normalized name and argument count.
    pub closed spec fn spec_functions(&self) -> FunctionMap<S, A> {
        self.functions@
    }

    pub closed spec fn spec_generation(&self) -> u64 {
        self.generation
    }

    #[verifier::type_invariant]
    spec fn well_formed(&self) -> bool {
        filed_correctly(self.functions@)
    }

    /// A connection with no function of its own.
    pub fn new() -> (r: Self)
        ensures
            r.spec_functions() == Map::<(Seq<char>, i32), Arc<ExternalFunc<S, A>>>::empty(),
            r.spec_generation() == 0,
    {
        Connection { functions: NamedTable::new(), generation: 0 }
    }

    /// Which generation statements are compiled under now.
    pub fn prepare_context_generation(&self) -> (r: u64)
        ensures
            r == self.spec_generation(),
    {
        self.generation
    }

    fn store(&mut self, functions: NamedTable<Arc<ExternalFunc<S, A>>>)
        requires
            filed_correctly(functions@),
        ensures
            final(self).spec_functions() == functions@,
            final(self).spec_generation() == next_generation(old(self).spec_generation()),
    {
        let generation: u64 = self.generation.wrapping_add(1);
        *self = Connection { functions, generation };
    }

    /// Registers a scalar function, in place of one with the same name and argument count.
    pub fn create_scalar_function(
        &mut self,
        name: &str,
        argc: i32,
        flags: FunctionFlags,
        f: S,
    ) -> (r: Result<()>)
        ensures
            reports(r, creation_error(name@, argc)),
            registration_error(name@, argc) is None ==> folded(name@),
            r is Err ==> *final(self) == *old(self),
            r is Ok ==> created(
                old(self).spec_functions(),
                final(self).spec_functions(),
                name@,
                argc,
                flags,
                FunctionImpl::Scalar(Arc::new(f)),
            ),
            r is Ok ==> final(self).spec_generation() == next_generation(
                old(self).spec_generation(),
            ),
    {
        self.create_function(name, argc, flags, FunctionImpl::Scalar(Arc::new(f)))
    }

    /// Registers an aggregate function, in place of one with the same name and argument count.
    pub fn create_aggregate_function(
        &mut self,
        name: &str,
        argc: i32,
        flags: FunctionFlags,
        f: A,
    ) -> (r: Result<()>)
        ensures
            reports(r, creation_error(name@, argc)),
            registration_error(name@, argc) is None ==> folded(name@),
            r is Err ==> *final(self) == *old(self),
            r is Ok ==> created(
                old(self).spec_functions(),
                final(self).spec_functions(),
                name@,
                argc,
                flags,
                FunctionImpl::Aggregate(Arc::new(f)),
            ),
            r is Ok ==> final(self).spec_generation() == next_generation(
                old(self).spec_generation(),
            ),
    {
        self.create_function(name, argc, flags, FunctionImpl::Aggregate(Arc::new(f)))
    }

    /// Registers a function of either kind under the normalized name.
    pub fn create_function(
        &mut self,
        name: &str,
        argc: i32,
        flags: FunctionFlags,
        imp: FunctionImpl<S, A>,
    ) -> (r: Result<()>)
        ensures
            reports(r, creation_error(name@, argc)),
            registration_error(name@, argc) is None ==> folded(name@),
            r is Err ==> *final(self) == *old(self),
            r is Ok ==> created(
                old(self).spec_functions(),
                final(self).spec_functions(),
                name@,
                argc,
                flags,
                imp,
            ),
            r is Ok ==> final(self).spec_generation() == next_generation(
                old(self).spec_generation(),
            ),
    {
        match validate_registration(name, argc) {
            Err(e) => Err(e),
            Ok(()) => {
                let normalized = normalize_ident(name);
                let func = match imp {
                    FunctionImpl::Scalar(f) => ExternalFunc::new_scalar(normalized, argc, flags, f),
                    FunctionImpl::Aggregate(f) => ExternalFunc::new_aggregate(
                        normalized,
                        argc,
                        flags,
                        f,
                    ),
                };
                self.register_function(Arc::new(func))
            },
        }
    }

    /// Registers a function that was built elsewhere. The name is used as given; callers must
    /// normalize it first.
    pub fn register_function(&mut self, func: Arc<ExternalFunc<S, A>>) -> (r: Result<()>)
        ensures
            reports(r, registration_error(func.spec_name(), func.spec_argc())),
            r is Err ==> *final(self) == *old(self),
            r is Ok ==> registered(*old(self), *final(self), func),
    {
        proof {
            use_type_invariant(&*self);
        }
        match validate_registration(func.name(), func.argc()) {
            Err(e) => Err(e),
            Ok(()) => {
                let name: String = func.name().to_owned();
                let argc: i32 = func.argc();
                let mut functions = self.functions.snapshot();
                let _ = functions.insert(name, argc, func);
                self.store(functions);
                Ok(())
            },
        }
    }

    /// Removes the function with that name and argument count. Removing one that was never
    /// registered is not an error.
    pub fn remove_function(&mut self, name: &str, argc: i32) -> (r: Result<()>)
        ensures
            reports(r, registration_error(name@, argc)),
            r is Ok ==> folded(name@),
            r is Ok && old(self).spec_functions().contains_key((lowercase(name@), argc)) ==> {
                &&& final(self).spec_functions() == old(self).spec_functions().remove(
                    (lowercase(name@), argc),
                )
                &&& final(self).spec_generation() == next_generation(old(self).spec_generation())
            },
            !(r is Ok && old(self).spec_functions().contains_key((lowercase(name@), argc)))
                ==> *final(self) == *old(self),
    {
        proof {
            use_type_invariant(&*self);
        }
        match validate_registration(name, argc) {
            Err(e) => Err(e),
            Ok(()) => {
                let normalized = normalize_ident(name);
                if self.functions.contains(normalized.as_str(), argc) {
                    let mut functions = self.functions.snapshot();
                    let _ = functions.remove(normalized.as_str(), argc);
                    self.store(functions);
                }
                Ok(())
            },
        }
    }

    /// Removes every function with that name, whatever its argument count; says whether there was
    /// one.
    pub fn remove_all_functions_named(&mut self, name: &str) -> (r: bool)
        ensures
            r == named(old(self).spec_functions(), lowercase(name@)),
            folded(name@),
            !r ==> *final(self) == *old(self),
            r ==> {
                &&& final(self).spec_functions() == old(self).spec_functions().restrict(
                    Set::new(|key: (Seq<char>, i32)| key.0 != lowercase(name@)),
                )
                &&& final(self).spec_generation() == next_generation(old(self).spec_generation())
            },
    {
        proof {
            use_type_invariant(&*self);
        }
        let normalized = normalize_ident(name);
        let removed = self.functions.contains_name(normalized.as_str());
        if removed {
            let mut functions = self.functions.snapshot();
            let _ = functions.remove_named(normalized.as_str());
            self.store(functions);
        }
        removed
    }

    /// The function a call of `name` with `arg_count` arguments reaches.
    pub fn resolve_function(&self, name: &str, arg_count: usize) -> (r: Option<
        Arc<ExternalFunc<S, A>>,
    >)
        ensures
            r == resolution(self.spec_functions(), name@, arg_count as nat),
            r matches Some(func) ==> func.accepts(arg_count as nat),
            folded(name@),
    {
        proof {
            use_type_invariant(self);
        }
        let normalized = normalize_ident(name);
        if arg_count <= i32::MAX as usize {
            if let Some(func) = self.functions.get(normalized.as_str(), arg_count as i32) {
                return Some(func.clone());
            }
        }
        match self.functions.get(normalized.as_str(), -1) {
            Some(func) => Some(func.clone()),
            None => None,
        }
    }

    /// The function a call of `name` with `arg_count` arguments reaches, or why the call does not
    /// compile: nobody registered the name, or nobody did with that many arguments.
    pub fn function_for_call(&self, name: &str, arg_count: usize) -> (r: Result<
        Arc<ExternalFunc<S, A>>,
    >)
        ensures
            folded(name@),
            match resolution(self.spec_functions(), name@, arg_count as nat) {
                Some(func) => r == Ok::<Arc<ExternalFunc<S, A>>, LimboError>(func),
                None => r is Err && r->Err_0@ == crate::error::ErrorView::ParseError(
                    if named(self.spec_functions(), lowercase(name@)) {
                        "wrong number of arguments to function "@ + name@ + "()"@
                    } else {
                        "no such function: "@ + name@
                    },
                ),
            },
    {
        match self.resolve_function(name, arg_count) {
            Some(func) => Ok(func),
            None => {
                let normalized = normalize_ident(name);
                if self.functions.contains_name(normalized.as_str()) {
                    Err(
                        LimboError::ParseError(
                            join3("wrong number of arguments to function ", name, "()"),
                        ),
                    )
                } else {
                    Err(LimboError::ParseError(join2("no such function: ", name)))
                }
            },
        }
    }
}

/// Whether anything is registered under a normalized name.
pub open spec fn named<S, A>(functions: FunctionMap<S, A>, name: Seq<char>) -> bool {
    exists|argc: i32| #[trigger] functions.contains_key((name, argc))
}

/// Whether registering `func` on the connection `before` gives the connection `after`.
pub open spec fn registered<S, A>(
    before: Connection<S, A>,
    after: Connection<S, A>,
    func: Arc<ExternalFunc<S, A>>,
) -> bool {
    &&& after.spec_functions() == before.spec_functions().insert(
        (func.spec_name(), func.spec_argc()),
        func,
    )
    &&& after.spec_generation() == next_generation(before.spec_generation())
}

/// Whether `after` is `before` with a function of these properties registered under the normalized
/// name, in place of the one that had the same name and argument count.
pub open spec fn created<S, A>(
    before: FunctionMap<S, A>,
    after: FunctionMap<S, A>,
    name: Seq<char>,
    argc: i32,
    flags: FunctionFlags,
    imp: FunctionImpl<S, A>,
) -> bool {
    let key = (lowercase(name), argc);
    let func = after[key];
    &&& after == before.insert(key, func)
    &&& func.spec_name() == key.0
    &&& func.spec_argc() == argc
    &&& func.spec_flags() == flags
    &&& func.spec_imp() == imp
}

/// A connection that takes functions of any type.
pub type OpenConnection<C, O> = Connection<BoxedScalar<C, O>, BoxedAggregate<C, O>>;

/// A database, whose functions every connection opened from now on starts out with.
#[verifier::reject_recursive_types(S)]
#[verifier::reject_recursive_types(A)]
pub struct Database<S, A> {
    seed: Connection<S, A>,
}

impl<S, A> Database<S, A> {
    /// The functions a connection opened now would start out with.
    pub closed spec fn spec_functions(&self) -> FunctionMap<S, A> {
        self.seed.spec_functions()
    }

    pub fn new() -> (r: Self)
        ensures
            r.spec_functions() == Map::<(Seq<char>, i32), Arc<ExternalFunc<S, A>>>::empty(),
    {
        Database { seed: Connection::new() }
    }

    /// Opens a connection, which gets its own copy of the function table.
    pub fn connect(&self) -> (r: Connection<S, A>)
        ensures
            r.spec_functions() == self.spec_functions(),
            r.spec_generation() == 0,
    {
        proof {
            use_type_invariant(&self.seed);
        }
        Connection { functions: self.seed.functions.snapshot(), generation: 0 }
    }

    /// Registers a scalar function for connections opened from now on.
    pub fn create_scalar_function(
        &mut self,
        name: &str,
        argc: i32,
        flags: FunctionFlags,
        f: S,
    ) -> (r: Result<()>)
        ensures
            reports(r, creation_error(name@, argc)),
            registration_error(name@, argc) is None ==> folded(name@),
            r is Err ==> final(self).spec_functions() == old(self).spec_functions(),
            r is Ok ==> created(
                old(self).spec_functions(),
                final(self).spec_functions(),
                name@,
                argc,
                flags,
                FunctionImpl::Scalar(Arc::new(f)),
            ),
    {
        self.seed.create_function(name, argc, flags, FunctionImpl::Scalar(Arc::new(f)))
    }

    /// Registers an aggregate function for connections opened from now on.
    pub fn create_aggregate_function(
        &mut self,
        name: &str,
        argc: i32,
        flags: FunctionFlags,
        f: A,
    ) -> (r: Result<()>)
        ensures
            reports(r, creation_error(name@, argc)),
            registration_error(name@, argc) is None ==> folded(name@),
            r is Err ==> final(self).spec_functions() == old(self).spec_functions(),
            r is Ok ==> created(
                old(self).spec_functions(),
                final(self).spec_functions(),
                name@,
                argc,
                flags,
                FunctionImpl::Aggregate(Arc::new(f)),
            ),
    {
        self.seed.create_function(name, argc, flags, FunctionImpl::Aggregate(Arc::new(f)))
    }

    /// Registers a function that was built elsewhere for connections opened from now on.
    pub fn register_function(&mut self, func: Arc<ExternalFunc<S, A>>) -> (r: Result<()>)
        ensures
            reports(r, registration_error(func.spec_name(), func.spec_argc())),
            r is Err ==> final(self).spec_functions() == old(self).spec_functions(),
            r is Ok ==> final(self).spec_functions() == old(self).spec_functions().insert(
                (func.spec_name(), func.spec_argc()),
                func,
            ),
    {
        self.seed.register_function(func)
    }

    /// Removes a function from what connections opened from now on start out with.
    pub fn remove_function(&mut self, name: &str, argc: i32) -> (r: Result<()>)
        ensures
            reports(r, registration_error(name@, argc)),
            r is Ok ==> folded(name@),
            r is Err ==> final(self).spec_functions() == old(self).spec_functions(),
            r is Ok ==> final(self).spec_functions() == old(self).spec_functions().remove(
                (lowercase(name@), argc),
            ),
    {
        let r = self.seed.remove_function(name, argc);
        proof {
            let key = (lowercase(name@), argc);
            if !old(self).spec_functions().contains_key(key) {
                assert(old(self).spec_functions().remove(key) =~= old(self).spec_functions());
            }
        }
        r
    }
}

/// A database that takes functions of any type.
pub type OpenDatabase<C, O> = Database<BoxedScalar<C, O>, BoxedAggregate<C, O>>;

/// Whether a function may be used by the schema itself: triggers, views, CHECK, DEFAULT, generated
/// columns, index expressions.
pub open spec fn usable_from_schema(flags: FunctionFlags, trusted_schema: bool) -> bool {
    !flags.has(FunctionFlags::DIRECTONLY) && (trusted_schema || flags.has(FunctionFlags::INNOCUOUS))
}

/// Refuses a function the schema may not use: one that is DIRECTONLY never is allowed there, and
/// with `trusted_schema` off only one that is INNOCUOUS is.
pub fn check_usable_from_schema(name: &str, flags: FunctionFlags, trusted_schema: bool) -> (r:
    Result<()>)
    ensures
        r is Ok <==> usable_from_schema(flags, trusted_schema),
        r is Err ==> r->Err_0@ == crate::error::ErrorView::ParseError(
            "unsafe use of "@ + name@ + "()"@,
        ),
{
    let direct_only = flags.contains(FunctionFlags::DIRECTONLY);
    let untrusted = !trusted_schema && !flags.contains(FunctionFlags::INNOCUOUS);
    if direct_only || untrusted {
        return Err(LimboError::ParseError(join3("unsafe use of ", name, "()")));
    }
    Ok(())
}

}
