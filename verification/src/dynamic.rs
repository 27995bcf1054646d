//! Loading extensions: which versions of the interface the host accepts, the steps of a load, and
//! the file systems extensions add.

use vstd::prelude::*;

use crate::error::{LimboError, Result};
use crate::text::{push_decimal, str_eq};
use crate::utf16::from_utf8;

verus! {

/// The version of the interface this host offers. Fields are only ever appended to it, and every
/// such change raises the version.
pub const TURSO_EXT_API_VERSION: u32 = 2;

/// The message of an extension that was built for a newer interface than the host has.
pub open spec fn too_new(version: u32, host: u32) -> Seq<char> {
    "extension built for turso_ext ABI v"@ + crate::text::decimal(version as int)
        + ", this build supports v"@ + crate::text::decimal(host as int)
}

/// The version of the interface an extension speaks. One that reports none speaks the first. An
/// older one is fine, because the interface only grows; a newer one may expect what this host lacks.
pub fn extension_abi_version(reported: Option<u32>, host: u32) -> (r: Result<u32>)
    ensures
        ({
            let version = match reported {
                Some(v) => v,
                None => 1,
            };
            match r {
                Ok(v) => version <= host && v == version,
                Err(e) => version > host && e@ == crate::error::ErrorView::ExtensionError(
                    too_new(version, host),
                ),
            }
        }),
{
    let version: u32 = match reported {
        Some(v) => v,
        None => 1,
    };
    if version > host {
        let mut message: String = "extension built for turso_ext ABI v".to_owned();
        push_decimal(&mut message, version as i64);
        message.append(", this build supports v");
        push_decimal(&mut message, host as i64);
        return Err(LimboError::ExtensionError(message));
    }
    Ok(version)
}

/// What a load waits for.
#[derive(Clone, Copy, Debug, PartialEq, Eq, Structural)]
pub enum LoadState {
    /// The library to open.
    Opening,
    /// The version the library reports.
    Asking,
    /// The entry point to be found, with an interface of this version built.
    Finding(u32),
    /// The entry point to return, having been handed an interface of this version.
    Registering(u32),
    /// The library to be kept for as long as the process runs.
    Keeping,
    /// The schema to be parsed again, now that its functions may be known.
    Reparsing,
    /// Nothing: the load is over.
    Over,
}

/// What came of it.
#[derive(Debug)]
pub enum LoadEvent {
    /// The library was opened, or could not be and why.
    Opened(core::result::Result<(), String>),
    /// The version it reports, if any.
    Version(Option<u32>),
    /// The entry point was found, or was not and why.
    Found(core::result::Result<(), String>),
    /// The entry point returned, with success or without.
    Returned(bool),
    /// Whether the list of loaded libraries could be locked to keep the library in.
    Kept(bool),
    /// The schema was parsed again, or could not be.
    Reparsed(Result<()>),
}

/// What to do next.
#[derive(Debug)]
pub enum LoadAction {
    /// Ask the library for the version it reports.
    AskVersion,
    /// Build an interface of this version and look for the entry point.
    BuildAndFind(u32),
    /// Call the entry point with the interface.
    Enter,
    /// Keep the library and the interface it was handed.
    Keep,
    /// Parse the schema again.
    Reparse,
    /// Free the interface the extension would not register with, and end with an error.
    FreeAndFail(LimboError),
    /// End the load.
    Finish(Result<()>),
}

/// Whether an event is one that a state waits for.
pub open spec fn awaited(state: LoadState, event: LoadEvent) -> bool {
    match state {
        LoadState::Opening => event is Opened,
        LoadState::Asking => event is Version,
        LoadState::Finding(_) => event is Found,
        LoadState::Registering(_) => event is Returned,
        LoadState::Keeping => event is Kept,
        LoadState::Reparsing => event is Reparsed,
        LoadState::Over => false,
    }
}

/// Whether `action` ends a load with an extension error of this message.
pub open spec fn fails_with(action: LoadAction, message: Seq<char>) -> bool {
    action matches LoadAction::Finish(Err(e)) && e@ == crate::error::ErrorView::ExtensionError(
        message,
    )
}

/// Whether `next` and `action` are what follows on an event.
pub open spec fn load_follows(
    state: LoadState,
    event: LoadEvent,
    host: u32,
    db_initialized: bool,
    next: LoadState,
    action: LoadAction,
) -> bool {
    match event {
        LoadEvent::Opened(Ok(_)) => next == LoadState::Asking && action is AskVersion,
        LoadEvent::Opened(Err(m)) => next == LoadState::Over && fails_with(action, m@),
        LoadEvent::Version(reported) => {
            let version = match reported {
                Some(v) => v,
                None => 1,
            };
            if version <= host {
                next == LoadState::Finding(version) && action == LoadAction::BuildAndFind(version)
            } else {
                next == LoadState::Over && fails_with(action, too_new(version, host))
            }
        },
        LoadEvent::Found(Ok(_)) => next == LoadState::Registering(state->Finding_0)
            && action is Enter,
        LoadEvent::Found(Err(m)) => next == LoadState::Over && fails_with(action, m@),
        LoadEvent::Returned(true) => next == LoadState::Keeping && action is Keep,
        LoadEvent::Returned(false) => {
            &&& next == LoadState::Over
            &&& action matches LoadAction::FreeAndFail(e) && e@
                == crate::error::ErrorView::ExtensionError("Extension registration failed"@)
        },
        LoadEvent::Kept(false) => {
            next == LoadState::Over && fails_with(action, "Error locking extension libraries"@)
        },
        LoadEvent::Kept(true) => if db_initialized {
            next == LoadState::Reparsing && action is Reparse
        } else {
            next == LoadState::Over && action == LoadAction::Finish(Ok(()))
        },
        LoadEvent::Reparsed(r) => next == LoadState::Over && action == LoadAction::Finish(r),
    }
}

/// One step of loading an extension: what to do on what just happened. The load starts by opening
/// the library, in the state `Opening`.
pub fn load_extension(
    state: LoadState,
    event: LoadEvent,
    host: u32,
    db_initialized: bool,
) -> (r: (LoadState, LoadAction))
    requires
        awaited(state, event),
    ensures
        load_follows(state, event, host, db_initialized, r.0, r.1),
{
    match event {
        LoadEvent::Opened(Ok(())) => (LoadState::Asking, LoadAction::AskVersion),
        LoadEvent::Opened(Err(m)) => (
            LoadState::Over,
            LoadAction::Finish(Err(LimboError::ExtensionError(m))),
        ),
        LoadEvent::Version(reported) => match extension_abi_version(reported, host) {
            Ok(version) => (LoadState::Finding(version), LoadAction::BuildAndFind(version)),
            Err(e) => (LoadState::Over, LoadAction::Finish(Err(e))),
        },
        LoadEvent::Found(Ok(())) => match state {
            LoadState::Finding(version) => (LoadState::Registering(version), LoadAction::Enter),
            _ => (LoadState::Over, LoadAction::Finish(Ok(()))),
        },
        LoadEvent::Found(Err(m)) => (
            LoadState::Over,
            LoadAction::Finish(Err(LimboError::ExtensionError(m))),
        ),
        LoadEvent::Returned(ok) => if ok {
            (LoadState::Keeping, LoadAction::Keep)
        } else {
            (
                LoadState::Over,
                LoadAction::FreeAndFail(
                    LimboError::ExtensionError("Extension registration failed".to_owned()),
                ),
            )
        },
        LoadEvent::Kept(kept) => if !kept {
            (
                LoadState::Over,
                LoadAction::Finish(
                    Err(LimboError::ExtensionError("Error locking extension libraries".to_owned())),
                ),
            )
        } else if db_initialized {
            (LoadState::Reparsing, LoadAction::Reparse)
        } else {
            (LoadState::Over, LoadAction::Finish(Ok(())))
        },
        LoadEvent::Reparsed(r) => (LoadState::Over, LoadAction::Finish(r)),
    }
}

/// What an extension returns to the host.
#[derive(Clone, Copy, Debug, PartialEq, Eq, Structural)]
pub enum ResultCode {
    OK,
    Error,
}

/// A file system an extension supplies, by the address of its implementation.
#[derive(Clone, Copy, Debug, PartialEq, Eq, Structural)]
pub struct VfsMod {
    pub ctx: usize,
}

/// The file systems extensions have added, in the order they came; no name is there twice.
pub struct VfsModules {
    modules: Vec<(String, VfsMod)>,
}

/// Named file systems as their names and implementations.
pub open spec fn module_views(modules: Seq<(String, VfsMod)>) -> Seq<(Seq<char>, VfsMod)> {
    Seq::new(modules.len(), |i: int| (modules[i].0@, modules[i].1))
}

/// Whether a file system of that name is among them.
pub open spec fn has_module(modules: Seq<(Seq<char>, VfsMod)>, name: Seq<char>) -> bool {
    exists|i: int| 0 <= i < modules.len() && (#[trigger] modules[i]).0 == name
}

/// Whether no name is among them twice.
pub open spec fn distinct_names(modules: Seq<(Seq<char>, VfsMod)>) -> bool {
    forall|i: int, j: int|
        0 <= i < j < modules.len() ==> (#[trigger] modules[i]).0 != (#[trigger] modules[j]).0
}

impl View for VfsModules {
    type V = Seq<(Seq<char>, VfsMod)>;

    closed spec fn view(&self) -> Seq<(Seq<char>, VfsMod)> {
        module_views(self.modules@)
    }
}

impl VfsModules {
    pub fn new() -> (r: Self)
        ensures
            r@ == Seq::<(Seq<char>, VfsMod)>::empty(),
            distinct_names(r@),
    {
        let r = VfsModules { modules: Vec::new() };
        assert(r@ =~= Seq::<(Seq<char>, VfsMod)>::empty());
        r
    }

    /// Adds a file system, unless there is one of that name already: the first one stays.
    pub fn add_vfs_module(&mut self, name: String, vfs: VfsMod)
        ensures
            final(self)@ == (if has_module(old(self)@, name@) {
                old(self)@
            } else {
                old(self)@.push((name@, vfs))
            }),
            distinct_names(old(self)@) ==> distinct_names(final(self)@),
    {
        let mut i: usize = 0;
        while i < self.modules.len()
            invariant
                i <= self.modules@.len(),
                *self == *old(self),
                forall|j: int| 0 <= j < i ==> (#[trigger] self@[j]).0 != name@,
            decreases self.modules@.len() - i,
        {
            if str_eq(self.modules[i].0.as_str(), name.as_str()) {
                assert(self@[i as int].0 == name@);
                return;
            }
            assert(self@[i as int].0 != name@);
            i += 1;
        }
        assert(!has_module(old(self)@, name@));
        self.modules.push((name, vfs));
        assert(self@ =~= old(self)@.push((name@, vfs)));
    }

    /// The names, in the order they came.
    pub fn list_vfs_modules(&self) -> (r: Vec<String>)
        ensures
            r@.len() == self@.len(),
            forall|i: int| 0 <= i < r@.len() ==> (#[trigger] r@[i])@ == self@[i].0,
    {
        let mut out: Vec<String> = Vec::new();
        let mut i: usize = 0;
        while i < self.modules.len()
            invariant
                i <= self.modules@.len(),
                out@.len() == i,
                forall|j: int| 0 <= j < i ==> (#[trigger] out@[j])@ == self@[j].0,
            decreases self.modules@.len() - i,
        {
            out.push(self.modules[i].0.clone());
            i += 1;
        }
        out
    }

    /// The names and implementations, in the order they came.
    pub fn get_vfs_modules(&self) -> (r: Vec<(String, VfsMod)>)
        ensures
            module_views(r@) == self@,
    {
        let mut out: Vec<(String, VfsMod)> = Vec::new();
        let mut i: usize = 0;
        while i < self.modules.len()
            invariant
                i <= self.modules@.len(),
                module_views(out@) == self@.take(i as int),
            decreases self.modules@.len() - i,
        {
            let ghost before = out@;
            out.push((self.modules[i].0.clone(), self.modules[i].1));
            proof {
                assert(module_views(out@) =~= module_views(before).push(self@[i as int]));
                assert(self@.take(i + 1) =~= self@.take(i as int).push(self@[i as int]));
            }
            i += 1;
        }
        assert(self@.take(self@.len() as int) =~= self@);
        out
    }

    /// Adds a file system an extension supplies. There must be a name, in UTF-8, and an
    /// implementation.
    pub fn register_vfs(&mut self, name: Option<&[u8]>, vfs: usize) -> (r: ResultCode)
        ensures
            ({
                let accepted = name is Some && vfs != 0 && vstd::utf8::valid_utf8(name->0@);
                &&& r == (if accepted {
                    ResultCode::OK
                } else {
                    ResultCode::Error
                })
                &&& final(self)@ == (if accepted && !has_module(
                    old(self)@,
                    vstd::utf8::decode_utf8(name->0@),
                ) {
                    old(self)@.push((vstd::utf8::decode_utf8(name->0@), VfsMod { ctx: vfs }))
                } else {
                    old(self)@
                })
                &&& distinct_names(old(self)@) ==> distinct_names(final(self)@)
            }),
    {
        if vfs == 0 {
            return ResultCode::Error;
        }
        match name {
            None => ResultCode::Error,
            Some(bytes) => match from_utf8(bytes) {
                None => ResultCode::Error,
                Some(name) => {
                    self.add_vfs_module(name, VfsMod { ctx: vfs });
                    ResultCode::OK
                },
            },
        }
    }
}

/// A file system that was built in at compile time.
#[derive(Debug)]
pub struct BuiltinVfs {
    pub name: Vec<u8>,
    pub ctx: usize,
}

/// Whether every file system in a list has a UTF-8 name; empty places do not count.
pub open spec fn names_are_utf8(list: Seq<Option<BuiltinVfs>>) -> bool {
    forall|i: int|
        0 <= i < list.len() && (#[trigger] list[i]) is Some ==> vstd::utf8::valid_utf8(
            list[i]->0.name@,
        )
}

/// The file systems in a list, in their order and without the empty places.
pub open spec fn builtin_modules(list: Seq<Option<BuiltinVfs>>) -> Seq<(Seq<char>, VfsMod)>
    decreases list.len(),
{
    if list.len() == 0 {
        Seq::empty()
    } else {
        let before = builtin_modules(list.drop_last());
        match list.last() {
            Some(vfs) => before.push(
                (vstd::utf8::decode_utf8(vfs.name@), VfsMod { ctx: vfs.ctx }),
            ),
            None => before,
        }
    }
}

/// The file systems that were built in at compile time. `list` is what the built-in extensions left
/// in the host's table; a place in it may be empty.
pub fn add_builtin_vfs_extensions(list: &[Option<BuiltinVfs>]) -> (r: Result<Vec<(String, VfsMod)>>)
    ensures
        r is Ok <==> names_are_utf8(list@),
        match r {
            Ok(modules) => module_views(modules@) == builtin_modules(list@),
            Err(e) => e@ == crate::error::ErrorView::ExtensionError(
                "unable to register vfs extension"@,
            ),
        },
{
    let mut modules: Vec<(String, VfsMod)> = Vec::new();
    let mut i: usize = 0;
    assert(list@.take(0) =~= Seq::<Option<BuiltinVfs>>::empty());
    assert(module_views(modules@) =~= builtin_modules(list@.take(0)));
    while i < list.len()
        invariant
            i <= list@.len(),
            forall|j: int|
                0 <= j < i && (#[trigger] list@[j]) is Some ==> vstd::utf8::valid_utf8(
                    list@[j]->0.name@,
                ),
            module_views(modules@) == builtin_modules(list@.take(i as int)),
        decreases list@.len() - i,
    {
        let ghost before = modules@;
        if let Some(vfs) = &list[i] {
            match from_utf8(vfs.name.as_slice()) {
                None => {
                    assert(list@[i as int] is Some);
                    return Err(
                        LimboError::ExtensionError("unable to register vfs extension".to_owned()),
                    );
                },
                Some(name) => {
                    modules.push((name, VfsMod { ctx: vfs.ctx }));
                },
            }
        }
        proof {
            let next = list@.take(i + 1);
            assert(next.drop_last() =~= list@.take(i as int));
            assert(next.last() == list@[i as int]);
            assert(module_views(modules@) =~= builtin_modules(next));
        }
        i += 1;
    }
    assert(list@.take(list@.len() as int) =~= list@);
    Ok(modules)
}

/// An extension is only ever handed an interface of a version the host has.
pub proof fn law_no_extension_is_entered_above_the_host(
    state: LoadState,
    event: LoadEvent,
    host: u32,
    db_initialized: bool,
    next: LoadState,
    action: LoadAction,
)
    requires
        awaited(state, event),
        load_follows(state, event, host, db_initialized, next, action),
        state matches LoadState::Finding(version) ==> version <= host,
        state matches LoadState::Registering(version) ==> version <= host,
    ensures
        next matches LoadState::Finding(version) ==> version <= host,
        next matches LoadState::Registering(version) ==> version <= host,
        action matches LoadAction::BuildAndFind(version) ==> version <= host,
{
}

/// A load that ends well kept its library, which it only does when the entry point returned with
/// success.
pub proof fn law_success_means_kept(
    state: LoadState,
    event: LoadEvent,
    host: u32,
    db_initialized: bool,
    next: LoadState,
    action: LoadAction,
)
    requires
        awaited(state, event),
        load_follows(state, event, host, db_initialized, next, action),
    ensures
        action == LoadAction::Finish(Ok(())) ==> event == LoadEvent::Kept(true) || event
            == LoadEvent::Reparsed(Ok(())),
        next == LoadState::Reparsing ==> event == LoadEvent::Kept(true),
        next == LoadState::Keeping ==> event == LoadEvent::Returned(true),
{
}

/// The file system that first took a name keeps it, whatever else is added.
pub proof fn law_the_first_file_system_keeps_its_name(
    modules: Seq<(Seq<char>, VfsMod)>,
    i: int,
    name: Seq<char>,
    vfs: VfsMod,
)
    requires
        0 <= i < modules.len(),
    ensures
        (if has_module(modules, name) {
            modules
        } else {
            modules.push((name, vfs))
        })[i] == modules[i],
        modules[i].0 == name ==> has_module(modules, name),
{
}

}
