//! What loading an extension goes through and which file systems there are afterwards, said of
//! versions, events and names.

use vstd::prelude::*;

use crate::dynamic::{
    add_builtin_vfs_extensions, extension_abi_version, load_extension, BuiltinVfs, LoadAction,
    LoadEvent, LoadState, ResultCode, VfsMod, VfsModules, TURSO_EXT_API_VERSION,
};
use crate::error::{LimboError, Result};
use crate::text::push_decimal;

verus! {

/// An extension is accepted up to the version of the host, and counts as the first version where it
/// says none; a newer one is refused, saying both versions.
pub proof fn law_extensions_up_to_the_host_are_accepted(
    reported: Option<u32>,
    host: u32,
    r: Result<u32>,
    silent: Result<u32>,
    line: &mut String,
    rest: &mut String,
)
    requires
        reported is Some,
        call_ensures(extension_abi_version, (reported, host), r),
        call_ensures(extension_abi_version, (None, host), silent),
        old(line)@ == "extension built for turso_ext ABI v"@,
        call_ensures(push_decimal, (line, reported->0 as i64), ()),
        old(rest)@ == final(line)@ + ", this build supports v"@,
        call_ensures(push_decimal, (rest, host as i64), ()),
    ensures
        reported->0 <= host ==> (r matches Ok(v) && v == reported->0),
        reported->0 > host ==> (r matches Err(LimboError::ExtensionError(m)) && m@ == final(rest)@),
        host >= 1 ==> (silent matches Ok(v) && v == 1),
        host == 0 ==> silent is Err,
        TURSO_EXT_API_VERSION == 2,
{
    assert(final(rest)@ =~= crate::dynamic::too_new(reported->0, host));
}

/// Each event of a load is answered with the next thing to do: the library is opened, its version is
/// asked and checked, its entry is found and entered, the library is kept, and the schema is read
/// again where there is one. Any failure on the way ends the load with what was said.
pub proof fn law_a_load_takes_its_steps_in_order(
    state: LoadState,
    event: LoadEvent,
    host: u32,
    db_initialized: bool,
    r: (LoadState, LoadAction),
    checked: Result<u32>,
)
    requires
        event matches LoadEvent::Version(reported) ==> call_ensures(
            extension_abi_version,
            (reported, host),
            checked,
        ),
        event is Found ==> state is Finding,
        call_ensures(load_extension, (state, event, host, db_initialized), r),
    ensures
        match event {
            LoadEvent::Opened(Ok(_)) => r.0 is Asking && r.1 is AskVersion,
            LoadEvent::Opened(Err(said)) => r.0 is Over && (r.1 matches LoadAction::Finish(
                Err(LimboError::ExtensionError(m)),
            ) && m@ == said@),
            LoadEvent::Version(_) => match checked {
                Ok(version) => {
                    &&& r.0 matches LoadState::Finding(v) && v == version
                    &&& r.1 matches LoadAction::BuildAndFind(v) && v == version
                },
                Err(e) => r.0 is Over && (r.1 matches LoadAction::Finish(Err(f)) && f@ == e@),
            },
            LoadEvent::Found(Ok(_)) => {
                &&& r.0 matches LoadState::Registering(v) && v == state->Finding_0
                &&& r.1 is Enter
            },
            LoadEvent::Found(Err(said)) => r.0 is Over && (r.1 matches LoadAction::Finish(
                Err(LimboError::ExtensionError(m)),
            ) && m@ == said@),
            LoadEvent::Returned(ok) => {
                &&& ok ==> r.0 is Keeping && r.1 is Keep
                &&& !ok ==> r.0 is Over && (r.1 matches LoadAction::FreeAndFail(
                    LimboError::ExtensionError(m),
                ) && m@ == "Extension registration failed"@)
            },
            LoadEvent::Kept(kept) => {
                &&& !kept ==> r.0 is Over && (r.1 matches LoadAction::Finish(
                    Err(LimboError::ExtensionError(m)),
                ) && m@ == "Error locking extension libraries"@)
                &&& kept && db_initialized ==> r.0 is Reparsing && r.1 is Reparse
                &&& kept && !db_initialized ==> r.0 is Over && (r.1 matches LoadAction::Finish(
                    Ok(_),
                ))
            },
            LoadEvent::Reparsed(parsed) => r.0 is Over && (r.1 matches LoadAction::Finish(q) && q
                == parsed),
        },
{
}

/// A load can be told, whatever came of it, what it waits for: the library it opens, the version it
/// asks for, the entry point it looks for, what that returned, whether the library was kept and
/// whether the schema was parsed again.
pub proof fn law_a_load_takes_what_it_waits_for(
    opened: core::result::Result<(), String>,
    reported: Option<u32>,
    found: core::result::Result<(), String>,
    returned: bool,
    kept: bool,
    reparsed: Result<()>,
    version: u32,
    host: u32,
    db_initialized: bool,
)
    ensures
        call_requires(
            load_extension,
            (LoadState::Opening, LoadEvent::Opened(opened), host, db_initialized),
        ),
        call_requires(
            load_extension,
            (LoadState::Asking, LoadEvent::Version(reported), host, db_initialized),
        ),
        call_requires(
            load_extension,
            (LoadState::Finding(version), LoadEvent::Found(found), host, db_initialized),
        ),
        call_requires(
            load_extension,
            (LoadState::Registering(version), LoadEvent::Returned(returned), host, db_initialized),
        ),
        call_requires(
            load_extension,
            (LoadState::Keeping, LoadEvent::Kept(kept), host, db_initialized),
        ),
        call_requires(
            load_extension,
            (LoadState::Reparsing, LoadEvent::Reparsed(reparsed), host, db_initialized),
        ),
{
}

/// A file system is added behind the others under its name, unless that name is taken: then nothing
/// changes. There are none to begin with.
pub proof fn law_a_file_system_is_added_once(
    fresh: VfsModules,
    modules: &mut VfsModules,
    name: String,
    vfs: VfsMod,
    i: int,
)
    requires
        call_ensures(VfsModules::new, (), fresh),
        call_ensures(VfsModules::add_vfs_module, (modules, name, vfs), ()),
    ensures
        fresh@.len() == 0,
        0 <= i < old(modules)@.len() ==> i < final(modules)@.len() && final(modules)@[i] == old(modules)@[i],
        0 <= i < old(modules)@.len() && old(modules)@[i].0 == name@ ==> final(modules)@ == old(modules)@,
        (forall|j: int| 0 <= j < old(modules)@.len() ==> (#[trigger] old(modules)@[j]).0 != name@)
            ==> final(modules)@.len() == old(modules)@.len() + 1 && final(modules)@.last() == (
            name@,
            vfs,
        ),
{
}

/// The file systems are listed in the order they were added, with their names and what is behind
/// them.
pub proof fn law_file_systems_are_listed_in_order(
    modules: &VfsModules,
    names: Vec<String>,
    all: Vec<(String, VfsMod)>,
    i: int,
)
    requires
        call_ensures(VfsModules::list_vfs_modules, (modules,), names),
        call_ensures(VfsModules::get_vfs_modules, (modules,), all),
    ensures
        names@.len() == modules@.len(),
        all@.len() == modules@.len(),
        0 <= i < modules@.len() ==> names@[i]@ == modules@[i].0 && all@[i].0@ == modules@[i].0
            && all@[i].1 == modules@[i].1,
{
    if 0 <= i < modules@.len() {
        assert(crate::dynamic::module_views(all@)[i] == modules@[i]);
    }
}

/// An extension adds a file system under a name in UTF-8, as the host does; without a name, without a
/// file system, or under bytes that are not UTF-8, it is an error and nothing changes.
pub proof fn law_an_extension_adds_a_file_system(
    modules: &mut VfsModules,
    name: Option<&[u8]>,
    vfs: usize,
    r: ResultCode,
    text: String,
    other: &mut VfsModules,
)
    requires
        call_ensures(VfsModules::register_vfs, (modules, name, vfs), r),
        old(other)@ == old(modules)@,
        call_ensures(VfsModules::add_vfs_module, (other, text, VfsMod { ctx: vfs }), ()),
        name is Some && vstd::utf8::valid_utf8(name->0@) ==> name->0@ == vstd::utf8::encode_utf8(
            text@,
        ),
    ensures
        r is OK <==> vfs != 0 && name is Some && vstd::utf8::valid_utf8(name->0@),
        r is OK ==> final(modules)@ == final(other)@,
        r is Error ==> final(modules)@ == old(modules)@,
{
    vstd::utf8::encode_utf8_decode_utf8(text@);
}

/// The file systems a build comes with are added in their order under the names they have. One that
/// is missing is passed over, and one whose name is not UTF-8 is an error of the whole.
pub proof fn law_builtin_file_systems_are_added_in_order(
    list: &[Option<BuiltinVfs>],
    more: &[Option<BuiltinVfs>],
    next: Option<BuiltinVfs>,
    r: Result<Vec<(String, VfsMod)>>,
    q: Result<Vec<(String, VfsMod)>>,
    i: int,
)
    requires
        more@ == list@.push(next),
        call_ensures(add_builtin_vfs_extensions, (list,), r),
        call_ensures(add_builtin_vfs_extensions, (more,), q),
    ensures
        list@.len() == 0 ==> (r matches Ok(none) && none@.len() == 0),
        q is Ok <==> r is Ok && (next is Some ==> vstd::utf8::valid_utf8(next->0.name@)),
        r matches Err(e) ==> (e matches LimboError::ExtensionError(m) && m@
            == "unable to register vfs extension"@),
        q is Ok && next is None ==> q->Ok_0@.len() == r->Ok_0@.len(),
        q is Ok && next is Some ==> q->Ok_0@.len() == r->Ok_0@.len() + 1 && vstd::utf8::encode_utf8(
            q->Ok_0@.last().0@,
        ) == next->0.name@ && q->Ok_0@.last().1.ctx == next->0.ctx,
        q is Ok && 0 <= i < r->Ok_0@.len() ==> q->Ok_0@[i].0@ == r->Ok_0@[i].0@ && q->Ok_0@[i].1
            == r->Ok_0@[i].1,
{
    assert(more@.drop_last() =~= list@);
    if list@.len() == 0 {
        assert(crate::dynamic::names_are_utf8(list@));
        assert(crate::dynamic::module_views(r->Ok_0@).len() == 0);
    }
    assert(more@.last() == next);
    if r is Ok && (next is Some ==> vstd::utf8::valid_utf8(next->0.name@)) {
        assert forall|j: int| 0 <= j < more@.len() && (#[trigger] more@[j]) is Some implies
            vstd::utf8::valid_utf8(more@[j]->0.name@) by {
            if j < list@.len() {
                assert(list@[j] == more@[j]);
            }
        }
        assert(crate::dynamic::names_are_utf8(more@));
    }
    if q is Ok {
        assert(crate::dynamic::names_are_utf8(more@));
        assert forall|j: int| 0 <= j < list@.len() && (#[trigger] list@[j]) is Some implies
            vstd::utf8::valid_utf8(list@[j]->0.name@) by {
            assert(more@[j] == list@[j]);
        }
        assert(crate::dynamic::names_are_utf8(list@));
        assert(more@[list@.len() as int] == next);
        let before = crate::dynamic::module_views(r->Ok_0@);
        let after = crate::dynamic::module_views(q->Ok_0@);
        if next is Some {
            vstd::utf8::decode_utf8_encode_utf8(next->0.name@);
            assert(after == before.push(
                (vstd::utf8::decode_utf8(next->0.name@), VfsMod { ctx: next->0.ctx }),
            ));
            assert(after.last() == after[before.len() as int]);
            assert(after[before.len() as int] == (
                q->Ok_0@[before.len() as int].0@,
                q->Ok_0@[before.len() as int].1,
            ));
        } else {
            assert(after == before);
        }
        if 0 <= i < r->Ok_0@.len() {
            assert(after[i] == before[i]);
            assert(after[i] == (q->Ok_0@[i].0@, q->Ok_0@[i].1));
            assert(before[i] == (r->Ok_0@[i].0@, r->Ok_0@[i].1));
        }
    }
}

}
