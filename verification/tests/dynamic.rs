//! Loading extensions and the file systems they add.

use turso_udf::dynamic::{
    add_builtin_vfs_extensions, extension_abi_version, load_extension, BuiltinVfs, LoadAction,
    LoadEvent, LoadState, ResultCode, VfsMod, VfsModules, TURSO_EXT_API_VERSION,
};

#[test]
fn extension_without_a_version_symbol_is_the_first_abi() {
    assert_eq!(extension_abi_version(None, 2).unwrap(), 1);
}

#[test]
fn extension_older_than_the_host_loads_at_its_own_version() {
    assert_eq!(extension_abi_version(Some(1), 2).unwrap(), 1);
    assert_eq!(extension_abi_version(Some(2), 5).unwrap(), 2);
}

#[test]
fn extension_matching_the_host_loads() {
    assert_eq!(extension_abi_version(Some(2), 2).unwrap(), 2);
}

#[test]
fn extension_newer_than_the_host_is_refused() {
    let err = extension_abi_version(Some(3), 2).unwrap_err();
    assert_eq!(
        err.to_string(),
        "Extension error: extension built for turso_ext ABI v3, this build supports v2"
    );
}

#[test]
fn a_load_runs_through_every_step() {
    let host = TURSO_EXT_API_VERSION;
    let (state, action) = load_extension(LoadState::Opening, LoadEvent::Opened(Ok(())), host, true);
    assert!(matches!(action, LoadAction::AskVersion));
    let (state, action) = load_extension(state, LoadEvent::Version(Some(1)), host, true);
    assert!(matches!(action, LoadAction::BuildAndFind(1)));
    let (state, action) = load_extension(state, LoadEvent::Found(Ok(())), host, true);
    assert_eq!(state, LoadState::Registering(1));
    assert!(matches!(action, LoadAction::Enter));
    let (state, action) = load_extension(state, LoadEvent::Returned(true), host, true);
    assert!(matches!(action, LoadAction::Keep));
    let (state, action) = load_extension(state, LoadEvent::Kept(true), host, true);
    assert!(matches!(action, LoadAction::Reparse));
    let (state, action) = load_extension(state, LoadEvent::Reparsed(Ok(())), host, true);
    assert_eq!(state, LoadState::Over);
    assert!(matches!(action, LoadAction::Finish(Ok(()))));
}

#[test]
fn a_database_without_a_schema_is_not_parsed_again() {
    let (state, action) = load_extension(LoadState::Keeping, LoadEvent::Kept(true), 2, false);
    assert_eq!(state, LoadState::Over);
    assert!(matches!(action, LoadAction::Finish(Ok(()))));
}

fn failure(action: LoadAction) -> String {
    match action {
        LoadAction::Finish(Err(e)) => e.to_string(),
        LoadAction::FreeAndFail(e) => format!("freed: {}", e.to_string()),
        other => panic!("not a failure: {other:?}"),
    }
}

#[test]
fn a_load_fails_with_the_reason_of_the_step_that_failed() {
    let (state, action) = load_extension(
        LoadState::Opening,
        LoadEvent::Opened(Err("no such file".to_string())),
        2,
        true,
    );
    assert_eq!(state, LoadState::Over);
    assert_eq!(failure(action), "Extension error: no such file");

    let (_, action) = load_extension(LoadState::Asking, LoadEvent::Version(Some(9)), 2, true);
    assert_eq!(
        failure(action),
        "Extension error: extension built for turso_ext ABI v9, this build supports v2"
    );

    let (_, action) = load_extension(
        LoadState::Finding(1),
        LoadEvent::Found(Err("no entry point".to_string())),
        2,
        true,
    );
    assert_eq!(failure(action), "Extension error: no entry point");

    let (_, action) = load_extension(
        LoadState::Registering(1),
        LoadEvent::Returned(false),
        2,
        true,
    );
    assert_eq!(
        failure(action),
        "freed: Extension error: Extension registration failed"
    );

    let (_, action) = load_extension(LoadState::Keeping, LoadEvent::Kept(false), 2, true);
    assert_eq!(
        failure(action),
        "Extension error: Error locking extension libraries"
    );
}

#[test]
fn the_first_file_system_of_a_name_stays() {
    let mut modules = VfsModules::new();
    assert_eq!(
        modules.register_vfs(Some("memory".as_bytes()), 0x10),
        ResultCode::OK
    );
    assert_eq!(
        modules.register_vfs(Some("remote".as_bytes()), 0x20),
        ResultCode::OK
    );
    assert_eq!(
        modules.register_vfs(Some("memory".as_bytes()), 0x30),
        ResultCode::OK
    );
    assert_eq!(
        modules.list_vfs_modules(),
        vec!["memory".to_string(), "remote".to_string()]
    );
    assert_eq!(
        modules.get_vfs_modules(),
        vec![
            ("memory".to_string(), VfsMod { ctx: 0x10 }),
            ("remote".to_string(), VfsMod { ctx: 0x20 }),
        ]
    );
}

#[test]
fn a_file_system_needs_a_utf8_name_and_an_implementation() {
    let mut modules = VfsModules::new();
    assert_eq!(modules.register_vfs(None, 0x10), ResultCode::Error);
    assert_eq!(
        modules.register_vfs(Some("memory".as_bytes()), 0),
        ResultCode::Error
    );
    assert_eq!(
        modules.register_vfs(Some(&[0x6d, 0xff]), 0x10),
        ResultCode::Error
    );
    assert!(modules.list_vfs_modules().is_empty());

    modules.add_vfs_module("größe".to_string(), VfsMod { ctx: 1 });
    assert_eq!(modules.list_vfs_modules(), vec!["größe".to_string()]);
}

#[test]
fn builtin_file_systems_are_listed_without_the_empty_places() {
    let list = [
        Some(BuiltinVfs {
            name: b"a".to_vec(),
            ctx: 1,
        }),
        None,
        Some(BuiltinVfs {
            name: "ü".as_bytes().to_vec(),
            ctx: 2,
        }),
    ];
    assert_eq!(
        add_builtin_vfs_extensions(&list).unwrap(),
        vec![
            ("a".to_string(), VfsMod { ctx: 1 }),
            ("ü".to_string(), VfsMod { ctx: 2 }),
        ]
    );

    let bad = [Some(BuiltinVfs {
        name: vec![0xc3],
        ctx: 1,
    })];
    assert_eq!(
        add_builtin_vfs_extensions(&bad).unwrap_err().to_string(),
        "Extension error: unable to register vfs extension"
    );
}
