//! Collating sequences of the C API.

use std::sync::atomic::{AtomicUsize, Ordering};
use std::sync::Arc;

use turso_udf::capi_context::{SQLITE_BUSY, SQLITE_MISUSE, SQLITE_OK};
use turso_udf::capi_value::{
    SQLITE_ANY, SQLITE_UTF16, SQLITE_UTF16BE, SQLITE_UTF16LE, SQLITE_UTF16_ALIGNED, SQLITE_UTF8,
};
use turso_udf::collation::{
    compare_trampoline, create_collation, drop_all_collations, missing_collation,
    request_collation, sqlite3_collation_needed, sqlite3_collation_needed16,
    sqlite3_create_collation, sqlite3_create_collation16, sqlite3_create_collation_v2,
    to_ascii_lowercase, AskedNames, CollationAnswer, CollationHandle, CollationNeeded,
    CollationRequest, CollationText, CoreChange, TextEncoding,
};
use turso_udf::error::LimboError;

struct Counts(Arc<AtomicUsize>);

impl Drop for Counts {
    fn drop(&mut self) {
        self.0.fetch_add(1, Ordering::SeqCst);
    }
}

type Compare = fn(usize, &CollationText, &CollationText) -> i32;
type Handle = CollationHandle<Counts, Compare>;

/// Answers its own argument where it got text in the encoding it stands for.
fn utf8_only(p_arg: usize, left: &CollationText, right: &CollationText) -> i32 {
    match (left, right) {
        (CollationText::Utf8(_), CollationText::Utf8(_)) => p_arg as i32,
        _ => -1,
    }
}

/// The first code unit of the left text.
fn first_unit(_p_arg: usize, left: &CollationText, _right: &CollationText) -> i32 {
    match left {
        CollationText::Utf16(units) => units[0] as i32,
        CollationText::Utf8(_) => -1,
    }
}

fn by_length(_p_arg: usize, left: &CollationText, right: &CollationText) -> i32 {
    match (left, right) {
        (CollationText::Utf8(l), CollationText::Utf8(r)) => l.len() as i32 - r.len() as i32,
        _ => 0,
    }
}

fn add(
    h: &mut Handle,
    name: &str,
    enc: i32,
    compare: Option<Compare>,
    destroy: Option<Counts>,
    running: bool,
) -> CollationAnswer<Counts, Compare> {
    sqlite3_create_collation_v2(
        Some(h),
        Some(name.as_bytes()),
        enc,
        7,
        compare,
        destroy,
        running,
        false,
    )
}

#[test]
fn encodings_are_read_from_the_low_byte() {
    for (enc, host_big_endian, expected) in [
        (SQLITE_UTF8, false, Some(TextEncoding::Utf8)),
        (SQLITE_UTF16LE, true, Some(TextEncoding::Utf16Le)),
        (SQLITE_UTF16BE, false, Some(TextEncoding::Utf16Be)),
        (SQLITE_UTF16, false, Some(TextEncoding::Utf16Le)),
        (SQLITE_UTF16, true, Some(TextEncoding::Utf16Be)),
        (SQLITE_UTF16_ALIGNED, true, Some(TextEncoding::Utf16Be)),
        (SQLITE_UTF8 | 0x800, false, Some(TextEncoding::Utf8)),
        (SQLITE_ANY, false, None),
        (0, false, None),
        (0x100, false, None),
    ] {
        assert_eq!(TextEncoding::from_arg(enc, host_big_endian), expected);
    }
    assert_eq!(TextEncoding::Utf8.slot(), 0);
    assert_eq!(TextEncoding::Utf16Le.slot(), 1);
    assert_eq!(TextEncoding::Utf16Be.slot(), 2);
}

#[test]
fn the_engine_is_told_when_a_name_becomes_usable_and_stops_being_it() {
    let mut h: Handle = CollationHandle::new();
    let first = add(&mut h, "Len", SQLITE_UTF8, Some(by_length), None, false);
    assert_eq!(first.code, SQLITE_OK);
    assert!(matches!(first.core, CoreChange::Register(name) if name == "Len"));
    let second = add(&mut h, "LEN", SQLITE_UTF16LE, Some(first_unit), None, false);
    assert!(matches!(second.core, CoreChange::Nothing));

    let gone = add(&mut h, "len", SQLITE_UTF8, None, None, false);
    assert!(matches!(gone.core, CoreChange::Nothing));
    assert!(gone.replaced.is_some());
    let gone = add(&mut h, "len", SQLITE_UTF16LE, None, None, false);
    assert!(matches!(gone.core, CoreChange::Unregister(name) if name == "len"));
    assert!(!h.collation_set("LEN").unwrap().has_any_comparison());
    assert!(h.collation_set("other").is_none());
}

#[test]
fn the_utf8_comparison_wins_and_then_the_big_endian_one() {
    let mut h: Handle = CollationHandle::new();
    add(&mut h, "c", SQLITE_UTF16LE, Some(first_unit), None, false);
    let compare = |h: &Handle, host_big_endian: bool| {
        let set = h.collation_set("c").unwrap();
        compare_trampoline(set, "ab".as_bytes(), "b".as_bytes(), host_big_endian)
    };
    assert_eq!(compare(&h, false), 0x0061);
    assert_eq!(compare(&h, true), 0x6100, "its bytes stay little-endian");

    add(&mut h, "c", SQLITE_UTF16BE, Some(first_unit), None, false);
    assert_eq!(compare(&h, false), 0x6100);
    assert_eq!(compare(&h, true), 0x0061);

    add(&mut h, "c", SQLITE_UTF8, Some(utf8_only), None, false);
    assert_eq!(compare(&h, false), 7);
    let (p_arg, _, enc) = h.collation_set("c").unwrap().chosen().unwrap();
    assert_eq!((p_arg, enc), (7, TextEncoding::Utf8));
}

#[test]
fn a_comparison_sees_both_texts() {
    let mut h: Handle = CollationHandle::new();
    add(&mut h, "len", SQLITE_UTF8, Some(by_length), None, false);
    let set = h.collation_set("len").unwrap();
    assert_eq!(compare_trampoline(set, b"abc", b"d", false), 2);
    assert_eq!(compare_trampoline(set, b"d", b"abc", false), -2);
}

#[test]
fn destructors_run_when_replaced_and_not_when_refused() {
    let runs = Arc::new(AtomicUsize::new(0));
    let mut h: Handle = CollationHandle::new();
    add(
        &mut h,
        "c",
        SQLITE_UTF8,
        Some(by_length),
        Some(Counts(runs.clone())),
        false,
    );

    let refused = add(
        &mut h,
        "C",
        SQLITE_UTF8,
        Some(by_length),
        Some(Counts(runs.clone())),
        true,
    );
    assert_eq!(refused.code, SQLITE_BUSY);
    assert!(refused.refused.is_some());
    assert_eq!(runs.load(Ordering::SeqCst), 0);
    assert_eq!(
        h.last_error(),
        Some((
            SQLITE_BUSY,
            "unable to delete/modify collation sequence due to active statements".to_string()
        ))
    );
    std::mem::forget(refused.refused);

    let added = add(&mut h, "c", SQLITE_UTF16BE, Some(first_unit), None, true);
    assert_eq!(added.code, SQLITE_OK, "the encoding is new");

    let replaced = add(&mut h, "c", SQLITE_UTF8, None, Some(Counts(runs.clone())), false);
    drop(replaced);
    assert_eq!(runs.load(Ordering::SeqCst), 1);

    let dropped = drop_all_collations(&mut h);
    assert_eq!(dropped.len(), 1);
    assert_eq!(dropped[0].0, "c");
    drop(dropped);
    assert_eq!(runs.load(Ordering::SeqCst), 2, "what the deletion left behind");
    assert!(h.collation_set("c").is_none());
}

#[test]
fn what_is_no_collation_is_misuse() {
    let mut h: Handle = CollationHandle::new();
    assert_eq!(
        add(&mut h, "c", SQLITE_ANY, Some(by_length), None, false).code,
        SQLITE_MISUSE
    );
    assert_eq!(
        sqlite3_create_collation(
            Some(&mut h),
            None,
            SQLITE_UTF8,
            0,
            Some(by_length as Compare),
            false,
            false
        )
        .code,
        SQLITE_MISUSE
    );
    assert_eq!(
        create_collation::<Counts, Compare>(
            None,
            Some("c".to_string()),
            SQLITE_UTF8,
            0,
            Some(by_length),
            None,
            false,
            false
        )
        .code,
        SQLITE_MISUSE
    );
    assert_eq!(
        sqlite3_create_collation16(
            Some(&mut h),
            Some(&[0xdc00]),
            SQLITE_UTF8,
            0,
            Some(by_length as Compare),
            false,
            false
        )
        .code,
        SQLITE_MISUSE
    );
    let name: Vec<u16> = "Größe".encode_utf16().collect();
    assert_eq!(
        sqlite3_create_collation16(
            Some(&mut h),
            Some(&name),
            SQLITE_UTF8,
            0,
            Some(by_length as Compare),
            false,
            false
        )
        .code,
        SQLITE_OK
    );
    assert!(h.collation_set("gRößE").is_some());
    assert!(h.collation_set("GRÖßE").is_none(), "only ASCII letters fold");
}

#[test]
fn a_prepare_asks_for_a_collation_once() {
    let mut h: Handle = CollationHandle::new();
    assert_eq!(
        sqlite3_collation_needed(Some(&mut h), 5, Some(0xcb)),
        SQLITE_OK
    );
    assert_eq!(
        h.needed(),
        Some(CollationNeeded {
            callback: 0xcb,
            p_arg: 5,
            utf16: false
        })
    );
    assert_eq!(
        sqlite3_collation_needed16(Some(&mut h), 5, Some(0xcb)),
        SQLITE_OK
    );
    assert!(h.needed().unwrap().utf16);
    assert_eq!(sqlite3_collation_needed(Some(&mut h), 5, None), SQLITE_OK);
    assert!(h.needed().is_none());
    assert_eq!(
        sqlite3_collation_needed::<Counts, Compare>(None, 5, Some(0xcb)),
        SQLITE_MISUSE
    );

    let needed = CollationNeeded {
        callback: 0xcb,
        p_arg: 5,
        utf16: false,
    };
    let mut asked = AskedNames::new();
    match request_collation(Some(needed), "Nö", &mut asked) {
        Some(CollationRequest::Utf8 {
            callback,
            p_arg,
            bytes,
        }) => {
            assert_eq!((callback, p_arg), (0xcb, 5));
            assert_eq!(bytes, "Nö\0".as_bytes());
        }
        other => panic!("{other:?}"),
    }
    assert!(request_collation(Some(needed), "nö", &mut asked).is_none());
    assert!(request_collation(Some(needed), "a\0b", &mut asked).is_none());
    assert!(request_collation(None, "fresh", &mut asked).is_none());

    let wide = CollationNeeded {
        utf16: true,
        ..needed
    };
    match request_collation(Some(wide), "fresh", &mut asked) {
        Some(CollationRequest::Utf16 { units, .. }) => {
            let expected: Vec<u16> = "fresh\0".encode_utf16().collect();
            assert_eq!(units, expected);
        }
        other => panic!("{other:?}"),
    }
}

#[test]
fn the_missing_collation_is_read_out_of_the_message() {
    let missing =
        |text: &str| missing_collation(&LimboError::ParseError(text.to_string()));
    assert_eq!(
        missing("no such collation sequence: german"),
        Some("german".to_string())
    );
    assert_eq!(
        missing("near x: no such collation sequence:  two words \u{3000}\n"),
        Some("two words".to_string())
    );
    assert_eq!(missing("no such collation sequence"), None);
    assert_eq!(missing("no such function: f"), None);
    assert_eq!(to_ascii_lowercase("AbC-Ä"), "abc-Ä");
}
