//! Text in other encodings, in decimal and by name.

use turso_udf::table::NamedTable;
use turso_udf::text::{bytes_eq, chars_of, join2, join3, push_decimal, str_eq, string_of};
use turso_udf::utf16::{
    decode_units, decode_units_strict, decode_utf16, to_utf16, utf16_bytes, utf16_units,
};

const SAMPLES: [&str; 5] = ["", "abc", "grüß dich", "\u{ffff}\u{e000}", "a𝄞b\u{10ffff}"];

#[test]
fn utf16_is_what_the_standard_library_says_it_is() {
    for s in SAMPLES {
        let expected: Vec<u16> = s.encode_utf16().collect();
        assert_eq!(utf16_units(s), expected);
        assert_eq!(decode_units(&expected), s);
        assert_eq!(decode_units_strict(&expected).as_deref(), Some(s));
    }
}

#[test]
fn lone_surrogates_are_replaced_or_refused() {
    for units in [
        vec![0xd800],
        vec![0xdc00, 0x41],
        vec![0xd800, 0x41],
        vec![0xd800, 0xd800, 0xdc00],
        vec![0x41, 0xdbff],
    ] {
        assert_eq!(decode_units(&units), String::from_utf16_lossy(&units));
        assert_eq!(decode_units_strict(&units), None);
        assert!(String::from_utf16(&units).is_err());
    }
}

#[test]
fn bytes_come_in_either_order() {
    for s in SAMPLES {
        for big_endian in [false, true] {
            let bytes = utf16_bytes(s, big_endian);
            assert_eq!(decode_utf16(&bytes, big_endian), s);
        }
    }
    assert_eq!(utf16_bytes("A", true), vec![0, 0x41]);
    assert_eq!(utf16_bytes("A", false), vec![0x41, 0]);
    assert_eq!(decode_utf16(&[0x41, 0, 0x42], false), "A");
}

#[test]
fn units_are_swapped_where_the_host_has_the_other_order() {
    assert_eq!(to_utf16(b"A", false, false), vec![0x0041]);
    assert_eq!(to_utf16(b"A", true, true), vec![0x0041]);
    assert_eq!(to_utf16(b"A", true, false), vec![0x4100]);
    assert_eq!(to_utf16(b"A", false, true), vec![0x4100]);
    assert_eq!(to_utf16(&[0xff], false, false), vec![0xfffd]);
}

#[test]
fn integers_in_decimal() {
    for n in [0, 7, 10, -1, 1234567890, i64::MAX, i64::MIN] {
        let mut out = "n=".to_string();
        push_decimal(&mut out, n);
        assert_eq!(out, format!("n={n}"));
    }
}

#[test]
fn joining_and_comparing() {
    assert_eq!(join2("a", "ß"), "aß");
    assert_eq!(join3("a", "", "c"), "ac");
    assert!(str_eq("ß", "ß"));
    assert!(!str_eq("a", "A"));
    assert!(!str_eq("a", "ab"));
    assert!(bytes_eq(&[1, 2], &[1, 2]));
    assert!(!bytes_eq(&[1, 2], &[1]));
    assert_eq!(string_of(&chars_of("aß𝄞")), "aß𝄞");
}

#[test]
fn a_table_is_keyed_by_name_and_count() {
    let mut table: NamedTable<u8> = NamedTable::new();
    assert!(table.insert("f".to_string(), 1, 10).is_none());
    assert!(table.insert("f".to_string(), 2, 20).is_none());
    assert!(table.insert("g".to_string(), 1, 30).is_none());
    assert_eq!(table.insert("f".to_string(), 1, 11), Some(10));
    assert_eq!(table.len(), 3);
    assert_eq!(table.get("f", 1), Some(&11));
    assert_eq!(table.get("F", 1), None);
    assert!(table.contains("g", 1));
    assert!(table.contains_name("g"));
    assert_eq!(table.remove("g", 2), None);
    assert_eq!(table.remove("g", 1), Some(30));
    assert!(!table.contains_name("g"));
    assert!(table.remove_named("f"));
    assert!(!table.remove_named("f"));
    assert!(table.pop().is_none());
    table.insert("h".to_string(), 0, 1);
    assert_eq!(table.pop(), Some(("h".to_string(), 0, 1)));
    table.insert("h".to_string(), 0, 1);
    table.clear();
    assert_eq!(table.len(), 0);
}
