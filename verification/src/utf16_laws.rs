//! What UTF-16 text is, said of single characters, code units and bytes.

use vstd::prelude::*;

use crate::utf16::{
    decode_units, decode_units_strict, decode_utf16, to_utf16, utf16_bytes, utf16_units,
};

verus! {

/// One more character adds one code unit of its own number, or from 0x10000 on a high and a low
/// surrogate that hold ten bits each of what is above 0x10000. No text has no units.
pub proof fn law_a_character_adds_its_code_units(
    text: &str,
    longer: &str,
    c: char,
    units: Vec<u16>,
    more: Vec<u16>,
)
    requires
        longer@ == text@.push(c),
        call_ensures(utf16_units, (text,), units),
        call_ensures(utf16_units, (longer,), more),
    ensures
        text@.len() == 0 ==> units@.len() == 0,
        more@.take(units@.len() as int) == units@,
        (c as u32) < 0x10000 ==> more@.len() == units@.len() + 1 && more@.last() as u32 == c as u32,
        c as u32 >= 0x10000 ==> more@.len() == units@.len() + 2 && ({
            let high = more@[more@.len() - 2];
            let low = more@[more@.len() - 1];
            &&& 0xD800 <= high <= 0xDBFF
            &&& 0xDC00 <= low <= 0xDFFF
            &&& 0x10000 + (high - 0xD800) * 0x400 + (low - 0xDC00) == c as u32
        }),
{
    assert(longer@.drop_last() =~= text@);
    assert(more@.take(units@.len() as int) =~= units@);
    let v = c as u32;
    if v >= 0x10000 {
        assert(v <= 0x10FFFF);
        assert((v - 0x10000) / 0x400 * 0x400 + (v - 0x10000) % 0x400 == v - 0x10000);
    }
}

/// Code units are read from the front: a unit that is no surrogate is the character of that number,
/// a high and a low surrogate are one character, and any other surrogate is U+FFFD.
pub proof fn law_code_units_are_read_from_the_front(
    units: &[u16],
    rest: &[u16],
    r: String,
    q: String,
)
    requires
        call_ensures(decode_units, (units,), r),
        call_ensures(decode_units, (rest,), q),
    ensures
        units@.len() == 0 ==> r@.len() == 0,
        units@.len() > 0 ==> ({
            let first = units@[0];
            let paired = 0xD800 <= first <= 0xDBFF && units@.len() > 1 && 0xDC00 <= units@[1]
                <= 0xDFFF;
            let after = units@.skip(
                if paired {
                    2
                } else {
                    1
                },
            );
            rest@ == after ==> r@.len() == q@.len() + 1 && r@.skip(1) == q@ && r@[0] as u32 == (
            if paired {
                0x10000 + (first - 0xD800) * 0x400 + (units@[1] - 0xDC00)
            } else if 0xD800 <= first <= 0xDFFF {
                0xFFFD
            } else {
                first as int
            })
        }),
{
    if units@.len() > 0 {
        let first = units@[0];
        let paired = 0xD800 <= first <= 0xDBFF && units@.len() > 1 && 0xDC00 <= units@[1] <= 0xDFFF;
        let after = units@.skip(
            if paired {
                2
            } else {
                1
            },
        );
        if rest@ == after {
            assert(r@.skip(1) =~= q@);
        }
    }
}

/// Code units that stand for themselves or in pairs are text, and it is the one they read as; with
/// one lone surrogate anywhere they are none.
pub proof fn law_lone_surrogates_are_no_text(
    units: &[u16],
    rest: &[u16],
    r: Option<String>,
    q: Option<String>,
    read: String,
)
    requires
        call_ensures(decode_units_strict, (units,), r),
        call_ensures(decode_units_strict, (rest,), q),
        call_ensures(decode_units, (units,), read),
    ensures
        units@.len() == 0 ==> r is Some,
        r matches Some(text) ==> text@ == read@,
        units@.len() > 0 ==> ({
            let first = units@[0];
            let paired = 0xD800 <= first <= 0xDBFF && units@.len() > 1 && 0xDC00 <= units@[1]
                <= 0xDFFF;
            &&& !paired && 0xD800 <= first <= 0xDFFF ==> r is None
            &&& paired && rest@ == units@.skip(2) ==> (r is Some <==> q is Some)
            &&& !(0xD800 <= first <= 0xDFFF) && rest@ == units@.skip(1) ==> (r is Some <==> q is Some)
        }),
{
}

/// The bytes of a text are those of its code units, two each: the high byte first in big-endian
/// order, the low byte first in little-endian order.
pub proof fn law_bytes_are_code_units_in_order(
    text: &str,
    big_endian: bool,
    units: Vec<u16>,
    bytes: Vec<u8>,
    i: int,
)
    requires
        call_ensures(utf16_units, (text,), units),
        call_ensures(utf16_bytes, (text, big_endian), bytes),
    ensures
        bytes@.len() == 2 * units@.len(),
        0 <= i < units@.len() && big_endian ==> bytes@[2 * i] * 256 + bytes@[2 * i + 1] == units@[i],
        0 <= i < units@.len() && !big_endian ==> bytes@[2 * i + 1] * 256 + bytes@[2 * i]
            == units@[i],
{
    assert((2 * i) / 2 == i);
    assert((2 * i + 1) / 2 == i);
    assert((2 * i) % 2 == 0);
    assert((2 * i + 1) % 2 == 1);
}

/// Bytes read as the code units that they are, two each in the same orders; an odd one at the end is
/// left over.
pub proof fn law_bytes_read_as_their_code_units(
    bytes: &[u8],
    big_endian: bool,
    units: &[u16],
    r: String,
    q: String,
)
    requires
        units@.len() == bytes@.len() / 2,
        forall|i: int|
            0 <= i < units@.len() ==> (#[trigger] units@[i]) as int == if big_endian {
                bytes@[2 * i] * 256 + bytes@[2 * i + 1]
            } else {
                bytes@[2 * i + 1] * 256 + bytes@[2 * i]
            },
        call_ensures(decode_utf16, (bytes, big_endian), r),
        call_ensures(decode_units, (units,), q),
    ensures
        r@ == q@,
{
    let made = crate::utf16::byte_units(bytes@, big_endian);
    assert forall|i: int| 0 <= i < made.len() implies made[i] == #[trigger] units@[i] by {}
    assert(made =~= units@);
}

/// Text handed over as UTF-8 has the code units it always has, and each of them has its two bytes
/// swapped where the asked-for order is not the machine's. What is not UTF-8 is read as the text that
/// stands in for it.
pub proof fn law_code_units_in_the_asked_for_order(
    text: &str,
    bytes: &[u8],
    big_endian: bool,
    host_big_endian: bool,
    units: Vec<u16>,
    r: Vec<u16>,
    i: int,
)
    requires
        vstd::utf8::valid_utf8(bytes@) ==> bytes@ == vstd::utf8::encode_utf8(text@),
        !vstd::utf8::valid_utf8(bytes@) ==> text@ == crate::utf16::utf8_lossy(bytes@),
        call_ensures(utf16_units, (text,), units),
        call_ensures(to_utf16, (bytes, big_endian, host_big_endian), r),
    ensures
        r@.len() == units@.len(),
        0 <= i < units@.len() && big_endian == host_big_endian ==> r@[i] == units@[i],
        0 <= i < units@.len() && big_endian != host_big_endian ==> r@[i] / 256 == units@[i] % 256
            && r@[i] % 256 == units@[i] / 256,
{
    vstd::utf8::encode_utf8_valid_utf8(text@);
    vstd::utf8::encode_utf8_decode_utf8(text@);
}

}
