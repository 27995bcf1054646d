//! Text in UTF-16: the code units of a text, their bytes in either order, and the way back.

use vstd::prelude::*;

verus! {

/// [`String::push`] adds one character at the end.
pub assume_specification[ String::push ](s: &mut String, c: char)
    ensures
        final(s)@ == old(s)@.push(c),
;

/// [`char::from_u32`] gives the character with that number, and none where the number is too large
/// or a surrogate.
pub assume_specification[ char::from_u32 ](i: u32) -> (r: Option<char>)
    ensures
        r == (if i < 0xD800 || 0xDFFF < i <= 0x10FFFF {
            Some(i as char)
        } else {
            None
        }),
;

/// What [`String::from_utf8_lossy`] makes of a byte string.
pub uninterp spec fn utf8_lossy(bytes: Seq<u8>) -> Seq<char>;

/// Calls [`String::from_utf8_lossy`]. Claimed of it: the text is a function of the bytes alone, and
/// for bytes that are valid UTF-8 it is the text they encode. What stands in place of bytes that
/// are not valid is left unsaid.
#[verifier::external_body]
pub(crate) fn from_utf8_lossy(bytes: &[u8]) -> (r: String)
    ensures
        r@ == utf8_lossy(bytes@),
        vstd::utf8::valid_utf8(bytes@) ==> r@ == vstd::utf8::decode_utf8(bytes@),
{
    String::from_utf8_lossy(bytes).into_owned()
}

/// The text a byte string is read as: the one it encodes where it is valid UTF-8.
pub open spec fn text_of(bytes: Seq<u8>) -> Seq<char> {
    if vstd::utf8::valid_utf8(bytes) {
        vstd::utf8::decode_utf8(bytes)
    } else {
        utf8_lossy(bytes)
    }
}

/// Calls [`std::str::from_utf8`]. Claimed of it: it succeeds exactly for bytes that are valid UTF-8,
/// and then gives the text they encode.
#[verifier::external_body]
pub(crate) fn from_utf8(bytes: &[u8]) -> (r: Option<String>)
    ensures
        match r {
            Some(text) => vstd::utf8::valid_utf8(bytes@) && text@ == vstd::utf8::decode_utf8(bytes@),
            None => !vstd::utf8::valid_utf8(bytes@),
        },
{
    std::str::from_utf8(bytes).ok().map(str::to_owned)
}

/// The first half of the pair that stands for a character above 0xFFFF.
pub open spec fn high_surrogate(c: char) -> u16 {
    (0xD800 + (c as u32 - 0x10000) / 0x400) as u16
}

/// The second half of that pair.
pub open spec fn low_surrogate(c: char) -> u16 {
    (0xDC00 + (c as u32 - 0x10000) % 0x400) as u16
}

pub open spec fn is_high(unit: u16) -> bool {
    0xD800 <= unit <= 0xDBFF
}

pub open spec fn is_low(unit: u16) -> bool {
    0xDC00 <= unit <= 0xDFFF
}

/// The code units of one character.
pub open spec fn char_units(c: char) -> Seq<u16> {
    if (c as u32) < 0x10000 {
        seq![c as u16]
    } else {
        seq![high_surrogate(c), low_surrogate(c)]
    }
}

/// The code units of a text.
pub open spec fn encode_utf16(text: Seq<char>) -> Seq<u16>
    decreases text.len(),
{
    if text.len() == 0 {
        Seq::empty()
    } else {
        encode_utf16(text.drop_last()) + char_units(text.last())
    }
}

/// The character a surrogate pair stands for.
pub open spec fn pair_char(high: u16, low: u16) -> char {
    ((0x10000 + (high - 0xD800) * 0x400 + (low - 0xDC00)) as u32) as char
}

/// The character that stands in place of half a surrogate pair: U+FFFD.
pub open spec fn replacement() -> char {
    0xFFFDu32 as char
}

/// The text code units stand for; half a surrogate pair becomes U+FFFD.
pub open spec fn decode_lossy(units: Seq<u16>) -> Seq<char>
    decreases units.len(),
{
    if units.len() == 0 {
        Seq::empty()
    } else if is_high(units[0]) && units.len() > 1 && is_low(units[1]) {
        seq![pair_char(units[0], units[1])] + decode_lossy(units.skip(2))
    } else if is_high(units[0]) || is_low(units[0]) {
        seq![replacement()] + decode_lossy(units.skip(1))
    } else {
        seq![units[0] as char] + decode_lossy(units.skip(1))
    }
}

/// Whether every surrogate is half of a pair.
pub open spec fn well_formed_utf16(units: Seq<u16>) -> bool
    decreases units.len(),
{
    if units.len() == 0 {
        true
    } else if is_high(units[0]) {
        units.len() > 1 && is_low(units[1]) && well_formed_utf16(units.skip(2))
    } else {
        !is_low(units[0]) && well_formed_utf16(units.skip(1))
    }
}

/// The bytes of code units, each in the asked-for order.
pub open spec fn unit_bytes(units: Seq<u16>, big_endian: bool) -> Seq<u8> {
    Seq::new(
        2 * units.len(),
        |i: int|
            if (i % 2 == 0) == big_endian {
                (units[i / 2] / 256) as u8
            } else {
                (units[i / 2] % 256) as u8
            },
    )
}

/// The code units in a byte string; an odd byte at the end is ignored.
pub open spec fn byte_units(bytes: Seq<u8>, big_endian: bool) -> Seq<u16> {
    Seq::new(
        bytes.len() / 2,
        |i: int|
            if big_endian {
                (bytes[2 * i] * 256 + bytes[2 * i + 1]) as u16
            } else {
                (bytes[2 * i + 1] * 256 + bytes[2 * i]) as u16
            },
    )
}

/// Appends the code units of one character.
fn push_units(out: &mut Vec<u16>, c: char)
    ensures
        final(out)@ == old(out)@ + char_units(c),
{
    let v: u32 = c as u32;
    if v < 0x10000 {
        out.push(v as u16);
        assert(out@ =~= old(out)@ + char_units(c));
    } else {
        let rest: u32 = v - 0x10000;
        out.push((0xD800 + rest / 0x400) as u16);
        out.push((0xDC00 + rest % 0x400) as u16);
        assert(out@ =~= old(out)@ + char_units(c));
    }
}

/// The code units of a text.
pub fn utf16_units(text: &str) -> (r: Vec<u16>)
    ensures
        r@ == encode_utf16(text@),
{
    let mut out: Vec<u16> = Vec::new();
    for c in iter: text.chars()
        invariant
            iter.seq() == text@,
            out@ == encode_utf16(text@.take(iter.index() as int)),
    {
        push_units(&mut out, c);
        proof {
            let next = text@.take(iter.index() as int + 1);
            assert(next.drop_last() =~= text@.take(iter.index() as int));
            assert(next.last() == c);
        }
    }
    assert(text@.take(text@.len() as int) =~= text@);
    out
}

/// The text code units stand for; half a surrogate pair becomes U+FFFD.
pub fn decode_units(units: &[u16]) -> (r: String)
    ensures
        r@ == decode_lossy(units@),
{
    let mut out: String = String::new();
    let mut i: usize = 0;
    assert(units@.skip(0) =~= units@);
    assert(out@ + decode_lossy(units@) =~= decode_lossy(units@));
    while i < units.len()
        invariant
            i <= units@.len(),
            out@ + decode_lossy(units@.skip(i as int)) == decode_lossy(units@),
        decreases units@.len() - i,
    {
        let ghost before = out@;
        let ghost rest = units@.skip(i as int);
        let unit: u16 = units[i];
        if 0xD800 <= unit && unit <= 0xDBFF && i + 1 < units.len() && 0xDC00 <= units[i + 1]
            && units[i + 1] <= 0xDFFF {
            let low: u16 = units[i + 1];
            let v: u32 = 0x10000 + (unit as u32 - 0xD800) * 0x400 + (low as u32 - 0xDC00);
            if let Some(c) = char::from_u32(v) {
                out.push(c);
            }
            proof {
                assert(rest.skip(2) =~= units@.skip(i + 2));
                assert(out@ + decode_lossy(rest.skip(2)) =~= before + decode_lossy(rest));
            }
            i += 2;
        } else {
            if 0xD800 <= unit && unit <= 0xDFFF {
                out.push('\u{FFFD}');
            } else {
                if let Some(c) = char::from_u32(unit as u32) {
                    out.push(c);
                }
            }
            proof {
                assert(rest.skip(1) =~= units@.skip(i + 1));
                assert(out@ + decode_lossy(rest.skip(1)) =~= before + decode_lossy(rest));
            }
            i += 1;
        }
    }
    assert(out@ + decode_lossy(units@.skip(i as int)) =~= out@);
    out
}

/// The text code units stand for, and none where a surrogate is not half of a pair.
pub fn decode_units_strict(units: &[u16]) -> (r: Option<String>)
    ensures
        match r {
            Some(text) => well_formed_utf16(units@) && text@ == decode_lossy(units@),
            None => !well_formed_utf16(units@),
        },
{
    let mut i: usize = 0;
    assert(units@.skip(0) =~= units@);
    while i < units.len()
        invariant
            i <= units@.len(),
            well_formed_utf16(units@.skip(i as int)) == well_formed_utf16(units@),
        decreases units@.len() - i,
    {
        let ghost rest = units@.skip(i as int);
        let unit: u16 = units[i];
        if 0xD800 <= unit && unit <= 0xDBFF {
            if i + 1 >= units.len() || units[i + 1] < 0xDC00 || units[i + 1] > 0xDFFF {
                return None;
            }
            assert(rest.skip(2) =~= units@.skip(i + 2));
            i += 2;
        } else {
            if 0xDC00 <= unit && unit <= 0xDFFF {
                return None;
            }
            assert(rest.skip(1) =~= units@.skip(i + 1));
            i += 1;
        }
    }
    Some(decode_units(units))
}

/// The code units in a byte string; an odd byte at the end is ignored.
fn units_of_bytes(bytes: &[u8], big_endian: bool) -> (r: Vec<u16>)
    ensures
        r@ == byte_units(bytes@, big_endian),
{
    let mut out: Vec<u16> = Vec::new();
    let count: usize = bytes.len() / 2;
    let mut i: usize = 0;
    while i < count
        invariant
            count == bytes@.len() / 2,
            2 * count <= usize::MAX,
            i <= count,
            out@ == byte_units(bytes@, big_endian).take(i as int),
        decreases count - i,
    {
        let first: u16 = bytes[2 * i] as u16;
        let second: u16 = bytes[2 * i + 1] as u16;
        if big_endian {
            out.push(first * 256 + second);
        } else {
            out.push(second * 256 + first);
        }
        i += 1;
        assert(out@ =~= byte_units(bytes@, big_endian).take(i as int));
    }
    assert(byte_units(bytes@, big_endian).take(count as int) =~= byte_units(bytes@, big_endian));
    out
}

/// The bytes of code units, each in the asked-for order.
fn bytes_of_units(units: &[u16], big_endian: bool) -> (r: Vec<u8>)
    ensures
        r@ == unit_bytes(units@, big_endian),
{
    let mut out: Vec<u8> = Vec::new();
    let mut i: usize = 0;
    while i < units.len()
        invariant
            i <= units@.len(),
            out@ == unit_bytes(units@, big_endian).take(2 * i as int),
        decreases units@.len() - i,
    {
        let unit: u16 = units[i];
        let high: u8 = (unit / 256) as u8;
        let low: u8 = (unit % 256) as u8;
        if big_endian {
            out.push(high);
            out.push(low);
        } else {
            out.push(low);
            out.push(high);
        }
        i += 1;
        proof {
            let whole = unit_bytes(units@, big_endian);
            assert((2 * i - 2) / 2 == i - 1);
            assert((2 * i - 1) / 2 == i - 1);
            assert((2 * i - 2) % 2 == 0);
            assert((2 * i - 1) % 2 == 1);
            assert(out@ =~= whole.take(2 * i as int));
        }
    }
    assert(unit_bytes(units@, big_endian).take(2 * units@.len() as int) =~= unit_bytes(
        units@,
        big_endian,
    ));
    out
}

/// The text a UTF-16 byte string holds.
pub fn decode_utf16(bytes: &[u8], big_endian: bool) -> (r: String)
    ensures
        r@ == decode_lossy(byte_units(bytes@, big_endian)),
{
    let units = units_of_bytes(bytes, big_endian);
    decode_units(units.as_slice())
}

/// A text in UTF-16 bytes.
pub fn utf16_bytes(text: &str, big_endian: bool) -> (r: Vec<u8>)
    ensures
        r@ == unit_bytes(encode_utf16(text@), big_endian),
{
    let units = utf16_units(text);
    bytes_of_units(units.as_slice(), big_endian)
}

/// A code unit whose bytes in memory are in the asked-for order.
pub open spec fn ordered_unit(unit: u16, big_endian: bool, host_big_endian: bool) -> u16 {
    if big_endian == host_big_endian {
        unit
    } else {
        ((unit % 256) * 256 + unit / 256) as u16
    }
}

/// UTF-8 text as UTF-16 code units whose bytes in memory are in the asked-for order. They are code
/// units rather than loose bytes so that the buffer is aligned to two bytes.
pub fn to_utf16(bytes: &[u8], big_endian: bool, host_big_endian: bool) -> (r: Vec<u16>)
    ensures
        r@ == encode_utf16(text_of(bytes@)).map_values(
            |unit: u16| ordered_unit(unit, big_endian, host_big_endian),
        ),
{
    let text = from_utf8_lossy(bytes);
    let units = utf16_units(text.as_str());
    let mut out: Vec<u16> = Vec::new();
    let mut i: usize = 0;
    let ghost ordered = units@.map_values(
        |unit: u16| ordered_unit(unit, big_endian, host_big_endian),
    );
    while i < units.len()
        invariant
            i <= units@.len(),
            ordered == units@.map_values(
                |unit: u16| ordered_unit(unit, big_endian, host_big_endian),
            ),
            out@ == ordered.take(i as int),
        decreases units@.len() - i,
    {
        let unit: u16 = units[i];
        if big_endian == host_big_endian {
            out.push(unit);
        } else {
            out.push((unit % 256) * 256 + unit / 256);
        }
        i += 1;
        assert(out@ =~= ordered.take(i as int));
    }
    assert(ordered.take(units@.len() as int) =~= ordered);
    out
}

proof fn lemma_encode_first(text: Seq<char>)
    requires
        text.len() > 0,
    ensures
        encode_utf16(text) == char_units(text[0]) + encode_utf16(text.drop_first()),
    decreases text.len(),
{
    if text.len() == 1 {
        assert(text.drop_last() =~= Seq::<char>::empty());
        assert(text.drop_first() =~= Seq::<char>::empty());
        assert(encode_utf16(text) =~= char_units(text[0]) + encode_utf16(text.drop_first()));
    } else {
        lemma_encode_first(text.drop_last());
        assert(text.drop_last().drop_first() =~= text.drop_first().drop_last());
        assert(text.drop_first().last() == text.last());
        assert(encode_utf16(text) =~= char_units(text[0]) + encode_utf16(text.drop_first()));
    }
}

proof fn lemma_decode_char(c: char, rest: Seq<u16>)
    ensures
        decode_lossy(char_units(c) + rest) == seq![c] + decode_lossy(rest),
        well_formed_utf16(char_units(c) + rest) == well_formed_utf16(rest),
{
    let units = char_units(c) + rest;
    let v = c as u32;
    if v < 0x10000 {
        assert(units[0] == v);
        assert(units.skip(1) =~= rest);
    } else {
        assert(units[0] == high_surrogate(c));
        assert(units[1] == low_surrogate(c));
        assert(units.skip(2) =~= rest);
        assert(pair_char(units[0], units[1]) == c);
    }
}

/// Text that is written as UTF-16 reads back unchanged, and no surrogate in it is left alone.
pub proof fn law_utf16_round_trip(text: Seq<char>)
    ensures
        decode_lossy(encode_utf16(text)) == text,
        well_formed_utf16(encode_utf16(text)),
    decreases text.len(),
{
    if text.len() > 0 {
        lemma_encode_first(text);
        lemma_decode_char(text[0], encode_utf16(text.drop_first()));
        law_utf16_round_trip(text.drop_first());
        assert(seq![text[0]] + text.drop_first() =~= text);
    }
}

/// Code units written as bytes read back unchanged in the same byte order, and an odd byte after
/// them makes no difference.
pub proof fn law_byte_order_round_trip(units: Seq<u16>, big_endian: bool, odd: u8)
    ensures
        byte_units(unit_bytes(units, big_endian), big_endian) == units,
        byte_units(unit_bytes(units, big_endian).push(odd), big_endian) == units,
{
    let bytes = unit_bytes(units, big_endian);
    assert forall|i: int| 0 <= i < units.len() implies #[trigger] byte_units(
        bytes,
        big_endian,
    )[i] == units[i] && byte_units(bytes.push(odd), big_endian)[i] == units[i] by {
        assert((2 * i) / 2 == i);
        assert((2 * i + 1) / 2 == i);
        assert((2 * i) % 2 == 0);
        assert((2 * i + 1) % 2 == 1);
    }
    assert(byte_units(bytes, big_endian) =~= units);
    assert(byte_units(bytes.push(odd), big_endian) =~= units);
}

/// Reading the code units of `to_utf16` as bytes, on a host of either byte order, gives the text in
/// the asked-for encoding.
pub proof fn law_ordered_units_are_the_asked_for_bytes(
    units: Seq<u16>,
    big_endian: bool,
    host_big_endian: bool,
)
    ensures
        unit_bytes(
            units.map_values(|unit: u16| ordered_unit(unit, big_endian, host_big_endian)),
            host_big_endian,
        ) == unit_bytes(units, big_endian),
{
    let ordered = units.map_values(|unit: u16| ordered_unit(unit, big_endian, host_big_endian));
    assert forall|i: int| 0 <= i < 2 * units.len() implies #[trigger] unit_bytes(
        ordered,
        host_big_endian,
    )[i] == unit_bytes(units, big_endian)[i] by {
        let unit = units[i / 2];
        assert(ordered[i / 2] == ordered_unit(unit, big_endian, host_big_endian));
    }
    assert(unit_bytes(ordered, host_big_endian) =~= unit_bytes(units, big_endian));
}

}
