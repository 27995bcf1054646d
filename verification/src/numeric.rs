//! NUMERIC affinity: which text is a number, and which number it is.

use vstd::prelude::*;

use crate::text::{chars_of, string_of};

verus! {

/// A number found in text.
#[derive(Debug)]
pub enum NumericText {
    Integer(i64),
    /// A number that is not a 64-bit integer: its digits, without the white space around them.
    Real(String),
}

/// A number found in text, as its characters.
pub enum NumericTextView {
    Integer(int),
    Real(Seq<char>),
}

impl View for NumericText {
    type V = NumericTextView;

    open spec fn view(&self) -> NumericTextView {
        match self {
            NumericText::Integer(i) => NumericTextView::Integer(*i as int),
            NumericText::Real(text) => NumericTextView::Real(text@),
        }
    }
}

/// ASCII white space.
pub open spec fn is_space(c: char) -> bool {
    c == ' ' || c == '\t' || c == '\n' || c == '\r' || c as u32 == 0x0C
}

pub open spec fn is_digit(c: char) -> bool {
    '0' <= c <= '9'
}

/// The text without the white space in front of it.
pub open spec fn trim_start(s: Seq<char>) -> Seq<char>
    decreases s.len(),
{
    if s.len() > 0 && is_space(s[0]) {
        trim_start(s.skip(1))
    } else {
        s
    }
}

/// The text without the white space behind it.
pub open spec fn trim_end(s: Seq<char>) -> Seq<char>
    decreases s.len(),
{
    if s.len() > 0 && is_space(s.last()) {
        trim_end(s.drop_last())
    } else {
        s
    }
}

/// The text without the white space on either side.
pub open spec fn trimmed(s: Seq<char>) -> Seq<char> {
    trim_end(trim_start(s))
}

/// How many digits stand in a row from position `at`.
pub open spec fn run(s: Seq<char>, at: int) -> nat
    decreases s.len() - at,
{
    if 0 <= at < s.len() && is_digit(s[at]) {
        1 + run(s, at + 1)
    } else {
        0
    }
}

/// Whether `s` holds `a` or `b` at position `at`.
pub open spec fn either_at(s: Seq<char>, at: int, a: char, b: char) -> bool {
    0 <= at < s.len() && (s[at] == a || s[at] == b)
}

/// The length of a sign at position `at`.
pub open spec fn sign_len(s: Seq<char>, at: int) -> int {
    if either_at(s, at, '+', '-') {
        1
    } else {
        0
    }
}

/// Where the digits before any point end.
pub open spec fn whole_end(s: Seq<char>) -> int {
    sign_len(s, 0) + run(s, sign_len(s, 0))
}

pub open spec fn has_point(s: Seq<char>) -> bool {
    whole_end(s) < s.len() && s[whole_end(s)] == '.'
}

/// Where the digits, with a point and those behind it, end.
pub open spec fn mantissa_end(s: Seq<char>) -> int {
    if has_point(s) {
        whole_end(s) + 1 + run(s, whole_end(s) + 1)
    } else {
        whole_end(s)
    }
}

/// How many digits there are before an exponent.
pub open spec fn mantissa_digits(s: Seq<char>) -> nat {
    if has_point(s) {
        run(s, sign_len(s, 0)) + run(s, whole_end(s) + 1)
    } else {
        run(s, sign_len(s, 0))
    }
}

pub open spec fn has_exponent(s: Seq<char>) -> bool {
    either_at(s, mantissa_end(s), 'e', 'E')
}

/// Where the digits of an exponent begin.
pub open spec fn exponent_start(s: Seq<char>) -> int {
    mantissa_end(s) + 1 + sign_len(s, mantissa_end(s) + 1)
}

/// Where a number that begins the text ends.
pub open spec fn number_end(s: Seq<char>) -> int {
    if has_exponent(s) {
        exponent_start(s) + run(s, exponent_start(s))
    } else {
        mantissa_end(s)
    }
}

/// Whether the whole of `s` is a number: an optional sign, digits with at most one point among or
/// beside them, and an optional exponent with at least one digit of its own.
pub open spec fn is_number(s: Seq<char>) -> bool {
    &&& mantissa_digits(s) > 0
    &&& has_exponent(s) ==> run(s, exponent_start(s)) > 0
    &&& number_end(s) == s.len()
}

/// The number that digits stand for.
pub open spec fn digits_value(s: Seq<char>) -> int
    decreases s.len(),
{
    if s.len() == 0 {
        0
    } else {
        10 * digits_value(s.drop_last()) + (s.last() as u32 - '0' as u32)
    }
}

/// The integer that an optional sign and digits stand for.
pub open spec fn integer_value(s: Seq<char>) -> int {
    let magnitude = digits_value(s.skip(sign_len(s, 0)));
    if s.len() > 0 && s[0] == '-' {
        -magnitude
    } else {
        magnitude
    }
}

/// What NUMERIC affinity makes of a text: nothing unless all of it but the white space around it is
/// a number, an integer where it is written as one and fits 64 bits, and otherwise a real.
pub open spec fn affinity(text: Seq<char>) -> Option<NumericTextView> {
    let s = trimmed(text);
    if !is_number(s) {
        None
    } else if !has_point(s) && !has_exponent(s) && i64::MIN <= integer_value(s) <= i64::MAX {
        Some(NumericTextView::Integer(integer_value(s)))
    } else {
        Some(NumericTextView::Real(s))
    }
}

proof fn lemma_run_bound(s: Seq<char>, at: int)
    ensures
        0 <= at <= s.len() ==> at + run(s, at) <= s.len(),
        0 <= at && at + run(s, at) < s.len() ==> !is_digit(s[at + run(s, at)]),
        forall|j: int| 0 <= at <= j < at + run(s, at) ==> is_digit(#[trigger] s[j]),
    decreases s.len() - at,
{
    if 0 <= at < s.len() && is_digit(s[at]) {
        lemma_run_bound(s, at + 1);
    }
}

fn digit(c: char) -> (r: bool)
    ensures
        r == is_digit(c),
{
    '0' <= c && c <= '9'
}

fn space(c: char) -> (r: bool)
    ensures
        r == is_space(c),
{
    c == ' ' || c == '\t' || c == '\n' || c == '\r' || c as u32 == 0x0C
}

/// Moves past a row of digits and says how many there were.
pub fn take_digits(chars: &[char], at: &mut usize) -> (r: usize)
    ensures
        r == run(chars@, *old(at) as int),
        *final(at) == *old(at) + r,
        *old(at) <= chars@.len() ==> *final(at) <= chars@.len(),
{
    let mut digits: usize = 0;
    let ghost start = *at as int;
    while *at < chars.len() && digit(chars[*at])
        invariant
            start == *old(at),
            start <= chars@.len() ==> *at <= chars@.len(),
            *at == start + digits,
            run(chars@, start) == digits + run(chars@, *at as int),
        decreases chars@.len() - *at,
    {
        *at = *at + 1;
        digits = digits + 1;
    }
    digits
}

/// The characters of a text without the white space on either side.
pub fn trim(text: &str) -> (r: Vec<char>)
    ensures
        r@ == trimmed(text@),
{
    let chars = chars_of(text);
    let mut from: usize = 0;
    assert(chars@.skip(0) =~= chars@);
    while from < chars.len() && space(chars[from])
        invariant
            from <= chars@.len(),
            trim_start(chars@.skip(from as int)) == trim_start(chars@),
        decreases chars@.len() - from,
    {
        assert(chars@.skip(from as int).skip(1) =~= chars@.skip(from + 1));
        from += 1;
    }
    let ghost started = chars@.skip(from as int);
    let mut to: usize = chars.len();
    assert(chars@.subrange(from as int, to as int) =~= started);
    while to > from && space(chars[to - 1])
        invariant
            from <= to <= chars@.len(),
            trim_end(chars@.subrange(from as int, to as int)) == trim_end(started),
        decreases to,
    {
        assert(chars@.subrange(from as int, to as int).drop_last() =~= chars@.subrange(
            from as int,
            to - 1,
        ));
        to -= 1;
    }
    let mut out: Vec<char> = Vec::new();
    let mut i: usize = from;
    while i < to
        invariant
            from <= i <= to <= chars@.len(),
            out@ == chars@.subrange(from as int, i as int),
        decreases to - i,
    {
        out.push(chars[i]);
        i += 1;
        assert(out@ =~= chars@.subrange(from as int, i as int));
    }
    out
}

/// The 64-bit integer an optional sign and digits stand for, where it fits.
pub fn parse_integer(chars: &[char]) -> (r: Option<i64>)
    requires
        forall|j: int| sign_len(chars@, 0) <= j < chars@.len() ==> is_digit(#[trigger] chars@[j]),
    ensures
        match r {
            Some(i) => i == integer_value(chars@),
            None => !(i64::MIN <= integer_value(chars@) <= i64::MAX),
        },
{
    let mut at: usize = 0;
    let mut negative: bool = false;
    if chars.len() > 0 && (chars[0] == '+' || chars[0] == '-') {
        negative = chars[0] == '-';
        at = 1;
    }
    let ghost start = sign_len(chars@, 0);
    let ghost digits = chars@.skip(start);
    let mut magnitude: u128 = 0;
    let mut too_big: bool = false;
    assert(digits.take(0) =~= Seq::<char>::empty());
    while at < chars.len()
        invariant
            start == sign_len(chars@, 0),
            0 <= start <= at <= chars@.len(),
            digits == chars@.skip(start),
            forall|j: int| start <= j < chars@.len() ==> is_digit(#[trigger] chars@[j]),
            !too_big ==> magnitude == digits_value(digits.take(at - start)) && magnitude
                <= 0x8000_0000_0000_0000,
            too_big ==> digits_value(digits.take(at - start)) > 0x8000_0000_0000_0000,
        decreases chars@.len() - at,
    {
        let d: u128 = (chars[at] as u32 - '0' as u32) as u128;
        proof {
            let next = digits.take(at - start + 1);
            assert(next.drop_last() =~= digits.take(at - start));
            assert(next.last() == chars@[at as int]);
        }
        if !too_big {
            magnitude = magnitude * 10 + d;
            if magnitude > 0x8000_0000_0000_0000 {
                too_big = true;
            }
        }
        at += 1;
    }
    assert(digits.take(digits.len() as int) =~= digits);
    if too_big {
        None
    } else if negative {
        Some((-(magnitude as i128)) as i64)
    } else if magnitude <= 0x7FFF_FFFF_FFFF_FFFF {
        Some(magnitude as i64)
    } else {
        None
    }
}

/// NUMERIC affinity: "12abc" stays text, where CAST would yield 12.
pub fn numeric_affinity(text: &str) -> (r: Option<NumericText>)
    ensures
        match r {
            Some(n) => affinity(text@) == Some(n@),
            None => affinity(text@) is None,
        },
{
    let chars = trim(text);
    let s = chars.as_slice();
    let mut at: usize = 0;
    if s.len() > 0 && (s[0] == '+' || s[0] == '-') {
        at = 1;
    }
    proof {
        lemma_run_bound(s@, at as int);
    }
    let whole: usize = take_digits(s, &mut at);
    let mut any: bool = whole > 0;
    let mut is_float: bool = false;
    if at < s.len() && s[at] == '.' {
        is_float = true;
        at += 1;
        let behind: usize = take_digits(s, &mut at);
        any = any || behind > 0;
    }
    if !any {
        return None;
    }
    if at < s.len() && (s[at] == 'e' || s[at] == 'E') {
        let mut after_exponent: usize = at + 1;
        if after_exponent < s.len() && (s[after_exponent] == '+' || s[after_exponent] == '-') {
            after_exponent += 1;
        }
        if take_digits(s, &mut after_exponent) == 0 {
            return None;
        }
        is_float = true;
        at = after_exponent;
    }
    if at != s.len() {
        return None;
    }
    if !is_float {
        if let Some(integer) = parse_integer(s) {
            return Some(NumericText::Integer(integer));
        }
    }
    Some(NumericText::Real(string_of(s)))
}

/// A text that is a number keeps being the same number whatever white space is put behind it.
pub proof fn law_space_behind_a_number_changes_nothing(text: Seq<char>, c: char)
    requires
        is_space(c),
        exists|i: int| 0 <= i < text.len() && !is_space(#[trigger] text[i]),
    ensures
        affinity(text.push(c)) == affinity(text),
{
    lemma_trim_start_push(text, c);
    let s = trim_start(text);
    assert(s.push(c).last() == c);
    assert(s.push(c).drop_last() =~= s);
}

proof fn lemma_trim_start_push(text: Seq<char>, c: char)
    requires
        exists|i: int| 0 <= i < text.len() && !is_space(#[trigger] text[i]),
    ensures
        trim_start(text.push(c)) == trim_start(text).push(c),
    decreases text.len(),
{
    if is_space(text[0]) {
        let i = choose|i: int| 0 <= i < text.len() && !is_space(#[trigger] text[i]);
        assert(text.skip(1)[i - 1] == text[i]);
        assert(text.push(c).skip(1) =~= text.skip(1).push(c));
        lemma_trim_start_push(text.skip(1), c);
    }
}

/// Digits never stand for a negative number.
pub proof fn lemma_digits_value_nonnegative(s: Seq<char>)
    requires
        forall|i: int| 0 <= i < s.len() ==> is_digit(#[trigger] s[i]),
    ensures
        digits_value(s) >= 0,
    decreases s.len(),
{
    if s.len() > 0 {
        assert(is_digit(s[s.len() - 1]));
        lemma_digits_value_nonnegative(s.drop_last());
    }
}

proof fn lemma_digits_are_digits(n: nat)
    ensures
        crate::text::digits(n).len() > 0,
        forall|i: int|
            0 <= i < crate::text::digits(n).len() ==> is_digit(#[trigger] crate::text::digits(n)[i]),
        digits_value(crate::text::digits(n)) == n,
    decreases n,
{
    reveal_with_fuel(digits_value, 2);
    if n < 10 {
        let s = seq![crate::text::digit_char(n)];
        assert(s.drop_last() =~= Seq::<char>::empty());
        assert(s.last() == crate::text::digit_char(n));
    } else {
        lemma_digits_are_digits(n / 10);
        let head = crate::text::digits(n / 10);
        let s = head.push(crate::text::digit_char(n % 10));
        assert(s.drop_last() =~= head);
        assert(s.last() == crate::text::digit_char(n % 10));
    }
}

proof fn lemma_run_of_digits(s: Seq<char>, at: int)
    requires
        0 <= at <= s.len(),
        forall|i: int| at <= i < s.len() ==> is_digit(#[trigger] s[i]),
    ensures
        run(s, at) == s.len() - at,
    decreases s.len() - at,
{
    if at < s.len() {
        assert(is_digit(s[at]));
        lemma_run_of_digits(s, at + 1);
    }
}

/// An integer written in decimal is digits behind an optional minus sign, which stand for it.
pub proof fn lemma_decimal_value(n: int)
    ensures
        ({
            let s = crate::text::decimal(n);
            let sign: int = if n < 0 {
                1
            } else {
                0
            };
            &&& sign < s.len()
            &&& (s[0] == '-') == (n < 0)
            &&& sign_len(s, 0) == sign
            &&& forall|i: int| sign <= i < s.len() ==> is_digit(#[trigger] s[i])
            &&& integer_value(s) == n
        }),
{
    let s = crate::text::decimal(n);
    let magnitude: nat = if n < 0 {
        (-n) as nat
    } else {
        n as nat
    };
    let body = crate::text::digits(magnitude);
    lemma_digits_are_digits(magnitude);
    let sign: int = if n < 0 {
        1
    } else {
        0
    };
    assert(s.skip(sign) =~= body);
    assert forall|i: int| sign <= i < s.len() implies is_digit(#[trigger] s[i]) by {
        assert(s[i] == body[i - sign]);
    }
    if n >= 0 {
        assert(is_digit(s[0]));
    }
}

/// Every 64-bit integer written in decimal has NUMERIC affinity with itself.
pub proof fn law_decimal_integers_read_back(n: i64)
    ensures
        affinity(crate::text::decimal(n as int)) == Some(NumericTextView::Integer(n as int)),
{
    let s = crate::text::decimal(n as int);
    lemma_decimal_value(n as int);
    assert(is_digit(s.last()));
    assert(trimmed(s) == s);
    lemma_run_of_digits(s, sign_len(s, 0));
}

}
