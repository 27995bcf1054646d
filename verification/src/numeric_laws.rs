//! Which text is a number and which number it is, said of how numbers are spelled.

use vstd::prelude::*;

use crate::javascript::{js_to_value, JsValue};
use crate::numeric::{numeric_affinity, NumericText};
use crate::value::{Numeric, Value};

verus! {

/// Whether a text is nothing but decimal digits.
pub open spec fn only_digits(s: Seq<char>) -> bool {
    forall|i: int| 0 <= i < s.len() ==> '0' <= (#[trigger] s[i]) <= '9'
}

/// Whether a text is nothing but ASCII white space.
pub open spec fn only_space(s: Seq<char>) -> bool {
    forall|i: int| 0 <= i < s.len() ==> one_space(#[trigger] s[i])
}

/// Whether a character is a space, a tab, a line feed, a form feed or a carriage return.
pub open spec fn one_space(c: char) -> bool {
    c == ' ' || c == '\t' || c == '\n' || c == '\r' || c as u32 == 12
}

/// Whether a text is a sign or nothing.
pub open spec fn maybe_sign(s: Seq<char>) -> bool {
    s == Seq::<char>::empty() || s == seq!['+'] || s == seq!['-']
}

/// The parts a number is spelled of.
pub struct Spelling {
    pub sign: Seq<char>,
    pub whole: Seq<char>,
    pub point: bool,
    pub part: Seq<char>,
    pub exponent: bool,
    pub mark: char,
    pub power_sign: Seq<char>,
    pub power: Seq<char>,
}

impl Spelling {
    /// The parts one after the other.
    pub open spec fn text(self) -> Seq<char> {
        self.sign + self.whole + (if self.point {
            seq!['.'] + self.part
        } else {
            Seq::empty()
        }) + (if self.exponent {
            seq![self.mark] + self.power_sign + self.power
        } else {
            Seq::empty()
        })
    }

    /// Whether the parts make a number: digits before or behind the point, however many, and behind
    /// an `e`, with a sign or without one, at least one digit more.
    pub open spec fn proper(self) -> bool {
        &&& maybe_sign(self.sign)
        &&& only_digits(self.whole)
        &&& only_digits(self.part)
        &&& self.whole.len() + self.part.len() > 0
        &&& !self.point ==> self.part.len() == 0
        &&& self.exponent ==> {
            &&& self.mark == 'e' || self.mark == 'E'
            &&& maybe_sign(self.power_sign)
            &&& only_digits(self.power)
            &&& self.power.len() > 0
        }
    }
}

/// Whether a text is a number of these parts with white space on either side.
pub open spec fn spells(text: Seq<char>, lead: Seq<char>, parts: Spelling, tail: Seq<char>) -> bool {
    &&& parts.proper()
    &&& only_space(lead)
    &&& only_space(tail)
    &&& text == lead + parts.text() + tail
}

proof fn lemma_run_is(s: Seq<char>, at: int, n: nat)
    requires
        0 <= at,
        at + n <= s.len(),
        forall|i: int| at <= i < at + n ==> crate::numeric::is_digit(#[trigger] s[i]),
        at + n < s.len() ==> !crate::numeric::is_digit(s[at + n]),
    ensures
        crate::numeric::run(s, at) == n,
    decreases n,
{
    if n > 0 {
        assert(crate::numeric::is_digit(s[at]));
        lemma_run_is(s, at + 1, (n - 1) as nat);
    }
}

proof fn lemma_spelling(p: Spelling)
    requires
        p.proper(),
    ensures
        ({
            let s = p.text();
            &&& s.len() > 0
            &&& !crate::numeric::is_space(s[0])
            &&& !crate::numeric::is_space(s.last())
            &&& crate::numeric::is_number(s)
            &&& crate::numeric::has_point(s) == p.point
            &&& crate::numeric::has_exponent(s) == p.exponent
            &&& crate::numeric::sign_len(s, 0) == p.sign.len()
        }),
{
    let s = p.text();
    let a = p.sign.len() as int;
    let b = a + p.whole.len();
    let c = if p.point {
        b + 1 + p.part.len()
    } else {
        b
    };
    assert(s.take(a) =~= p.sign);
    assert(s.subrange(a, b) =~= p.whole);
    assert forall|i: int| a <= i < b implies crate::numeric::is_digit(#[trigger] s[i]) by {
        assert(s[i] == p.whole[i - a]);
    }
    if p.point {
        assert(s[b] == '.');
        assert forall|i: int| b + 1 <= i < c implies crate::numeric::is_digit(#[trigger] s[i]) by {
            assert(s[i] == p.part[i - b - 1]);
        }
    }
    if a > 0 {
        assert(s[0] == p.sign[0]);
    } else if p.whole.len() > 0 {
        assert(s[0] == p.whole[0]);
    } else {
        assert(s[0] == '.');
    }
    if p.exponent {
        assert(s[c] == p.mark);
        let d = c + 1 + p.power_sign.len();
        if p.power_sign.len() > 0 {
            assert(s[c + 1] == p.power_sign[0]);
        } else {
            assert(s[c + 1] == p.power[0]);
        }
        assert forall|i: int| d <= i < s.len() implies crate::numeric::is_digit(#[trigger] s[i]) by {
            assert(s[i] == p.power[i - d]);
        }
        assert(crate::numeric::is_digit(s[s.len() - 1]));
        lemma_run_is(s, d, p.power.len());
    } else {
        assert(s.len() == c);
    }
    lemma_run_is(s, a, p.whole.len());
    if p.point {
        lemma_run_is(s, b + 1, p.part.len());
    }
    if !p.exponent {
        if p.part.len() > 0 {
            assert(s.last() == p.part.last());
        } else if p.point {
            assert(s.last() == '.');
        } else {
            assert(s.last() == p.whole.last());
        }
    }
}

proof fn lemma_trim_lead(lead: Seq<char>, s: Seq<char>)
    requires
        only_space(lead),
        s.len() > 0,
        !crate::numeric::is_space(s[0]),
    ensures
        crate::numeric::trim_start(lead + s) == s,
    decreases lead.len(),
{
    if lead.len() > 0 {
        assert(one_space(lead[0]));
        assert((lead + s)[0] == lead[0]);
        assert((lead + s).skip(1) =~= lead.skip(1) + s);
        assert forall|i: int| 0 <= i < lead.skip(1).len() implies one_space(
            #[trigger] lead.skip(1)[i],
        ) by {
            assert(lead.skip(1)[i] == lead[i + 1]);
        }
        lemma_trim_lead(lead.skip(1), s);
    } else {
        assert(lead + s =~= s);
    }
}

proof fn lemma_trim_tail(s: Seq<char>, tail: Seq<char>)
    requires
        only_space(tail),
        s.len() > 0,
        !crate::numeric::is_space(s.last()),
    ensures
        crate::numeric::trim_end(s + tail) == s,
    decreases tail.len(),
{
    if tail.len() > 0 {
        assert(one_space(tail.last()));
        assert((s + tail).last() == tail.last());
        assert((s + tail).drop_last() =~= s + tail.drop_last());
        assert forall|i: int| 0 <= i < tail.drop_last().len() implies one_space(
            #[trigger] tail.drop_last()[i],
        ) by {
            assert(tail.drop_last()[i] == tail[i]);
        }
        lemma_trim_tail(s, tail.drop_last());
    } else {
        assert(s + tail =~= s);
    }
}

proof fn lemma_trimmed(lead: Seq<char>, s: Seq<char>, tail: Seq<char>)
    requires
        only_space(lead),
        only_space(tail),
        s.len() > 0,
        !crate::numeric::is_space(s[0]),
        !crate::numeric::is_space(s.last()),
    ensures
        crate::numeric::trimmed(lead + s + tail) == s,
{
    assert(lead + s + tail =~= lead + (s + tail));
    assert((s + tail)[0] == s[0]);
    lemma_trim_lead(lead, s + tail);
    lemma_trim_tail(s, tail);
}

/// Whatever is spelled like a number is one, however many digits each part has and whatever white
/// space is around it. With a point or an exponent it is the real spelled so; without either it is
/// an integer, or the real spelled so.
pub proof fn law_what_is_spelled_like_a_number_is_one(
    text: &str,
    lead: Seq<char>,
    parts: Spelling,
    tail: Seq<char>,
    r: Option<NumericText>,
)
    requires
        spells(text@, lead, parts, tail),
        call_ensures(numeric_affinity, (text,), r),
    ensures
        r is Some,
        parts.point || parts.exponent ==> (r matches Some(NumericText::Real(t)) && t@
            == parts.text()),
        r matches Some(NumericText::Real(t)) ==> t@ == parts.text(),
{
    lemma_spelling(parts);
    lemma_trimmed(lead, parts.text(), tail);
}

/// A sign or none, digits, a point and digits are a real, however many digits there are; and so they
/// are with an exponent of any number of digits behind them.
pub proof fn law_a_number_with_a_point_is_a_real(
    text: &str,
    with_exponent: &str,
    sign: Seq<char>,
    w: Seq<char>,
    f: Seq<char>,
    mark: char,
    power_sign: Seq<char>,
    x: Seq<char>,
    r: Option<NumericText>,
    q: Option<NumericText>,
)
    requires
        maybe_sign(sign),
        only_digits(w),
        only_digits(f),
        w.len() > 0,
        f.len() > 0,
        mark == 'e' || mark == 'E',
        maybe_sign(power_sign),
        only_digits(x),
        x.len() > 0,
        text@ == sign + w + seq!['.'] + f,
        with_exponent@ == text@ + seq![mark] + power_sign + x,
        call_ensures(numeric_affinity, (text,), r),
        call_ensures(numeric_affinity, (with_exponent,), q),
    ensures
        r matches Some(NumericText::Real(t)) && t@ == text@,
        q matches Some(NumericText::Real(t)) && t@ == with_exponent@,
{
    let plain = Spelling {
        sign,
        whole: w,
        point: true,
        part: f,
        exponent: false,
        mark,
        power_sign,
        power: x,
    };
    let scaled = Spelling { exponent: true, ..plain };
    let none = Seq::<char>::empty();
    assert(plain.text() =~= text@);
    assert(scaled.text() =~= with_exponent@);
    assert(none + plain.text() + none =~= text@);
    assert(none + scaled.text() + none =~= with_exponent@);
    law_what_is_spelled_like_a_number_is_one(text, none, plain, none, r);
    law_what_is_spelled_like_a_number_is_one(with_exponent, none, scaled, none, q);
}

proof fn lemma_lead_of(s: Seq<char>) -> (lead: Seq<char>)
    ensures
        only_space(lead),
        s == lead + crate::numeric::trim_start(s),
    decreases s.len(),
{
    if s.len() > 0 && crate::numeric::is_space(s[0]) {
        let rest = lemma_lead_of(s.skip(1));
        let lead = seq![s[0]] + rest;
        assert forall|i: int| 0 <= i < lead.len() implies one_space(#[trigger] lead[i]) by {
            if i > 0 {
                assert(lead[i] == rest[i - 1]);
            }
        }
        assert(s =~= seq![s[0]] + s.skip(1));
        assert(s =~= lead + crate::numeric::trim_start(s.skip(1)));
        lead
    } else {
        assert(s =~= Seq::<char>::empty() + s);
        Seq::empty()
    }
}

proof fn lemma_tail_of(s: Seq<char>) -> (tail: Seq<char>)
    ensures
        only_space(tail),
        s == crate::numeric::trim_end(s) + tail,
    decreases s.len(),
{
    if s.len() > 0 && crate::numeric::is_space(s.last()) {
        let rest = lemma_tail_of(s.drop_last());
        let tail = rest.push(s.last());
        assert forall|i: int| 0 <= i < tail.len() implies one_space(#[trigger] tail[i]) by {
            if i < rest.len() {
                assert(tail[i] == rest[i]);
            }
        }
        assert(s =~= s.drop_last().push(s.last()));
        assert(s =~= crate::numeric::trim_end(s.drop_last()) + tail);
        tail
    } else {
        assert(s =~= s + Seq::<char>::empty());
        Seq::empty()
    }
}

proof fn lemma_run_digits(s: Seq<char>, at: int)
    requires
        0 <= at <= s.len(),
    ensures
        at + crate::numeric::run(s, at) <= s.len(),
        only_digits(s.subrange(at, at + crate::numeric::run(s, at))),
    decreases s.len() - at,
{
    if at < s.len() && crate::numeric::is_digit(s[at]) {
        lemma_run_digits(s, at + 1);
        let end = at + crate::numeric::run(s, at);
        let rest = s.subrange(at + 1, end);
        assert forall|i: int| 0 <= i < end - at implies '0' <= (#[trigger] s.subrange(
            at,
            end,
        )[i]) <= '9' by {
            if i > 0 {
                assert(rest[i - 1] == s[at + i]);
            }
        }
    }
}

proof fn lemma_sign_of(s: Seq<char>, at: int)
    requires
        0 <= at <= s.len(),
    ensures
        at + crate::numeric::sign_len(s, at) <= s.len(),
        maybe_sign(s.subrange(at, at + crate::numeric::sign_len(s, at))),
{
    let sign = s.subrange(at, at + crate::numeric::sign_len(s, at));
    if crate::numeric::either_at(s, at, '+', '-') {
        assert(sign =~= seq![s[at]]);
    } else {
        assert(sign =~= Seq::<char>::empty());
    }
}

proof fn lemma_number_is_spelled(s: Seq<char>) -> (p: Spelling)
    requires
        crate::numeric::is_number(s),
    ensures
        p.proper(),
        p.text() == s,
{
    let a = crate::numeric::sign_len(s, 0);
    let b = crate::numeric::whole_end(s);
    let c = crate::numeric::mantissa_end(s);
    lemma_sign_of(s, 0);
    lemma_run_digits(s, a);
    let point = crate::numeric::has_point(s);
    if point {
        lemma_run_digits(s, b + 1);
    }
    let part = if point {
        s.subrange(b + 1, c)
    } else {
        Seq::empty()
    };
    let exponent = crate::numeric::has_exponent(s);
    let mark = if exponent {
        s[c]
    } else {
        'e'
    };
    let d = c + 1 + crate::numeric::sign_len(s, c + 1);
    if exponent {
        lemma_sign_of(s, c + 1);
        lemma_run_digits(s, d);
    }
    let power_sign = if exponent {
        s.subrange(c + 1, d)
    } else {
        Seq::empty()
    };
    let power = if exponent {
        s.subrange(d, s.len() as int)
    } else {
        Seq::empty()
    };
    let p = Spelling {
        sign: s.subrange(0, a),
        whole: s.subrange(a, b),
        point,
        part,
        exponent,
        mark,
        power_sign,
        power,
    };
    assert(p.text() =~= s);
    p
}

/// Nothing else is a number: a text that is taken as one is spelled like one, with nothing but white
/// space around it.
pub proof fn law_a_number_is_spelled_like_one(text: &str, r: Option<NumericText>)
    requires
        call_ensures(numeric_affinity, (text,), r),
        r is Some,
    ensures
        exists|lead: Seq<char>, parts: Spelling, tail: Seq<char>| #[trigger]
            spells(text@, lead, parts, tail),
{
    let lead = lemma_lead_of(text@);
    let tail = lemma_tail_of(crate::numeric::trim_start(text@));
    let parts = lemma_number_is_spelled(crate::numeric::trimmed(text@));
    assert(text@ =~= lead + parts.text() + tail);
    assert(spells(text@, lead, parts, tail));
}

/// White space around a text changes nothing of the number it is, or of its not being one.
pub proof fn law_space_around_a_number_changes_nothing(
    text: &str,
    spaced: &str,
    lead: Seq<char>,
    tail: Seq<char>,
    r: Option<NumericText>,
    q: Option<NumericText>,
)
    requires
        only_space(lead),
        only_space(tail),
        spaced@ == lead + text@ + tail,
        call_ensures(numeric_affinity, (text,), r),
        call_ensures(numeric_affinity, (spaced,), q),
    ensures
        match (r, q) {
            (None, None) => true,
            (Some(NumericText::Integer(i)), Some(NumericText::Integer(j))) => i == j,
            (Some(NumericText::Real(t)), Some(NumericText::Real(u))) => t@ == u@,
            _ => false,
        },
{
    let inner_lead = lemma_lead_of(text@);
    let s = crate::numeric::trimmed(text@);
    let inner_tail = lemma_tail_of(crate::numeric::trim_start(text@));
    let whole_lead = lead + inner_lead;
    let whole_tail = inner_tail + tail;
    assert(only_space(whole_lead)) by {
        assert forall|i: int| 0 <= i < whole_lead.len() implies one_space(
            #[trigger] whole_lead[i],
        ) by {
            if i < lead.len() {
                assert(whole_lead[i] == lead[i]);
            } else {
                assert(whole_lead[i] == inner_lead[i - lead.len()]);
            }
        }
    }
    assert(only_space(whole_tail)) by {
        assert forall|i: int| 0 <= i < whole_tail.len() implies one_space(
            #[trigger] whole_tail[i],
        ) by {
            if i < inner_tail.len() {
                assert(whole_tail[i] == inner_tail[i]);
            } else {
                assert(whole_tail[i] == tail[i - inner_tail.len()]);
            }
        }
    }
    assert(spaced@ =~= whole_lead + s + whole_tail);
    lemma_trim_ends(text@);
    if s.len() > 0 {
        lemma_trimmed(whole_lead, s, whole_tail);
    } else {
        let all = whole_lead + whole_tail;
        assert(spaced@ =~= all);
        assert(only_space(all)) by {
            assert forall|i: int| 0 <= i < all.len() implies one_space(#[trigger] all[i]) by {
                if i < whole_lead.len() {
                    assert(all[i] == whole_lead[i]);
                } else {
                    assert(all[i] == whole_tail[i - whole_lead.len()]);
                }
            }
        }
        lemma_trim_all(all);
        assert(crate::numeric::trimmed(spaced@) =~= s);
    }
}

proof fn lemma_trim_all(s: Seq<char>)
    requires
        only_space(s),
    ensures
        crate::numeric::trim_start(s).len() == 0,
        crate::numeric::trimmed(s).len() == 0,
    decreases s.len(),
{
    if s.len() > 0 {
        assert(one_space(s[0]));
        assert forall|i: int| 0 <= i < s.skip(1).len() implies one_space(#[trigger] s.skip(1)[i]) by {
            assert(s.skip(1)[i] == s[i + 1]);
        }
        lemma_trim_all(s.skip(1));
    }
}

proof fn lemma_trim_start_end(s: Seq<char>)
    ensures
        crate::numeric::trim_start(s).len() > 0 ==> !crate::numeric::is_space(
            crate::numeric::trim_start(s)[0],
        ),
    decreases s.len(),
{
    if s.len() > 0 && crate::numeric::is_space(s[0]) {
        lemma_trim_start_end(s.skip(1));
    }
}

proof fn lemma_trim_end_end(s: Seq<char>)
    ensures
        ({
            let t = crate::numeric::trim_end(s);
            &&& t.len() > 0 ==> !crate::numeric::is_space(t.last())
            &&& t.len() > 0 ==> s.len() > 0 && t[0] == s[0]
        }),
    decreases s.len(),
{
    if s.len() > 0 && crate::numeric::is_space(s.last()) {
        lemma_trim_end_end(s.drop_last());
    }
}

proof fn lemma_trim_ends(s: Seq<char>)
    ensures
        ({
            let t = crate::numeric::trimmed(s);
            t.len() > 0 ==> !crate::numeric::is_space(t[0]) && !crate::numeric::is_space(t.last())
        }),
{
    lemma_trim_start_end(s);
    lemma_trim_end_end(crate::numeric::trim_start(s));
}

proof fn lemma_integer(text: Seq<char>, sign: Seq<char>, w: Seq<char>)
    requires
        maybe_sign(sign),
        only_digits(w),
        w.len() > 0,
        text == sign + w,
    ensures
        ({
            let v = if sign == seq!['-'] {
                -crate::numeric::digits_value(w)
            } else {
                crate::numeric::digits_value(w)
            };
            crate::numeric::affinity(text) == (if i64::MIN <= v <= i64::MAX {
                Some(crate::numeric::NumericTextView::Integer(v))
            } else {
                Some(crate::numeric::NumericTextView::Real(text))
            })
        }),
        crate::numeric::digits_value(w) >= 0,
{
    let none = Seq::<char>::empty();
    let p = Spelling {
        sign,
        whole: w,
        point: false,
        part: none,
        exponent: false,
        mark: 'e',
        power_sign: none,
        power: none,
    };
    assert(p.text() =~= text);
    lemma_spelling(p);
    assert(none + text + none =~= text);
    lemma_trimmed(none, text, none);
    assert(text.skip(sign.len() as int) =~= w);
    if sign.len() > 0 {
        assert(text[0] == sign[0]);
    } else {
        assert(text[0] == w[0]);
    }
    assert forall|i: int| 0 <= i < w.len() implies crate::numeric::is_digit(#[trigger] w[i]) by {}
    crate::numeric::lemma_digits_value_nonnegative(w);
    if sign == seq!['-'] {
        assert(text[0] == '-');
    } else if sign == seq!['+'] {
        assert(text[0] == '+');
    }
}

/// One digit behind a sign or none is that digit, negative behind a minus sign.
pub proof fn law_a_digit_is_the_number_it_shows(
    text: &str,
    sign: Seq<char>,
    c: char,
    r: Option<NumericText>,
)
    requires
        maybe_sign(sign),
        '0' <= c <= '9',
        text@ == sign + seq![c],
        call_ensures(numeric_affinity, (text,), r),
    ensures
        r matches Some(NumericText::Integer(n)) && n == (if sign == seq!['-'] {
            -(c as u32 - 48)
        } else {
            c as u32 - 48
        }),
{
    let w = seq![c];
    lemma_integer(text@, sign, w);
    reveal_with_fuel(crate::numeric::digits_value, 2);
    assert(w.drop_last() =~= Seq::<char>::empty());
    assert(w.last() == c);
}

/// One more digit behind an integer multiplies it by ten and adds the digit, away from zero, for as
/// long as 64 bits hold it; from then on it is the real spelled so, and so are all longer ones.
pub proof fn law_integers_grow_by_ten_a_digit(
    text: &str,
    longer: &str,
    sign: Seq<char>,
    w: Seq<char>,
    c: char,
    r: Option<NumericText>,
    q: Option<NumericText>,
)
    requires
        maybe_sign(sign),
        only_digits(w),
        w.len() > 0,
        '0' <= c <= '9',
        text@ == sign + w,
        longer@ == text@.push(c),
        call_ensures(numeric_affinity, (text,), r),
        call_ensures(numeric_affinity, (longer,), q),
    ensures
        r matches Some(NumericText::Integer(n)) ==> ({
            let d = c as u32 - 48;
            let m = if sign == seq!['-'] {
                10 * n - d
            } else {
                10 * n + d
            };
            if i64::MIN <= m <= i64::MAX {
                q matches Some(NumericText::Integer(k)) && k == m
            } else {
                q matches Some(NumericText::Real(t)) && t@ == longer@
            }
        }),
        r matches Some(NumericText::Real(_)) ==> (q matches Some(NumericText::Real(t)) && t@
            == longer@),
        r is Some,
{
    let v = w.push(c);
    assert(longer@ =~= sign + v);
    assert(only_digits(v)) by {
        assert forall|i: int| 0 <= i < v.len() implies '0' <= (#[trigger] v[i]) <= '9' by {
            if i < w.len() {
                assert(v[i] == w[i]);
            }
        }
    }
    lemma_integer(text@, sign, w);
    lemma_integer(longer@, sign, v);
    assert(v.drop_last() =~= w);
    assert(v.last() == c);
}

/// A BigInt is the integer its digits are wherever they are one of 64 bits, and fails where they are
/// none; anything that is not digits behind an optional minus sign fails too.
pub proof fn law_a_bigint_is_the_integer_its_digits_are(
    digits: String,
    text: &str,
    r: core::result::Result<Option<Value>, String>,
    q: Option<NumericText>,
)
    requires
        text@ == digits@,
        call_ensures(js_to_value, (JsValue::BigInt(digits),), r),
        call_ensures(numeric_affinity, (text,), q),
    ensures
        r is Ok <==> {
            let w = if digits@.len() > 0 && digits@[0] == '-' {
                digits@.skip(1)
            } else {
                digits@
            };
            w.len() > 0 && only_digits(w) && (q matches Some(NumericText::Integer(_)))
        },
        r matches Ok(value) ==> (value matches Some(Value::Numeric(Numeric::Integer(i))) && (
        q matches Some(NumericText::Integer(n)) && i == n)),
        r matches Err(reason) ==> ({
            let negative = digits@.len() > 0 && digits@[0] == '-';
            let w = if negative {
                digits@.skip(1)
            } else {
                digits@
            };
            reason@ == "failed to parse BigInt: "@ + (if digits@.len() == 0 {
                "cannot parse integer from empty string"@
            } else if w.len() == 0 || !only_digits(w) {
                "invalid digit found in string"@
            } else if negative {
                "number too small to fit in target type"@
            } else {
                "number too large to fit in target type"@
            })
        }),
{
    let s = digits@;
    let sign = if s.len() > 0 && s[0] == '-' {
        seq!['-']
    } else {
        Seq::empty()
    };
    let w = s.skip(sign.len() as int);
    assert(s =~= sign + w);
    if w.len() > 0 && only_digits(w) {
        lemma_integer(s, sign, w);
        assert(crate::javascript::is_decimal(s)) by {
            assert forall|i: int| sign.len() <= i < s.len() implies crate::numeric::is_digit(
                #[trigger] s[i],
            ) by {
                assert(s[i] == w[i - sign.len()]);
            }
        }
        assert(s.skip(crate::numeric::sign_len(s, 0)) =~= w) by {
            if sign.len() == 0 {
                assert(s[0] == w[0]);
            }
        }
    } else if crate::javascript::is_decimal(s) {
        assert forall|i: int| 0 <= i < w.len() implies '0' <= (#[trigger] w[i]) <= '9' by {
            assert(w[i] == s[i + sign.len()]);
            assert(crate::numeric::is_digit(s[i + sign.len()]));
        }
    }
    if s.len() > 0 && s[0] == '-' {
    } else {
        assert(s.skip(0) =~= s);
    }
}

/// What is left of a text without its white space begins and ends with something else, and nothing
/// but white space was taken away.
pub proof fn law_only_space_is_trimmed(text: &str, r: Vec<char>)
    requires
        call_ensures(crate::numeric::trim, (text,), r),
    ensures
        r@.len() > 0 ==> !one_space(r@[0]) && !one_space(r@.last()),
        exists|lead: Seq<char>, tail: Seq<char>|
            only_space(lead) && only_space(tail) && text@ == #[trigger] (lead + r@ + tail),
{
    lemma_trim_ends(text@);
    let lead = lemma_lead_of(text@);
    let tail = lemma_tail_of(crate::numeric::trim_start(text@));
    assert(text@ =~= lead + r@ + tail);
}

/// Digits are taken from a place up to the first character that is none.
pub proof fn law_digits_are_taken_up_to_the_first_other(
    chars: &[char],
    at: &mut usize,
    r: usize,
    i: int,
)
    requires
        *old(at) <= chars@.len(),
        call_ensures(crate::numeric::take_digits, (chars, at), r),
    ensures
        *final(at) == *old(at) + r,
        *final(at) <= chars@.len(),
        *old(at) <= i < *final(at) ==> '0' <= chars@[i] <= '9',
        *final(at) < chars@.len() ==> !('0' <= chars@[*final(at) as int] <= '9'),
{
    lemma_run_digits(chars@, *old(at) as int);
    lemma_run_stops(chars@, *old(at) as int);
    if *old(at) <= i < *final(at) {
        let digits = chars@.subrange(*old(at) as int, *final(at) as int);
        assert(digits[i - *old(at)] == chars@[i]);
    }
}

proof fn lemma_run_stops(s: Seq<char>, at: int)
    requires
        0 <= at <= s.len(),
    ensures
        ({
            let end = at + crate::numeric::run(s, at);
            end < s.len() ==> !crate::numeric::is_digit(s[end])
        }),
    decreases s.len() - at,
{
    if at < s.len() && crate::numeric::is_digit(s[at]) {
        lemma_run_stops(s, at + 1);
    }
}

/// Digits behind an optional sign are the integer that the text of them is, where it is one of 64
/// bits.
pub proof fn law_digits_are_the_integer_of_their_text(
    chars: &[char],
    sign: Seq<char>,
    w: Seq<char>,
    r: Option<i64>,
    text: &str,
    q: Option<NumericText>,
)
    requires
        maybe_sign(sign),
        only_digits(w),
        w.len() > 0,
        chars@ == sign + w,
        text@ == chars@,
        call_ensures(crate::numeric::parse_integer, (chars,), r),
        call_ensures(numeric_affinity, (text,), q),
    ensures
        r matches Some(i) ==> (q matches Some(NumericText::Integer(j)) && i == j),
        r is None ==> (q matches Some(NumericText::Real(_))),
{
    lemma_integer(text@, sign, w);
    assert(text@.skip(sign.len() as int) =~= w);
    if sign.len() > 0 {
        assert(text@[0] == sign[0]);
    } else {
        assert(text@[0] == w[0]);
    }
}

}
