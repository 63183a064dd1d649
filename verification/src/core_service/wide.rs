//! Texts in the 16-bit form of the Windows interfaces.

use vstd::prelude::*;

use crate::text::chars_of;

verus! {

/// `String::push`: puts one character at the end.
pub assume_specification[ String::push ](s: &mut String, c: char)
    ensures
        final(s)@ == old(s)@.push(c),
;

/// `char::from_u32`: the character with this number, where there is one. Every number up to
/// 0x10FFFF has one, but for the surrogates.
pub assume_specification[ char::from_u32 ](i: u32) -> (r: Option<char>)
    ensures
        r is Some <==> (i < 0xD800 || 0xE000 <= i <= 0x10FFFF),
        r matches Some(c) ==> c as int == i,
;

/// The units of one character: one, or a surrogate pair.
pub open spec fn units_of_char(c: char) -> Seq<u16> {
    let n = c as u32;
    if n < 0x10000 {
        seq![n as u16]
    } else {
        seq![
            (0xD800 + (n - 0x10000) / 0x400) as u16,
            (0xDC00 + (n - 0x10000) % 0x400) as u16,
        ]
    }
}

/// The units of a text.
pub open spec fn units_of(s: Seq<char>) -> Seq<u16>
    decreases s.len(),
{
    if s.len() == 0 {
        Seq::empty()
    } else {
        units_of(s.drop_last()) + units_of_char(s.last())
    }
}

pub open spec fn is_high_surrogate(u: u16) -> bool {
    0xD800 <= u < 0xDC00
}

pub open spec fn is_low_surrogate(u: u16) -> bool {
    0xDC00 <= u < 0xE000
}

/// The character of a surrogate pair.
pub open spec fn char_of_pair(high: u16, low: u16) -> char {
    (0x10000 + (high - 0xD800) * 0x400 + (low - 0xDC00)) as char
}

/// The text of the units; a surrogate without its partner becomes U+FFFD.
pub open spec fn text_of_units(units: Seq<u16>) -> Seq<char>
    decreases units.len(),
{
    if units.len() == 0 {
        Seq::empty()
    } else if !is_high_surrogate(units[0]) && !is_low_surrogate(units[0]) {
        seq![units[0] as char] + text_of_units(units.skip(1))
    } else if is_high_surrogate(units[0]) && units.len() > 1 && is_low_surrogate(units[1]) {
        seq![char_of_pair(units[0], units[1])] + text_of_units(units.skip(2))
    } else {
        seq!['\u{fffd}'] + text_of_units(units.skip(1))
    }
}

/// What stands before the first zero unit.
pub open spec fn until_zero(units: Seq<u16>) -> Seq<u16>
    decreases units.len(),
{
    if units.len() == 0 || units[0] == 0 {
        Seq::empty()
    } else {
        seq![units[0]] + until_zero(units.skip(1))
    }
}

/// Characters have numbers up to 0x10FFFF, none of them a surrogate, and no two the same.
proof fn lemma_char_number(c: char)
    ensures
        c as u32 == c as int,
        0 <= c as int <= 0x10FFFF,
        !(0xD800 <= c as int <= 0xDFFF),
{
}

/// The units of `value` with a zero unit behind them.
pub fn wide_null(value: &str) -> (r: Vec<u16>)
    ensures
        r@ == units_of(value@).push(0),
{
    let chars = chars_of(value);
    let mut r: Vec<u16> = Vec::new();
    for i in 0..chars.len()
        invariant
            chars@ == value@,
            r@ == units_of(value@.take(i as int)),
    {
        let c: char = chars[i];
        proof {
            lemma_char_number(c);
        }
        let n: u32 = c as u32;
        assert(value@.take(i + 1).drop_last() == value@.take(i as int));
        if n < 0x10000 {
            r.push(n as u16);
        } else {
            let rest: u32 = n - 0x10000;
            assert(rest / 0x400 < 0x400);
            r.push((0xD800 + rest / 0x400) as u16);
            r.push((0xDC00 + rest % 0x400) as u16);
        }
    }
    assert(value@.take(chars.len() as int) == value@);
    r.push(0);
    r
}

/// The text of the units before the first zero unit.
pub fn text_from_wide(units: &Vec<u16>) -> (r: String)
    ensures
        r@ == text_of_units(until_zero(units@)),
{
    let mut end: usize = 0;
    assert(units@.skip(0) == units@);
    while end < units.len() && units[end] != 0
        invariant
            end <= units.len(),
            until_zero(units@) == units@.take(end as int) + until_zero(units@.skip(end as int)),
        decreases units.len() - end,
    {
        proof {
            let rest = units@.skip(end as int);
            assert(rest.skip(1) == units@.skip(end + 1));
            assert(units@.take(end as int) + (seq![units@[end as int]] + until_zero(rest.skip(1)))
                == units@.take(end + 1) + until_zero(units@.skip(end + 1)));
        }
        end = end + 1;
    }
    let ghost body = units@.take(end as int);
    assert(until_zero(units@) == body);
    let mut r = String::new();
    let mut i: usize = 0;
    assert(body.skip(0) == body);
    assert(r@ + text_of_units(body) == text_of_units(body));
    while i < end
        invariant
            i <= end <= units.len(),
            body == units@.take(end as int),
            text_of_units(body) == r@ + text_of_units(body.skip(i as int)),
        decreases end - i,
    {
        let ghost rest = body.skip(i as int);
        let ghost before = r@;
        let u: u16 = units[i];
        assert(rest[0] == u);
        let pair: bool = 0xD800 <= u && u < 0xDC00 && i + 1 < end && 0xDC00 <= units[i + 1]
            && units[i + 1] < 0xE000;
        if pair {
            let low: u16 = units[i + 1];
            let n: u32 = 0x10000 + ((u - 0xD800) as u32) * 0x400 + ((low - 0xDC00) as u32);
            match char::from_u32(n) {
                Some(c) => {
                    assert(c == char_of_pair(u, low));
                    r.push(c);
                },
                None => {
                    assert(false);
                },
            }
            assert(rest.skip(2) == body.skip(i + 2));
            assert(r@ == before.push(char_of_pair(u, low)));
            assert(r@ + text_of_units(body.skip(i + 2)) == before + (seq![char_of_pair(u, low)]
                + text_of_units(rest.skip(2))));
            i = i + 2;
        } else {
            match char::from_u32(u as u32) {
                Some(c) => {
                    assert(c == u as char);
                    r.push(c);
                },
                None => {
                    r.push('\u{fffd}');
                },
            }
            assert(rest.skip(1) == body.skip(i + 1));
            assert(r@ + text_of_units(body.skip(i + 1)) == before + (seq![r@.last()]
                + text_of_units(rest.skip(1))));
            i = i + 1;
        }
    }
    assert(body.skip(i as int) == Seq::<u16>::empty());
    assert(r@ + Seq::<char>::empty() == r@);
    r
}

/// A text without zero characters survives the way into the 16-bit form and back.
pub proof fn law_wide_round_trip(s: Seq<char>)
    requires
        forall|i: int| 0 <= i < s.len() ==> s[i] != '\0',
    ensures
        text_of_units(until_zero(units_of(s).push(0))) == s,
{
    lemma_units_not_zero(s);
    lemma_until_zero(units_of(s));
    lemma_text_of_units(s, Seq::empty());
    assert(units_of(s) + Seq::<u16>::empty() == units_of(s));
    assert(s + Seq::<char>::empty() == s);
}

proof fn lemma_units_not_zero(s: Seq<char>)
    requires
        forall|i: int| 0 <= i < s.len() ==> s[i] != '\0',
    ensures
        forall|i: int| 0 <= i < units_of(s).len() ==> units_of(s)[i] != 0,
    decreases s.len(),
{
    if s.len() > 0 {
        assert forall|i: int| 0 <= i < s.drop_last().len() implies s.drop_last()[i] != '\0' by {
            assert(s.drop_last()[i] == s[i]);
        }
        lemma_units_not_zero(s.drop_last());
        let c = s.last();
        assert(s[s.len() - 1] != '\0');
        let front = units_of(s.drop_last());
        let back = units_of_char(c);
        lemma_char_number(c);
        assert forall|i: int| 0 <= i < back.len() implies back[i] != 0 by {
            let n = c as u32;
            if n < 0x10000 {
                assert(back[0] == n as u16);
            }
        }
        assert forall|i: int| 0 <= i < units_of(s).len() implies units_of(s)[i] != 0 by {
            if i < front.len() {
                assert(units_of(s)[i] == front[i]);
            } else {
                assert(units_of(s)[i] == back[i - front.len()]);
            }
        }
    }
}

proof fn lemma_until_zero(units: Seq<u16>)
    requires
        forall|i: int| 0 <= i < units.len() ==> units[i] != 0,
    ensures
        until_zero(units.push(0)) == units,
    decreases units.len(),
{
    let whole = units.push(0);
    if units.len() > 0 {
        let rest = units.skip(1);
        assert forall|i: int| 0 <= i < rest.len() implies rest[i] != 0 by {
            assert(rest[i] == units[i + 1]);
        }
        lemma_until_zero(rest);
        assert(whole.skip(1) == rest.push(0));
        assert(whole[0] == units[0]);
        assert(seq![units[0]] + rest == units);
    } else {
        assert(whole[0] == 0);
    }
}

/// What follows the units of a text is read as what it would be read as alone.
proof fn lemma_text_of_units(s: Seq<char>, tail: Seq<u16>)
    ensures
        text_of_units(units_of(s) + tail) == s + text_of_units(tail),
    decreases s.len(),
{
    if s.len() == 0 {
        assert(units_of(s) + tail == tail);
        assert(s + text_of_units(tail) == text_of_units(tail));
    } else {
        let front = s.drop_last();
        let c = s.last();
        let last = units_of_char(c);
        lemma_text_of_units(front, last + tail);
        assert(units_of(s) + tail == units_of(front) + (last + tail));
        lemma_text_of_char(c, tail);
        assert(front + (seq![c] + text_of_units(tail)) == s + text_of_units(tail));
    }
}

proof fn lemma_text_of_char(c: char, tail: Seq<u16>)
    ensures
        text_of_units(units_of_char(c) + tail) == seq![c] + text_of_units(tail),
{
    let n = c as u32;
    let units = units_of_char(c) + tail;
    if n < 0x10000 {
        assert(units[0] == n as u16);
        assert(units.skip(1) == tail);
        assert(units[0] as char == c);
    } else {
        let rest = n - 0x10000;
        assert(rest / 0x400 < 0x400);
        assert(units[0] == 0xD800 + rest / 0x400);
        assert(units[1] == 0xDC00 + rest % 0x400);
        assert(units.skip(2) == tail);
        assert((rest / 0x400) * 0x400 + rest % 0x400 == rest);
        assert(char_of_pair(units[0], units[1]) == c);
    }
}

/// What stands before the first zero unit is kept, and nothing of what stands behind it. Units
/// without a zero are all kept.
pub proof fn law_until_zero(units: Seq<u16>, tail: Seq<u16>)
    requires
        !units.contains(0),
    ensures
        until_zero(units) == units,
        until_zero(units.push(0) + tail) == units,
    decreases units.len(),
{
    let whole = units.push(0) + tail;
    if units.len() > 0 {
        let rest = units.skip(1);
        assert(units.contains(units[0]));
        assert(!rest.contains(0)) by {
            if rest.contains(0) {
                let i = choose|i: int| 0 <= i < rest.len() && rest[i] == 0;
                assert(units[i + 1] == 0);
            }
        }
        law_until_zero(rest, tail);
        assert(whole.skip(1) == rest.push(0) + tail);
        assert(whole[0] == units[0]);
        assert(seq![units[0]] + rest == units);
    } else {
        assert(whole[0] == 0);
    }
}

/// A character up to 0xFFFF is one unit, its own number. Any other is a pair: a unit from 0xD800
/// for its upper ten bits above 0x10000, and one from 0xDC00 for the lower ten. The units of a text
/// are those of its characters in their order.
pub proof fn law_units(s: Seq<char>, c: char)
    ensures
        units_of(Seq::empty()).len() == 0,
        units_of(s.push(c)).len() == units_of(s).len() + (if (c as int) < 0x10000 {
            1int
        } else {
            2int
        }),
        units_of(s.push(c)).take(units_of(s).len() as int) == units_of(s),
        (c as int) < 0x10000 ==> units_of(s.push(c)).last() as int == c as int,
        c as int >= 0x10000 ==> {
            let high = units_of(s.push(c))[units_of(s).len() as int] as int;
            let low = units_of(s.push(c)).last() as int;
            &&& 0xD800 <= high < 0xDC00 && 0xDC00 <= low < 0xE000
            &&& c as int == 0x10000 + (high - 0xD800) * 0x400 + (low - 0xDC00)
        },
{
    assert(s.push(c).drop_last() == s);
    lemma_char_number(c);
    let all = units_of(s.push(c));
    let back = units_of_char(c);
    assert(all.take(units_of(s).len() as int) == units_of(s));
    assert(all.last() == back.last());
    assert(all[units_of(s).len() as int] == back[0]);
    if c as int >= 0x10000 {
        let rest = c as u32 - 0x10000;
        assert(rest / 0x400 < 0x400);
        assert((rest / 0x400) * 0x400 + rest % 0x400 == rest);
    }
}

/// Units are read from the front. One that is no surrogate is the character with its number. A high
/// surrogate and a low one behind it are one character. A surrogate without its partner is U+FFFD,
/// and takes nothing of what follows.
pub proof fn law_text_of_units(first: u16, second: u16, rest: Seq<u16>)
    ensures
        text_of_units(Seq::empty()).len() == 0,
        !(0xD800 <= first < 0xE000) ==> ({
            let text = text_of_units(seq![first] + rest);
            text.len() > 0 && text[0] as int == first as int && text.skip(1) == text_of_units(rest)
        }),
        0xD800 <= first < 0xDC00 && 0xDC00 <= second < 0xE000 ==> ({
            let text = text_of_units(seq![first, second] + rest);
            &&& text.len() > 0
            &&& text[0] as int == 0x10000 + (first - 0xD800) * 0x400 + (second - 0xDC00)
            &&& text.skip(1) == text_of_units(rest)
        }),
        0xD800 <= first < 0xDC00 && !(0xDC00 <= second < 0xE000) ==> text_of_units(
            seq![first, second] + rest,
        ) == seq!['\u{fffd}'] + text_of_units(seq![second] + rest),
        0xD800 <= first < 0xDC00 ==> text_of_units(seq![first]) == seq!['\u{fffd}'],
        0xDC00 <= first < 0xE000 ==> text_of_units(seq![first] + rest) == seq!['\u{fffd}']
            + text_of_units(rest),
{
    let one = seq![first] + rest;
    assert(one.skip(1) == rest);
    let two = seq![first, second] + rest;
    assert(two.skip(1) == seq![second] + rest);
    assert(two.skip(2) == rest);
    assert(seq![first].skip(1) == Seq::<u16>::empty());
    assert(text_of_units(Seq::<u16>::empty()) == Seq::<char>::empty());
    if !(0xD800 <= first < 0xE000) {
        assert(text_of_units(one).skip(1) == text_of_units(rest));
    }
    if 0xD800 <= first < 0xDC00 && 0xDC00 <= second < 0xE000 {
        assert(text_of_units(two).skip(1) == text_of_units(rest));
    }
    assert(seq!['\u{fffd}'] + Seq::<char>::empty() == seq!['\u{fffd}']);
}

} // verus!
