//! Unsigned numbers in decimal notation.

use vstd::prelude::*;
use vstd::string::*;

use crate::text::chars_of;

verus! {

/// Why a text is not a number.
#[derive(Clone, Copy, Debug, PartialEq, Eq, Structural)]
pub enum NumberError {
    /// There is nothing to read.
    Empty,
    /// A character is not a decimal digit.
    InvalidDigit,
    /// The number does not fit in 32 bits.
    TooLarge,
}

pub open spec fn is_digit(c: char) -> bool {
    '0' <= c <= '9'
}

/// Every character of `s` is a digit.
pub open spec fn all_digits(s: Seq<char>) -> bool {
    forall|i: int| 0 <= i < s.len() ==> is_digit(#[trigger] s[i])
}

/// `s` without one plus sign at its beginning.
pub open spec fn without_plus(s: Seq<char>) -> Seq<char> {
    if s.len() > 0 && s[0] == '+' {
        s.drop_first()
    } else {
        s
    }
}

/// The number that the digit `c` stands for.
pub open spec fn digit_value(c: char) -> nat {
    (c as u32 - '0' as u32) as nat
}

/// The digit that stands for `d`.
pub open spec fn digit_char(d: nat) -> char {
    ('0' as u32 + d) as char
}

/// The number that the digits `s` stand for.
pub open spec fn decimal_value(s: Seq<char>) -> nat
    decreases s.len(),
{
    if s.len() == 0 {
        0
    } else {
        decimal_value(s.drop_last()) * 10 + digit_value(s.last())
    }
}

/// The shortest decimal notation of `n`.
pub open spec fn decimal_text(n: nat) -> Seq<char>
    decreases n,
{
    if n < 10 {
        seq![digit_char(n)]
    } else {
        decimal_text(n / 10).push(digit_char(n % 10))
    }
}

/// What reading the digits `s` from left to right gives: the number, or the complaint about the
/// first character that is not a digit or takes the number past 32 bits.
pub open spec fn scanned(s: Seq<char>) -> Result<u32, NumberError>
    decreases s.len(),
{
    if s.len() == 0 {
        Ok(0)
    } else {
        match scanned(s.drop_last()) {
            Err(e) => Err(e),
            Ok(v) => if !is_digit(s.last()) {
                Err(NumberError::InvalidDigit)
            } else if v * 10 + digit_value(s.last()) > u32::MAX {
                Err(NumberError::TooLarge)
            } else {
                Ok((v * 10 + digit_value(s.last())) as u32)
            },
        }
    }
}

/// What `s` stands for as an unsigned 32-bit number: digits, with an optional plus sign in front.
pub open spec fn parsed_u32(s: Seq<char>) -> Result<u32, NumberError> {
    if s.len() == 0 {
        Err(NumberError::Empty)
    } else if s == seq!['+'] {
        Err(NumberError::InvalidDigit)
    } else if s[0] == '+' {
        scanned(s.drop_first())
    } else {
        scanned(s)
    }
}

/// What a `NumberError` says.
pub open spec fn number_error_text(e: NumberError) -> Seq<char> {
    match e {
        NumberError::Empty => "cannot parse integer from empty string"@,
        NumberError::InvalidDigit => "invalid digit found in string"@,
        NumberError::TooLarge => "number too large to fit in target type"@,
    }
}

impl NumberError {
    /// The message for people.
    pub fn message(&self) -> (r: &'static str)
        ensures
            r@ == number_error_text(*self),
    {
        match self {
            NumberError::Empty => "cannot parse integer from empty string",
            NumberError::InvalidDigit => "invalid digit found in string",
            NumberError::TooLarge => "number too large to fit in target type",
        }
    }
}

/// Reads an unsigned 32-bit number.
pub fn parse_u32(s: &str) -> (r: Result<u32, NumberError>)
    ensures
        r == parsed_u32(s@),
{
    let chars = chars_of(s);
    if chars.len() == 0 {
        return Err(NumberError::Empty);
    }
    let start: usize = if chars[0] == '+' {
        1
    } else {
        0
    };
    if chars.len() == 1 && start == 1 {
        assert(s@ == seq!['+']);
        return Err(NumberError::InvalidDigit);
    }
    assert(s@ != seq!['+']) by {
        if s@ == seq!['+'] {
            assert(s@[0] == '+');
        }
    }
    let ghost digits = s@.skip(start as int);
    assert(start == 1 ==> digits == s@.drop_first());
    assert(start == 0 ==> digits == s@);
    let mut value: u32 = 0;
    let mut i: usize = start;
    assert(digits.take(0).len() == 0);
    while i < chars.len()
        invariant
            chars@ == s@,
            start <= i <= chars.len(),
            start <= 1,
            digits == s@.skip(start as int),
            scanned(digits.take(i - start)) == Ok::<u32, NumberError>(value),
            parsed_u32(s@) == scanned(digits),
        decreases chars.len() - i,
    {
        let c = chars[i];
        let ghost read = digits.take(i - start + 1);
        proof {
            assert(read.drop_last() == digits.take(i - start));
            assert(read.last() == c);
            lemma_scanned_prefix(digits, i - start + 1);
        }
        if c < '0' || '9' < c {
            return Err(NumberError::InvalidDigit);
        }
        let digit: u32 = (c as u32) - ('0' as u32);
        let next: u64 = (value as u64) * 10 + (digit as u64);
        if next > u32::MAX as u64 {
            return Err(NumberError::TooLarge);
        }
        value = next as u32;
        i = i + 1;
    }
    assert(digits.take(i - start) == digits);
    Ok(value)
}

/// A complaint about the beginning of a text is the complaint about all of it.
proof fn lemma_scanned_prefix(s: Seq<char>, k: int)
    requires
        0 <= k <= s.len(),
    ensures
        scanned(s.take(k)) is Err ==> scanned(s) == scanned(s.take(k)),
    decreases s.len(),
{
    if k == s.len() {
        assert(s.take(k) == s);
    } else {
        lemma_scanned_prefix(s.drop_last(), k);
        assert(s.drop_last().take(k) == s.take(k));
    }
}

fn digit_text(d: u32) -> (r: &'static str)
    requires
        d < 10,
    ensures
        r@ == seq![digit_char(d as nat)],
{
    proof {
        reveal_strlit("0");
        reveal_strlit("1");
        reveal_strlit("2");
        reveal_strlit("3");
        reveal_strlit("4");
        reveal_strlit("5");
        reveal_strlit("6");
        reveal_strlit("7");
        reveal_strlit("8");
        reveal_strlit("9");
    }
    match d {
        0 => "0",
        1 => "1",
        2 => "2",
        3 => "3",
        4 => "4",
        5 => "5",
        6 => "6",
        7 => "7",
        8 => "8",
        _ => "9",
    }
}

/// The shortest decimal notation of `n`.
pub fn decimal(n: u32) -> (r: String)
    ensures
        r@ == decimal_text(n as nat),
    decreases n,
{
    if n < 10 {
        digit_text(n).to_owned()
    } else {
        let mut r = decimal(n / 10);
        let ghost front = r@;
        r.append(digit_text(n % 10));
        assert(r@ == front.push(digit_char((n % 10) as nat)));
        r
    }
}

/// A text is read as a number exactly when, after an optional plus sign, it holds at least one
/// character, every one of them a digit, and the value of the digits fits in 32 bits.
pub proof fn law_parsed_u32(s: Seq<char>)
    ensures
        parsed_u32(s) is Ok <==> without_plus(s).len() > 0 && all_digits(without_plus(s))
            && decimal_value(without_plus(s)) <= u32::MAX,
        parsed_u32(s) matches Ok(v) ==> v == decimal_value(without_plus(s)),
{
    lemma_scanned(without_plus(s));
    if s.len() == 1 && s[0] == '+' {
        assert(s == seq!['+']);
    }
}

proof fn lemma_scanned(s: Seq<char>)
    ensures
        scanned(s) is Ok <==> decimal_value(s) <= u32::MAX && all_digits(s),
        scanned(s) matches Ok(v) ==> v == decimal_value(s),
    decreases s.len(),
{
    if s.len() > 0 {
        let front = s.drop_last();
        lemma_scanned(front);
        assert(decimal_value(s) == decimal_value(front) * 10 + digit_value(s.last()));
        assert(all_digits(s) <==> all_digits(front) && is_digit(s.last())) by {
            assert(s == front.push(s.last()));
            if all_digits(s) {
                assert forall|i: int| 0 <= i < front.len() implies is_digit(#[trigger] front[i]) by {
                    assert(is_digit(s[i]));
                }
            }
            if all_digits(front) && is_digit(s.last()) {
                assert forall|i: int| 0 <= i < s.len() implies is_digit(#[trigger] s[i]) by {
                    if i < front.len() {
                        assert(is_digit(front[i]));
                    }
                }
            }
        }
    }
}

/// Reading the decimal notation of a 32-bit number gives that number back.
pub proof fn law_decimal_round_trip(n: u32)
    ensures
        parsed_u32(decimal_text(n as nat)) == Ok::<u32, NumberError>(n),
{
    lemma_decimal_text(n as nat);
    let s = decimal_text(n as nat);
    lemma_scanned(s);
    assert(is_digit(s[0]));
    if s == seq!['+'] {
        assert(s[0] == '+');
    }
}

/// Decimal notation is a non-empty row of digits that stands for its number.
pub proof fn lemma_decimal_text(n: nat)
    ensures
        decimal_text(n).len() > 0,
        all_digits(decimal_text(n)),
        decimal_value(decimal_text(n)) == n,
    decreases n,
{
    let s = decimal_text(n);
    if n < 10 {
        assert(s.drop_last() == Seq::<char>::empty());
        assert(decimal_value(s.drop_last()) == 0);
    } else {
        lemma_decimal_text(n / 10);
        let front = decimal_text(n / 10);
        assert(s.drop_last() == front);
        assert forall|i: int| 0 <= i < s.len() implies is_digit(#[trigger] s[i]) by {
            if i < front.len() {
                assert(is_digit(front[i]));
            }
        }
    }
}

/// The notation of a number below ten is one digit, that many behind the digit 0. Every other
/// notation is that of the tens with the digit of the ones behind it.
pub proof fn law_decimal_text(tens: nat, ones: nat)
    requires
        ones < 10,
    ensures
        decimal_text(ones).len() == 1 && decimal_text(ones)[0] as int == '0' as int + ones,
        tens > 0 ==> decimal_text(10 * tens + ones) == decimal_text(tens) + decimal_text(ones),
{
    if tens > 0 {
        assert((10 * tens + ones) / 10 == tens);
        assert((10 * tens + ones) % 10 == ones);
    }
}

/// One plus sign in front of digits makes no difference, and a second one makes them no number.
pub proof fn law_plus_sign(digits: Seq<char>)
    requires
        digits.len() > 0,
        forall|i: int| 0 <= i < digits.len() ==> '0' <= #[trigger] digits[i] <= '9',
    ensures
        parsed_u32(seq!['+'] + digits) == parsed_u32(digits),
        parsed_u32(seq!['+', '+'] + digits) == Err::<u32, NumberError>(NumberError::InvalidDigit),
{
    let signed = seq!['+'] + digits;
    assert(digits[0] != '+');
    assert(signed.drop_first() == digits);
    let twice = seq!['+', '+'] + digits;
    assert(twice.drop_first() == signed);
    lemma_scanned_prefix(signed, 1);
    assert(signed.take(1).drop_last() == Seq::<char>::empty());
    assert(signed.take(1).last() == '+');
    assert(scanned(Seq::<char>::empty()) == Ok::<u32, NumberError>(0));
    assert(scanned(signed.take(1)) == Err::<u32, NumberError>(NumberError::InvalidDigit));
}

/// Nothing is read out of an empty text. A text of digits is read as too large where its value does
/// not fit in 32 bits. A text in which what is no digit follows digits whose value fits is read as
/// no number, whatever comes behind.
pub proof fn law_unread_number(digits: Seq<char>, c: char, rest: Seq<char>)
    requires
        forall|i: int| 0 <= i < digits.len() ==> '0' <= #[trigger] digits[i] <= '9',
        !('0' <= c <= '9'),
        digits.len() == 0 ==> c != '+',
    ensures
        parsed_u32(Seq::empty()) == Err::<u32, NumberError>(NumberError::Empty),
        digits.len() > 0 && decimal_value(digits) > u32::MAX ==> parsed_u32(digits) == Err::<
            u32,
            NumberError,
        >(NumberError::TooLarge),
        decimal_value(digits) <= u32::MAX ==> parsed_u32(digits.push(c) + rest) == Err::<
            u32,
            NumberError,
        >(NumberError::InvalidDigit),
        parsed_u32(seq!['+']) == Err::<u32, NumberError>(NumberError::InvalidDigit),
{
    assert(all_digits(digits));
    if digits.len() > 0 {
        assert(is_digit(digits[0]));
        if digits == seq!['+'] {
            assert(digits[0] == '+');
        }
    }
    lemma_scanned(digits);
    if decimal_value(digits) > u32::MAX {
        lemma_too_large(digits);
    }
    let whole = digits.push(c) + rest;
    assert(whole.take(digits.len() as int + 1) == digits.push(c));
    assert(digits.push(c).drop_last() == digits);
    lemma_scanned_prefix(whole, digits.len() as int + 1);
    assert(whole[0] != '+') by {
        if digits.len() > 0 {
            assert(whole[0] == digits[0]);
        }
    }
    if whole == seq!['+'] {
        assert(whole[0] == '+');
    }
}

proof fn lemma_too_large(s: Seq<char>)
    requires
        all_digits(s),
        decimal_value(s) > u32::MAX,
    ensures
        scanned(s) == Err::<u32, NumberError>(NumberError::TooLarge),
    decreases s.len(),
{
    if s.len() > 0 {
        let front = s.drop_last();
        assert(is_digit(s[s.len() - 1]));
        assert forall|i: int| 0 <= i < front.len() implies is_digit(#[trigger] front[i]) by {
            assert(is_digit(s[i]));
        }
        lemma_scanned(front);
        if decimal_value(front) > u32::MAX {
            lemma_too_large(front);
        }
    }
}

/// The value of a row of digits is ten times that of all but the last, and the last.
pub proof fn law_decimal_value(digits: Seq<char>, last: char)
    requires
        '0' <= last <= '9',
    ensures
        decimal_value(Seq::empty()) == 0,
        decimal_value(digits.push(last)) == 10 * decimal_value(digits) + (last as int - '0' as int),
{
    assert(digits.push(last).drop_last() == digits);
}

} // verus!
