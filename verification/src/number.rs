//! Decimal numbers in text: reading them with the limits of the machine
//! types, and writing them.

use crate::text::{chars_of, string_of};
use vstd::prelude::*;

verus! {

pub open spec fn is_digit(c: char) -> bool {
    48 <= c as u32 <= 57
}

pub open spec fn digit_of(c: char) -> nat {
    (c as u32 - 48) as nat
}

pub open spec fn all_digits(s: Seq<char>) -> bool {
    forall|i: int| 0 <= i < s.len() ==> is_digit(#[trigger] s[i])
}

/// The number that a run of digits writes.
pub open spec fn decimal_value(s: Seq<char>) -> nat
    decreases s.len(),
{
    if s.len() == 0 {
        0
    } else {
        decimal_value(s.drop_last()) * 10 + digit_of(s.last())
    }
}

/// The number that `digits` writes, if it is a number of at most `max`:
/// one digit at least, and nothing but digits.
pub open spec fn magnitude(digits: Seq<char>, max: nat) -> Option<nat> {
    if digits.len() > 0 && all_digits(digits) && decimal_value(digits) <= max {
        Some(decimal_value(digits))
    } else {
        None
    }
}

/// The number that `s` writes as an unsigned number of at most `max`: a
/// plus sign may stand before the digits, and nothing else.
pub open spec fn unsigned_value(s: Seq<char>, max: nat) -> Option<nat> {
    if s.len() > 0 && s[0] == '+' {
        magnitude(s.drop_first(), max)
    } else {
        magnitude(s, max)
    }
}

/// The number that `s` writes as a signed number from `-below` to
/// `above`: a plus or a minus sign may stand before the digits.
pub open spec fn signed_value(s: Seq<char>, below: nat, above: nat) -> Option<int> {
    if s.len() > 0 && s[0] == '-' {
        match magnitude(s.drop_first(), below) {
            Some(n) => Some(-(n as int)),
            None => None,
        }
    } else {
        match unsigned_value(s, above) {
            Some(n) => Some(n as int),
            None => None,
        }
    }
}

proof fn lemma_prefix_value(s: Seq<char>, k: int)
    requires
        0 <= k <= s.len(),
    ensures
        decimal_value(s.take(k)) <= decimal_value(s),
    decreases s.len(),
{
    if k == s.len() {
        assert(s.take(k) =~= s);
    } else {
        let front = s.drop_last();
        lemma_prefix_value(front, k);
        assert(front.take(k) =~= s.take(k));
    }
}

fn read_magnitude(chars: &Vec<char>, from: usize, max: u64) -> (value: Option<u64>)
    requires
        from <= chars@.len(),
    ensures
        match value {
            Some(n) => magnitude(chars@.skip(from as int), max as nat) == Some(n as nat),
            None => magnitude(chars@.skip(from as int), max as nat) is None,
        },
{
    let ghost digits = chars@.skip(from as int);
    if from == chars.len() {
        return None;
    }
    let mut acc: u64 = 0;
    let mut i: usize = from;
    while i < chars.len()
        invariant
            from <= i <= chars@.len(),
            digits == chars@.skip(from as int),
            all_digits(digits.take(i - from)),
            acc == decimal_value(digits.take(i - from)),
            acc <= max,
        decreases chars@.len() - i,
    {
        let n = chars[i] as u32;
        let ghost longer = digits.take(i + 1 - from);
        assert(longer.drop_last() =~= digits.take(i - from));
        if n < 48 || n > 57 {
            assert(!is_digit(digits[i - from]));
            return None;
        }
        let d: u64 = (n - 48) as u64;
        proof {
            lemma_prefix_value(digits, i + 1 - from);
        }
        if acc > max / 10 {
            return None;
        }
        let shifted: u64 = acc * 10;
        if d > max - shifted {
            return None;
        }
        acc = shifted + d;
        i = i + 1;
    }
    assert(digits.take(i - from) =~= digits);
    Some(acc)
}

/// Reads an unsigned decimal number of at most `max`.
pub fn parse_unsigned(s: &str, max: u64) -> (value: Option<u64>)
    ensures
        match value {
            Some(n) => unsigned_value(s@, max as nat) == Some(n as nat),
            None => unsigned_value(s@, max as nat) is None,
        },
{
    let chars = chars_of(s);
    assert(chars@.skip(0) =~= chars@);
    if chars.len() > 0 && chars[0] == '+' {
        read_magnitude(&chars, 1, max)
    } else {
        read_magnitude(&chars, 0, max)
    }
}

pub fn parse_u64(s: &str) -> (value: Option<u64>)
    ensures
        match value {
            Some(n) => unsigned_value(s@, u64::MAX as nat) == Some(n as nat),
            None => unsigned_value(s@, u64::MAX as nat) is None,
        },
{
    parse_unsigned(s, u64::MAX)
}

pub fn parse_u8(s: &str) -> (value: Option<u8>)
    ensures
        match value {
            Some(n) => unsigned_value(s@, u8::MAX as nat) == Some(n as nat),
            None => unsigned_value(s@, u8::MAX as nat) is None,
        },
{
    match parse_unsigned(s, 255) {
        Some(n) => Some(n as u8),
        None => None,
    }
}

pub fn parse_i32(s: &str) -> (value: Option<i32>)
    ensures
        match value {
            Some(n) => signed_value(s@, 0x8000_0000, 0x7fff_ffff) == Some(n as int),
            None => signed_value(s@, 0x8000_0000, 0x7fff_ffff) is None,
        },
{
    let chars = chars_of(s);
    assert(chars@.skip(0) =~= chars@);
    if chars.len() > 0 && chars[0] == '-' {
        match read_magnitude(&chars, 1, 0x8000_0000) {
            Some(n) => Some((0 - (n as i64)) as i32),
            None => None,
        }
    } else if chars.len() > 0 && chars[0] == '+' {
        match read_magnitude(&chars, 1, 0x7fff_ffff) {
            Some(n) => Some(n as i32),
            None => None,
        }
    } else {
        match read_magnitude(&chars, 0, 0x7fff_ffff) {
            Some(n) => Some(n as i32),
            None => None,
        }
    }
}

pub open spec fn digit_char(d: nat) -> char {
    if d == 0 {
        '0'
    } else if d == 1 {
        '1'
    } else if d == 2 {
        '2'
    } else if d == 3 {
        '3'
    } else if d == 4 {
        '4'
    } else if d == 5 {
        '5'
    } else if d == 6 {
        '6'
    } else if d == 7 {
        '7'
    } else if d == 8 {
        '8'
    } else {
        '9'
    }
}

/// The digits that write `n`, without leading zeros.
pub open spec fn decimal_digits(n: nat) -> Seq<char>
    decreases n,
{
    if n < 10 {
        seq![digit_char(n)]
    } else {
        decimal_digits(n / 10).push(digit_char(n % 10))
    }
}

fn digit(d: u64) -> (c: char)
    requires
        d < 10,
    ensures
        c == digit_char(d as nat),
{
    if d == 0 {
        '0'
    } else if d == 1 {
        '1'
    } else if d == 2 {
        '2'
    } else if d == 3 {
        '3'
    } else if d == 4 {
        '4'
    } else if d == 5 {
        '5'
    } else if d == 6 {
        '6'
    } else if d == 7 {
        '7'
    } else if d == 8 {
        '8'
    } else {
        '9'
    }
}

fn digits(n: u64) -> (out: Vec<char>)
    ensures
        out@ == decimal_digits(n as nat),
    decreases n,
{
    if n < 10 {
        let mut out: Vec<char> = Vec::new();
        out.push(digit(n));
        out
    } else {
        let mut out = digits(n / 10);
        out.push(digit(n % 10));
        out
    }
}

/// `n` written in decimal.
pub fn decimal(n: u64) -> (out: String)
    ensures
        out@ == decimal_digits(n as nat),
{
    let chars = digits(n);
    let out = string_of(&chars, 0, chars.len());
    out
}

/// What is written is what is read back: the digits of a number are
/// digits, begin with no sign, and have the number as their value.
pub proof fn lemma_decimal_round_trip(n: nat, max: nat)
    requires
        n <= max,
    ensures
        all_digits(decimal_digits(n)),
        decimal_digits(n).len() > 0,
        decimal_value(decimal_digits(n)) == n,
        unsigned_value(decimal_digits(n), max) == Some(n),
    decreases n,
{
    let text = decimal_digits(n);
    if n < 10 {
        assert(decimal_value(text) == decimal_value(text.drop_last()) * 10 + digit_of(text.last()));
    } else {
        lemma_decimal_round_trip(n / 10, max);
        assert(text.drop_last() =~= decimal_digits(n / 10));
    }
}

/// The text that writes `n`: its digits, after a minus sign if it is
/// below zero.
pub open spec fn signed_digits(n: int) -> Seq<char> {
    if n < 0 {
        seq!['-'] + decimal_digits((-n) as nat)
    } else {
        decimal_digits(n as nat)
    }
}

/// `n` written in decimal.
pub fn signed_decimal(n: i32) -> (out: String)
    ensures
        out@ == signed_digits(n as int),
{
    if n < 0 {
        let magnitude: u64 = (0 - (n as i64)) as u64;
        let mut out = String::new();
        out.push('-');
        let digits = decimal(magnitude);
        vstd::string::StringExecFns::append(&mut out, digits.as_str());
        out
    } else {
        decimal(n as u64)
    }
}

} // verus!
