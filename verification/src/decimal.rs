//! Unsigned decimal numerals in ASCII, the text form of the numeric
//! attributes.
//!
//! A numeral is one or more ASCII digits, optionally after a single `+`.
//! Leading zeros are allowed and do not change the value. The canonical
//! numeral of a number has neither a sign nor a leading zero.

use vstd::prelude::*;

verus! {

/// ASCII `0`.
pub const DIGIT_ZERO: u8 = 0x30;

/// ASCII `9`.
pub const DIGIT_NINE: u8 = 0x39;

/// ASCII `+`.
pub const PLUS_SIGN: u8 = 0x2b;

/// Whether `b` is an ASCII digit.
pub open spec fn is_digit(b: u8) -> bool {
    DIGIT_ZERO <= b <= DIGIT_NINE
}

/// Whether every byte of `s` is an ASCII digit.
pub open spec fn all_digits(s: Seq<u8>) -> bool {
    forall|i: int| 0 <= i < s.len() ==> is_digit(#[trigger] s[i])
}

/// The number that the digits `s` denote in base ten; 0 for no digits.
pub open spec fn digits_value(s: Seq<u8>) -> nat
    decreases s.len(),
{
    if s.len() == 0 {
        0
    } else {
        digits_value(s.drop_last()) * 10 + (s.last() - DIGIT_ZERO) as nat
    }
}

/// `s` without its sign, if it has one.
pub open spec fn unsigned_part(s: Seq<u8>) -> Seq<u8> {
    if s.len() > 0 && s[0] == PLUS_SIGN {
        s.subrange(1, s.len() as int)
    } else {
        s
    }
}

/// The value of `s` read as a numeral, provided that `s` is a numeral and
/// its value is at most `max`.
pub open spec fn numeral(s: Seq<u8>, max: nat) -> Option<nat> {
    let digits = unsigned_part(s);
    if digits.len() > 0 && all_digits(digits) && digits_value(digits) <= max {
        Some(digits_value(digits))
    } else {
        None
    }
}

/// The canonical numeral of `n`.
pub open spec fn decimal_digits(n: nat) -> Seq<u8>
    decreases n,
{
    if n < 10 {
        seq![(DIGIT_ZERO + n) as u8]
    } else {
        decimal_digits(n / 10).push((DIGIT_ZERO + n % 10) as u8)
    }
}

/// The digits read so far never denote more than all the digits do.
pub proof fn lemma_digits_value_prefix(s: Seq<u8>, k: int)
    requires
        0 <= k <= s.len(),
    ensures
        digits_value(s.take(k)) <= digits_value(s),
    decreases s.len(),
{
    if k == s.len() {
        assert(s.take(k) =~= s);
    } else {
        assert(s.drop_last().take(k) =~= s.take(k));
        lemma_digits_value_prefix(s.drop_last(), k);
    }
}

/// Reads `bytes` as a numeral of a value up to `max`.
///
/// Returns the value, or `None` where `bytes` is no numeral (it is empty or
/// a lone sign, or holds a byte that is no digit) or denotes more than `max`.
pub fn parse_decimal(bytes: &[u8], max: u32) -> (r: Option<u32>)
    ensures
        r is Some <==> numeral(bytes@, max as nat) is Some,
        r matches Some(v) ==> numeral(bytes@, max as nat) == Some(v as nat),
{
    let n = bytes.len();
    let start: usize = if n > 0 && bytes[0] == PLUS_SIGN {
        1
    } else {
        0
    };
    let ghost digits = unsigned_part(bytes@);
    if start == n {
        return None;
    }
    let mut acc: u32 = 0;
    let mut i: usize = start;
    while i < n
        invariant
            start <= i <= n,
            n == bytes@.len(),
            digits == unsigned_part(bytes@),
            digits == bytes@.subrange(start as int, n as int),
            all_digits(digits.take(i - start)),
            acc == digits_value(digits.take(i - start)),
            acc <= max,
        decreases n - i,
    {
        let b = bytes[i];
        assert(digits[i - start] == b);
        if b < DIGIT_ZERO || b > DIGIT_NINE {
            return None;
        }
        let next: u64 = acc as u64 * 10 + (b - DIGIT_ZERO) as u64;
        assert(digits.take(i + 1 - start).drop_last() =~= digits.take(i - start));
        if next > max as u64 {
            proof {
                lemma_digits_value_prefix(digits, i + 1 - start);
            }
            return None;
        }
        acc = next as u32;
        i += 1;
    }
    assert(digits.take(n - start) =~= digits);
    Some(acc)
}

/// Writes `n` as its canonical numeral.
pub fn format_decimal(n: u32) -> (text: Vec<u8>)
    ensures
        text@ == decimal_digits(n as nat),
    decreases n,
{
    if n < 10 {
        let mut text: Vec<u8> = Vec::new();
        text.push(DIGIT_ZERO + n as u8);
        text
    } else {
        let mut text = format_decimal(n / 10);
        text.push(DIGIT_ZERO + (n % 10) as u8);
        text
    }
}

/// The canonical numeral of `n` consists of digits, at least one of them,
/// and they denote `n`.
pub proof fn lemma_decimal_digits_value(n: nat)
    ensures
        decimal_digits(n).len() > 0,
        all_digits(decimal_digits(n)),
        digits_value(decimal_digits(n)) == n,
    decreases n,
{
    let text = decimal_digits(n);
    if n < 10 {
        assert(digits_value(text.drop_last()) == 0);
    } else {
        lemma_decimal_digits_value(n / 10);
        assert(text.drop_last() =~= decimal_digits(n / 10));
    }
}

/// The canonical numeral of a number other than 0 does not start with a
/// zero.
pub proof fn lemma_decimal_digits_canonical(n: nat)
    ensures
        is_digit(decimal_digits(n)[0]),
        n > 0 ==> decimal_digits(n)[0] != DIGIT_ZERO,
    decreases n,
{
    if n >= 10 {
        lemma_decimal_digits_canonical(n / 10);
        lemma_decimal_digits_value(n / 10);
    }
}

/// Reading the canonical numeral of `n` gives `n` back, under every bound
/// that `n` meets.
pub proof fn lemma_numeral_of_decimal_digits(n: nat, max: nat)
    requires
        n <= max,
    ensures
        numeral(decimal_digits(n), max) == Some(n),
{
    lemma_decimal_digits_value(n);
    lemma_decimal_digits_canonical(n);
}

} // verus!
