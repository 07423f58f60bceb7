//! Number and byte encodings: hexadecimal, decimal and base 36.

use vstd::prelude::*;
use crate::text::{chars_of, push_char};

verus! {

/// The sixteen lower-case hexadecimal digits.
pub open spec fn hex_digits() -> Seq<char> {
    seq!['0', '1', '2', '3', '4', '5', '6', '7', '8', '9', 'a', 'b', 'c', 'd', 'e', 'f']
}

/// The lower-case hexadecimal text of `bytes`: two digits for each byte,
/// the high one first.
pub open spec fn hex_of(bytes: Seq<u8>) -> Seq<char> {
    Seq::new(
        2 * bytes.len(),
        |i: int|
            if i % 2 == 0 {
                hex_digits()[bytes[i / 2] as int / 16]
            } else {
                hex_digits()[bytes[i / 2] as int % 16]
            },
    )
}

fn hex_char(n: u8) -> (c: char)
    requires
        n < 16,
    ensures
        c == hex_digits()[n as int],
{
    match n {
        0 => '0',
        1 => '1',
        2 => '2',
        3 => '3',
        4 => '4',
        5 => '5',
        6 => '6',
        7 => '7',
        8 => '8',
        9 => '9',
        10 => 'a',
        11 => 'b',
        12 => 'c',
        13 => 'd',
        14 => 'e',
        _ => 'f',
    }
}

/// Writes `bytes` in lower-case hexadecimal.
pub fn encode_hex(bytes: &[u8]) -> (out: String)
    ensures
        out@ == hex_of(bytes@),
{
    let mut out = String::new();
    let mut i: usize = 0;
    while i < bytes.len()
        invariant
            i <= bytes.len(),
            out@ == hex_of(bytes@.take(i as int)),
        decreases bytes.len() - i,
    {
        let b: u8 = bytes[i];
        push_char(&mut out, hex_char(b / 16));
        push_char(&mut out, hex_char(b % 16));
        assert(out@ =~= hex_of(bytes@.take(i + 1)));
        i += 1;
    }
    assert(bytes@.take(bytes.len() as int) =~= bytes@);
    out
}

/// The value of a hexadecimal digit of either case.
pub open spec fn hex_value(c: char) -> Option<int> {
    if '0' <= c <= '9' {
        Some(c as int - '0' as int)
    } else if 'a' <= c <= 'f' {
        Some(c as int - 'a' as int + 10)
    } else if 'A' <= c <= 'F' {
        Some(c as int - 'A' as int + 10)
    } else {
        None
    }
}

/// Whether `s` is hexadecimal text for whole bytes.
pub open spec fn is_hex(s: Seq<char>) -> bool {
    &&& s.len() % 2 == 0
    &&& forall|i: int| 0 <= i < s.len() ==> hex_value(#[trigger] s[i]) is Some
}

/// The bytes that the hexadecimal text `s` stands for.
pub open spec fn unhex(s: Seq<char>) -> Seq<u8> {
    Seq::new(
        s.len() / 2,
        |i: int| (16 * hex_value(s[2 * i])->0 + hex_value(s[2 * i + 1])->0) as u8,
    )
}

fn hex_digit_value(c: char) -> (v: Option<u8>)
    ensures
        match v {
            Some(d) => hex_value(c) == Some(d as int) && d < 16,
            None => hex_value(c) is None,
        },
{
    if '0' <= c && c <= '9' {
        Some((c as u32 - '0' as u32) as u8)
    } else if 'a' <= c && c <= 'f' {
        Some((c as u32 - 'a' as u32 + 10) as u8)
    } else if 'A' <= c && c <= 'F' {
        Some((c as u32 - 'A' as u32 + 10) as u8)
    } else {
        None
    }
}

/// Reads hexadecimal text of either case; `None` where `s` is not that.
pub fn decode_hex(s: &str) -> (out: Option<Vec<u8>>)
    ensures
        match out {
            Some(bytes) => is_hex(s@) && bytes@ == unhex(s@),
            None => !is_hex(s@),
        },
{
    let v = chars_of(s);
    let n: usize = v.len();
    if n % 2 != 0 {
        return None;
    }
    let mut bytes: Vec<u8> = Vec::new();
    let mut i: usize = 0;
    while i < n
        invariant
            i <= n == v.len(),
            i % 2 == 0,
            n % 2 == 0,
            v@ == s@,
            forall|k: int| 0 <= k < i ==> hex_value(#[trigger] v@[k]) is Some,
            bytes@ == unhex(v@.take(i as int)),
        decreases n - i,
    {
        let high = match hex_digit_value(v[i]) {
            Some(d) => d,
            None => {
                return None;
            },
        };
        let low = match hex_digit_value(v[i + 1]) {
            Some(d) => d,
            None => {
                return None;
            },
        };
        bytes.push(16 * high + low);
        assert(bytes@ =~= unhex(v@.take(i + 2)));
        i += 2;
    }
    assert(v@.take(n as int) =~= v@);
    Some(bytes)
}

/// Whether `c` is one of the ten ASCII digits.
pub open spec fn is_digit(c: char) -> bool {
    '0' <= c <= '9'
}

/// The number that the decimal digits `s` write.
pub open spec fn decimal_value(s: Seq<char>) -> nat
    decreases s.len(),
{
    if s.len() == 0 {
        0
    } else {
        (10 * decimal_value(s.drop_last()) + (s.last() as int - '0' as int)) as nat
    }
}

/// The length of the longest start of `s` that holds digits only.
pub open spec fn digit_run(s: Seq<char>) -> nat
    decreases s.len(),
{
    if s.len() > 0 && is_digit(s.first()) {
        1 + digit_run(s.drop_first())
    } else {
        0
    }
}

/// What reading a decimal number came to.
#[derive(Debug, Clone, Copy, PartialEq, Eq, Structural)]
pub enum Decimal {
    /// The text was a number within the limit.
    Value(u64),
    /// The text was empty.
    Empty,
    /// A character that is no digit came before the number grew too large.
    InvalidDigit,
    /// The number grew beyond the limit.
    TooLarge,
}

/// What [`parse_decimal`] returns for the text `s` and the limit `max`.
/// The text is a string of digits without a sign. It is read from the
/// left: whichever of a character that is no digit and an overflow comes
/// first decides the error.
pub open spec fn decimal_outcome(s: Seq<char>, max: u64) -> Decimal {
    let run = s.take(digit_run(s) as int);
    if s.len() == 0 {
        Decimal::Empty
    } else if decimal_value(run) > max {
        Decimal::TooLarge
    } else if run.len() < s.len() {
        Decimal::InvalidDigit
    } else {
        Decimal::Value(decimal_value(s) as u64)
    }
}

proof fn lemma_digit_run(s: Seq<char>, i: int)
    requires
        0 <= i <= s.len(),
        forall|k: int| 0 <= k < i ==> is_digit(#[trigger] s[k]),
    ensures
        digit_run(s) >= i,
        i < s.len() && !is_digit(s[i]) ==> digit_run(s) == i,
        i == s.len() ==> digit_run(s) == i,
    decreases i,
{
    lemma_digit_run_bound(s);
    if i > 0 {
        let rest = s.drop_first();
        assert forall|k: int| 0 <= k < i - 1 implies is_digit(#[trigger] rest[k]) by {
            assert(rest[k] == s[k + 1]);
        }
        assert(is_digit(s[0]));
        lemma_digit_run(rest, i - 1);
        if i < s.len() {
            assert(rest[i - 1] == s[i]);
        }
    }
}

proof fn lemma_digit_run_bound(s: Seq<char>)
    ensures
        digit_run(s) <= s.len(),
    decreases s.len(),
{
    if s.len() > 0 && is_digit(s.first()) {
        lemma_digit_run_bound(s.drop_first());
    }
}

proof fn lemma_decimal_value_grows(s: Seq<char>, i: int)
    requires
        0 <= i <= s.len(),
        forall|k: int| 0 <= k < s.len() ==> is_digit(#[trigger] s[k]),
    ensures
        decimal_value(s.take(i)) <= decimal_value(s),
    decreases s.len() - i,
{
    if i < s.len() {
        assert(s.take(i + 1).drop_last() =~= s.take(i));
        assert(is_digit(s.take(i + 1).last()));
        lemma_decimal_value_grows(s, i + 1);
    } else {
        assert(s.take(i) =~= s);
    }
}

/// Reads `s`, a string of digits without a sign, as a decimal number no
/// larger than `max`.
pub fn parse_decimal(s: &str, max: u64) -> (out: Decimal)
    ensures
        out == decimal_outcome(s@, max),
        out matches Decimal::Value(value) ==> value <= max && value == decimal_value(s@),
{
    let v = chars_of(s);
    let n: usize = v.len();
    if n == 0 {
        return Decimal::Empty;
    }
    let mut value: u64 = 0;
    let mut i: usize = 0;
    while i < n
        invariant
            i <= n == v.len(),
            v@ == s@,
            n > 0,
            forall|k: int| 0 <= k < i ==> is_digit(#[trigger] v@[k]),
            value == decimal_value(v@.take(i as int)),
            value <= max,
        decreases n - i,
    {
        let c: char = v[i];
        if !('0' <= c && c <= '9') {
            proof {
                lemma_digit_run(v@, i as int);
            }
            return Decimal::InvalidDigit;
        }
        let d: u64 = (c as u32 - '0' as u32) as u64;
        proof {
            assert(v@.take(i + 1).drop_last() =~= v@.take(i as int));
            assert(decimal_value(v@.take(i + 1)) == 10 * value + d);
        }
        let grown: bool = d > max || value > (max - d) / 10;
        if grown {
            proof {
                assert(10 * value + d > max) by (nonlinear_arith)
                    requires
                        d > max || value > (max - d) / 10,
                        0 <= d,
                        0 <= value,
                        0 <= max,
                ;
                let run = v@.take(digit_run(v@) as int);
                lemma_digit_run_bound(v@);
                lemma_digit_run_prefix(v@, i + 1);
                assert(run.take(i + 1) =~= v@.take(i + 1));
                lemma_decimal_value_grows(run, i + 1);
            }
            return Decimal::TooLarge;
        }
        assert(10 * value + d <= max) by (nonlinear_arith)
            requires
                value <= (max - d) / 10,
                d <= max,
                0 <= d,
                0 <= value,
        ;
        value = 10 * value + d;
        i += 1;
    }
    proof {
        lemma_digit_run(v@, n as int);
        assert(v@.take(n as int) =~= v@);
    }
    Decimal::Value(value)
}

proof fn lemma_digit_run_prefix(s: Seq<char>, i: int)
    requires
        0 <= i <= s.len(),
        forall|k: int| 0 <= k < i ==> is_digit(#[trigger] s[k]),
    ensures
        i <= digit_run(s) <= s.len(),
        forall|k: int| 0 <= k < digit_run(s) ==> is_digit(#[trigger] s.take(digit_run(s) as int)[k]),
{
    lemma_digit_run(s, i);
    lemma_digit_run_bound(s);
    lemma_digit_run_digits(s);
}

proof fn lemma_digit_run_digits(s: Seq<char>)
    ensures
        digit_run(s) <= s.len(),
        forall|k: int| 0 <= k < digit_run(s) ==> is_digit(#[trigger] s[k]),
    decreases s.len(),
{
    if s.len() > 0 && is_digit(s.first()) {
        let rest = s.drop_first();
        lemma_digit_run_digits(rest);
        assert forall|k: int| 0 <= k < digit_run(s) implies is_digit(#[trigger] s[k]) by {
            if k > 0 {
                assert(rest[k - 1] == s[k]);
            }
        }
    }
}

/// The thirty-six lower-case digits of base 36.
pub open spec fn base36_digits() -> Seq<char> {
    hex_digits() + seq![
        'g',
        'h',
        'i',
        'j',
        'k',
        'l',
        'm',
        'n',
        'o',
        'p',
        'q',
        'r',
        's',
        't',
        'u',
        'v',
        'w',
        'x',
        'y',
        'z',
    ]
}

/// `n` written in base 36 with lower-case digits and no leading zero.
pub open spec fn base36(n: nat) -> Seq<char>
    decreases n,
{
    if n < 36 {
        seq![base36_digits()[n as int]]
    } else {
        base36(n / 36).push(base36_digits()[(n % 36) as int])
    }
}

/// Formats `n` with `radix_fmt::radix(n, 36)`. The crate writes the digits
/// of `n / 36` before the digit of `n % 36`, stops when the quotient is
/// zero, and uses the lower-case alphabet unless asked otherwise.
#[verifier::external_body]
pub(crate) fn radix36(n: i64) -> (out: String)
    requires
        0 <= n,
    ensures
        out@ == base36(n as nat),
{
    radix_fmt::radix(n, 36).to_string()
}

} // verus!
