//! Decimal numbers and durations.

use vstd::prelude::*;
use vstd::string::StringExecFns;
use crate::text::to_chars;

verus! {

/// Why a text is not a number.
#[derive(Debug, Clone, Copy, PartialEq, Eq, Structural)]
pub enum ParseIntError {
    /// There was nothing to parse.
    Empty,
    /// A character is not a decimal digit, or a sign stands alone.
    InvalidDigit,
    /// The number does not fit into 64 bits.
    PosOverflow,
}

/// Whether `c` is one of `0` to `9`.
pub open spec fn is_digit(c: char) -> bool {
    '0' <= c && c <= '9'
}

/// The value of the decimal digit `c`.
pub open spec fn digit_value(c: char) -> int {
    c as int - '0' as int
}

/// Whether `s` consists of decimal digits only.
pub open spec fn all_digits(s: Seq<char>) -> bool {
    forall|i: int| 0 <= i < s.len() ==> is_digit(#[trigger] s[i])
}

/// The number written by the decimal digits `s`.
pub open spec fn decimal_value(s: Seq<char>) -> nat
    decreases s.len(),
{
    if s.len() == 0 {
        0
    } else {
        (10 * decimal_value(s.drop_last()) + digit_value(s.last())) as nat
    }
}

/// The number of leading decimal digits of `s`.
pub open spec fn digit_run(s: Seq<char>) -> nat
    decreases s.len(),
{
    if s.len() > 0 && is_digit(s[0]) {
        1 + digit_run(s.drop_first())
    } else {
        0
    }
}

/// What `parse_u64` makes of `s`: an optional `+`, then at least one digit
/// and nothing else, with a value that fits into 64 bits.
pub open spec fn parsed_u64(s: Seq<char>) -> Result<u64, ParseIntError> {
    let digits = if s.len() > 0 && s[0] == '+' {
        s.drop_first()
    } else {
        s
    };
    if s.len() == 0 {
        Err(ParseIntError::Empty)
    } else if digits.len() == 0 || !all_digits(digits) {
        Err(ParseIntError::InvalidDigit)
    } else if decimal_value(digits) > u64::MAX {
        Err(ParseIntError::PosOverflow)
    } else {
        Ok(decimal_value(digits) as u64)
    }
}

/// A longer digit string never has a smaller value.
pub proof fn lemma_decimal_value_monotone(s: Seq<char>, n: int)
    requires
        0 <= n <= s.len(),
        all_digits(s),
    ensures
        decimal_value(s.take(n)) <= decimal_value(s),
    decreases s.len() - n,
{
    if n < s.len() {
        lemma_decimal_value_monotone(s, n + 1);
        assert(s.take(n + 1).drop_last() =~= s.take(n));
    } else {
        assert(s.take(n) =~= s);
    }
}

/// The digits of a run are digits, and the run ends at the first other character.
pub proof fn lemma_digit_run(s: Seq<char>)
    ensures
        digit_run(s) <= s.len(),
        all_digits(s.take(digit_run(s) as int)),
        digit_run(s) < s.len() ==> !is_digit(s[digit_run(s) as int]),
    decreases s.len(),
{
    if s.len() > 0 && is_digit(s[0]) {
        let rest = s.drop_first();
        lemma_digit_run(rest);
        let n = digit_run(rest) as int;
        assert forall|i: int| 0 <= i < n + 1 implies is_digit(#[trigger] s.take(n + 1)[i]) by {
            if i > 0 {
                assert(s.take(n + 1)[i] == rest.take(n)[i - 1]);
            }
        }
    }
}

/// Whether `c` is one of `0` to `9`.
pub fn is_decimal_digit(c: char) -> (b: bool)
    ensures
        b == is_digit(c),
{
    '0' <= c && c <= '9'
}

/// Reads the decimal number written in `chars[from..to]`, all of which must be digits.
///
/// Returns `None` exactly when the number does not fit into 64 bits.
pub fn decimal_of(chars: &[char], from: usize, to: usize) -> (r: Option<u64>)
    requires
        from <= to <= chars@.len(),
        all_digits(chars@.subrange(from as int, to as int)),
    ensures
        match r {
            Some(v) => v == decimal_value(chars@.subrange(from as int, to as int)),
            None => decimal_value(chars@.subrange(from as int, to as int)) > u64::MAX,
        },
{
    let ghost digits = chars@.subrange(from as int, to as int);
    let mut value: u64 = 0;
    let mut i: usize = from;
    while i < to
        invariant
            from <= i <= to <= chars@.len(),
            digits == chars@.subrange(from as int, to as int),
            all_digits(digits),
            value == decimal_value(digits.take(i - from)),
        decreases to - i,
    {
        let c = chars[i];
        proof {
            assert(digits.take(i - from + 1).drop_last() =~= digits.take(i - from));
            lemma_decimal_value_monotone(digits, i - from + 1);
        }
        let d = (c as u32 - '0' as u32) as u64;
        if value > (u64::MAX - d) / 10 {
            return None;
        }
        value = value * 10 + d;
        i += 1;
    }
    assert(digits.take(to - from) =~= digits);
    Some(value)
}

/// The position after the decimal digits that start at `from`.
pub fn skip_digits(chars: &[char], from: usize) -> (to: usize)
    requires
        from <= chars@.len(),
    ensures
        to == from + digit_run(chars@.skip(from as int)),
        to <= chars@.len(),
        all_digits(chars@.subrange(from as int, to as int)),
{
    let mut i: usize = from;
    proof {
        lemma_digit_run(chars@.skip(from as int));
    }
    while i < chars.len() && is_decimal_digit(chars[i])
        invariant
            from <= i <= chars@.len(),
            digit_run(chars@.skip(from as int)) == (i - from) + digit_run(chars@.skip(i as int)),
        decreases chars@.len() - i,
    {
        assert(chars@.skip(i as int).drop_first() =~= chars@.skip(i + 1));
        i += 1;
    }
    proof {
        let run = digit_run(chars@.skip(from as int));
        assert(chars@.skip(from as int).take(run as int) =~= chars@.subrange(
            from as int,
            i as int,
        ));
    }
    i
}

/// Parses a whole text as an unsigned decimal number.
pub fn parse_u64(input: &str) -> (r: Result<u64, ParseIntError>)
    ensures
        r == parsed_u64(input@),
{
    let chars = to_chars(input);
    let n = chars.len();
    if n == 0 {
        return Err(ParseIntError::Empty);
    }
    let start: usize = if chars[0] == '+' {
        1
    } else {
        0
    };
    let ghost digits = chars@.subrange(start as int, n as int);
    proof {
        if !(start == 1) {
            assert(digits =~= chars@);
        }
    }
    if start == n {
        return Err(ParseIntError::InvalidDigit);
    }
    let end = skip_digits(chars.as_slice(), start);
    if end < n {
        proof {
            lemma_digit_run(chars@.skip(start as int));
        }
        return Err(ParseIntError::InvalidDigit);
    }
    match decimal_of(chars.as_slice(), start, n) {
        Some(v) => Ok(v),
        None => Err(ParseIntError::PosOverflow),
    }
}

/// What `take_u64` reads at the head of `s`: the value of the leading run
/// of digits and the length of that run.  There is nothing to read where `s`
/// starts with no digit or the value does not fit into 64 bits.
pub open spec fn taken_u64(s: Seq<char>) -> Option<(u64, nat)> {
    let run = digit_run(s);
    if run == 0 || decimal_value(s.take(run as int)) > u64::MAX {
        None
    } else {
        Some((decimal_value(s.take(run as int)) as u64, run))
    }
}

/// What `take_duration` reads at the head of `s`: hours, minutes and seconds
/// separated by colons, as a number of seconds, and the length read.
pub open spec fn taken_duration(s: Seq<char>) -> Option<(u64, nat)> {
    match taken_u64(s) {
        None => None,
        Some((hours, n1)) => if !(n1 < s.len() && s[n1 as int] == ':') {
            None
        } else {
            match taken_u64(s.skip(n1 as int + 1)) {
                None => None,
                Some((minutes, n2)) => if !(n1 + 1 + n2 < s.len() && s[n1 as int + 1 + n2] == ':') {
                    None
                } else {
                    match taken_u64(s.skip(n1 as int + n2 + 2)) {
                        None => None,
                        Some((seconds, n3)) => if hours * 3600 + minutes * 60 + seconds
                            > u64::MAX {
                            None
                        } else {
                            Some(
                                (
                                    (hours * 3600 + minutes * 60 + seconds) as u64,
                                    n1 + n2 + n3 + 2,
                                ),
                            )
                        },
                    }
                },
            }
        },
    }
}

/// Reads an unsigned decimal number that starts at `from`.
///
/// Returns the value and the position after its last digit.
pub fn take_u64(chars: &[char], from: usize) -> (r: Option<(u64, usize)>)
    requires
        from <= chars@.len(),
    ensures
        match r {
            Some((value, next)) => taken_u64(chars@.skip(from as int)) == Some(
                (value, (next - from) as nat),
            ) && from < next <= chars@.len(),
            None => taken_u64(chars@.skip(from as int)) is None,
        },
{
    let to = skip_digits(chars, from);
    proof {
        assert(chars@.skip(from as int).take(to - from) =~= chars@.subrange(
            from as int,
            to as int,
        ));
    }
    if to == from {
        return None;
    }
    match decimal_of(chars, from, to) {
        Some(value) => Some((value, to)),
        None => None,
    }
}

/// Reads `hours:minutes:seconds` starting at `from`.
///
/// Returns the duration in seconds and the position after the last digit.
pub fn take_duration(chars: &[char], from: usize) -> (r: Option<(u64, usize)>)
    requires
        from <= chars@.len(),
    ensures
        match r {
            Some((seconds, next)) => taken_duration(chars@.skip(from as int)) == Some(
                (seconds, (next - from) as nat),
            ) && from < next <= chars@.len(),
            None => taken_duration(chars@.skip(from as int)) is None,
        },
{
    let ghost s = chars@.skip(from as int);
    let (hours, p1) = match take_u64(chars, from) {
        Some(found) => found,
        None => {
            return None;
        },
    };
    if !(p1 < chars.len() && chars[p1] == ':') {
        return None;
    }
    assert(s.skip(p1 - from + 1) =~= chars@.skip(p1 + 1));
    let (minutes, p2) = match take_u64(chars, p1 + 1) {
        Some(found) => found,
        None => {
            return None;
        },
    };
    if !(p2 < chars.len() && chars[p2] == ':') {
        return None;
    }
    assert(s.skip((p1 - from) + (p2 - p1 - 1) + 2) =~= chars@.skip(p2 + 1));
    let (seconds, p3) = match take_u64(chars, p2 + 1) {
        Some(found) => found,
        None => {
            return None;
        },
    };
    let total = hours as u128 * 3600 + minutes as u128 * 60 + seconds as u128;
    if total > u64::MAX as u128 {
        return None;
    }
    Some((total as u64, p3))
}

/// The character that writes the digit `d`.
pub open spec fn digit_char(d: int) -> char {
    (d + '0' as int) as char
}

/// The decimal digits of `n`, most significant first, without leading zeros.
pub open spec fn decimal_digits(n: nat) -> Seq<char>
    decreases n,
{
    if n < 10 {
        seq![digit_char(n as int)]
    } else {
        decimal_digits(n / 10).push(digit_char((n % 10) as int))
    }
}

/// The digits of a number are digits, and they write that number.
pub proof fn lemma_decimal_digits(n: nat)
    ensures
        decimal_digits(n).len() > 0,
        all_digits(decimal_digits(n)),
        decimal_value(decimal_digits(n)) == n,
    decreases n,
{
    reveal_with_fuel(decimal_value, 2);
    if !(n < 10) {
        lemma_decimal_digits(n / 10);
        assert(decimal_digits(n).drop_last() =~= decimal_digits(n / 10));
    }
}

/// Writes `value` in decimal.
pub fn format_u64(value: u64) -> (text: String)
    ensures
        text@ == decimal_digits(value as nat),
    decreases value,
{
    let mut text = if value < 10 {
        String::new()
    } else {
        format_u64(value / 10)
    };
    let d = (value % 10) as u8;
    text.push((d + 48) as char);
    text
}

/// Formatting and then parsing a number gives the number back.
pub proof fn lemma_parse_format_u64(value: u64)
    ensures
        parsed_u64(decimal_digits(value as nat)) == Ok::<u64, ParseIntError>(value),
{
    lemma_decimal_digits(value as nat);
}

/// The decimal text of an integer: a minus sign for a negative number, then its digits.
pub open spec fn signed_digits(n: int) -> Seq<char> {
    if n < 0 {
        seq!['-'] + decimal_digits((-n) as nat)
    } else {
        decimal_digits(n as nat)
    }
}

/// Writes `value` in decimal.
pub fn format_i64(value: i64) -> (text: String)
    ensures
        text@ == signed_digits(value as int),
{
    if value < 0 {
        let magnitude: u64 = if value == i64::MIN {
            0x8000_0000_0000_0000
        } else {
            (-value) as u64
        };
        let mut text = String::new();
        text.push('-');
        let digits = format_u64(magnitude);
        text.append(digits.as_str());
        text
    } else {
        format_u64(value as u64)
    }
}

} // verus!
