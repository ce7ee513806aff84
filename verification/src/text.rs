//! Decimal and boolean text forms of the facts stored in schema metadata.

use vstd::prelude::*;

verus! {

/// The character of a decimal digit.
pub open spec fn digit_char(d: nat) -> char {
    if d == 0 {
        '0'
    } else if d == 1 {
        '1'
    } else if d == 2 {
        '2'
    } else if d == 3 {
        '3'
    } else if d == 4 {
        '4'
    } else if d == 5 {
        '5'
    } else if d == 6 {
        '6'
    } else if d == 7 {
        '7'
    } else if d == 8 {
        '8'
    } else {
        '9'
    }
}

/// The value of a decimal digit, if the character is one.
pub open spec fn digit_value(c: char) -> Option<nat> {
    if c == '0' {
        Some(0)
    } else if c == '1' {
        Some(1)
    } else if c == '2' {
        Some(2)
    } else if c == '3' {
        Some(3)
    } else if c == '4' {
        Some(4)
    } else if c == '5' {
        Some(5)
    } else if c == '6' {
        Some(6)
    } else if c == '7' {
        Some(7)
    } else if c == '8' {
        Some(8)
    } else if c == '9' {
        Some(9)
    } else {
        None
    }
}

/// Decimal text of a number, without sign or leading zeros.
pub open spec fn decimal(n: nat) -> Seq<char>
    decreases n,
{
    if n < 10 {
        seq![digit_char(n)]
    } else {
        decimal(n / 10).push(digit_char(n % 10))
    }
}

/// The number that a run of decimal digits denotes; `None` if some
/// character is no digit.
pub open spec fn digits_value(s: Seq<char>) -> Option<nat>
    decreases s.len(),
{
    if s.len() == 0 {
        Some(0)
    } else {
        match (digits_value(s.drop_last()), digit_value(s.last())) {
            (Some(high), Some(d)) => Some(10 * high + d),
            _ => None,
        }
    }
}

/// Reading of an unsigned number: an optional `+`, then at least one
/// decimal digit and nothing else, denoting a value of at most `max`.
pub open spec fn parse_unsigned(s: Seq<char>, max: nat) -> Option<nat> {
    let body = if s.len() > 0 && s[0] == '+' {
        s.skip(1)
    } else {
        s
    };
    if body.len() == 0 {
        None
    } else {
        match digits_value(body) {
            Some(v) => if v <= max {
                Some(v)
            } else {
                None
            },
            None => None,
        }
    }
}

/// Text of a flag.
pub open spec fn bool_text(b: bool) -> Seq<char> {
    if b {
        "true"@
    } else {
        "false"@
    }
}

/// Reading of a flag: exactly one of the two literals.
pub open spec fn parse_flag(s: Seq<char>) -> Option<bool> {
    if s == "true"@ {
        Some(true)
    } else if s == "false"@ {
        Some(false)
    } else {
        None
    }
}

/// The decimal text of a number consists of digits and reads back as the
/// number.
pub proof fn lemma_decimal_digits(n: nat)
    ensures
        decimal(n).len() > 0,
        digits_value(decimal(n)) == Some(n),
        digit_value(decimal(n)[0]) is Some,
    decreases n,
{
    if n < 10 {
        let s = decimal(n);
        assert(s.drop_last().len() == 0);
        assert(digits_value(s.drop_last()) == Some(0nat));
        assert(s.last() == digit_char(n));
    } else {
        lemma_decimal_digits(n / 10);
        let s = decimal(n);
        let high = decimal(n / 10);
        assert(s.drop_last() =~= high);
        assert(s.last() == digit_char(n % 10));
        assert(digit_value(digit_char(n % 10)) == Some(n % 10));
        assert(s[0] == high[0]);
    }
}

/// Writing a number in decimal and reading it back gives the number.
pub proof fn lemma_decimal_round_trip(n: nat, max: nat)
    requires
        n <= max,
    ensures
        parse_unsigned(decimal(n), max) == Some(n),
{
    lemma_decimal_digits(n);
}

/// Writing a flag and reading it back gives the flag.
pub proof fn lemma_flag_round_trip(b: bool)
    ensures
        parse_flag(bool_text(b)) == Some(b),
{
    reveal_strlit("true");
    reveal_strlit("false");
    assert("true"@.len() != "false"@.len());
}

/// A prefix of a run of digits is a run of digits, and denotes no more
/// than the whole run.
pub proof fn lemma_digits_prefix(s: Seq<char>, k: int)
    requires
        0 <= k <= s.len(),
        digits_value(s) is Some,
    ensures
        digits_value(s.take(k)) is Some,
        digits_value(s.take(k)).unwrap() <= digits_value(s).unwrap(),
    decreases s.len(),
{
    if k == s.len() {
        assert(s.take(k) =~= s);
    } else {
        assert(s.drop_last().take(k) =~= s.take(k));
        lemma_digits_prefix(s.drop_last(), k);
    }
}

/// The text of one decimal digit.
pub fn digit_text(d: u64) -> (r: &'static str)
    requires
        d < 10,
    ensures
        r@ == seq![digit_char(d as nat)],
{
    proof {
        reveal_strlit("0");
        reveal_strlit("1");
        reveal_strlit("2");
        reveal_strlit("3");
        reveal_strlit("4");
        reveal_strlit("5");
        reveal_strlit("6");
        reveal_strlit("7");
        reveal_strlit("8");
        reveal_strlit("9");
    }
    let r = if d == 0 {
        "0"
    } else if d == 1 {
        "1"
    } else if d == 2 {
        "2"
    } else if d == 3 {
        "3"
    } else if d == 4 {
        "4"
    } else if d == 5 {
        "5"
    } else if d == 6 {
        "6"
    } else if d == 7 {
        "7"
    } else if d == 8 {
        "8"
    } else {
        "9"
    };
    proof {
        assert(r@ =~= seq![digit_char(d as nat)]);
    }
    r
}

/// The value of a decimal digit, if the character is one.
pub fn digit_of(c: char) -> (r: Option<u64>)
    ensures
        match digit_value(c) {
            Some(d) => r == Some(d as u64) && d < 10,
            None => r is None,
        },
{
    if c == '0' {
        Some(0)
    } else if c == '1' {
        Some(1)
    } else if c == '2' {
        Some(2)
    } else if c == '3' {
        Some(3)
    } else if c == '4' {
        Some(4)
    } else if c == '5' {
        Some(5)
    } else if c == '6' {
        Some(6)
    } else if c == '7' {
        Some(7)
    } else if c == '8' {
        Some(8)
    } else if c == '9' {
        Some(9)
    } else {
        None
    }
}

/// Decimal text of a number.
pub fn write_decimal(n: u64) -> (r: String)
    ensures
        r@ == decimal(n as nat),
    decreases n,
{
    if n < 10 {
        String::from_str(digit_text(n))
    } else {
        let mut text = write_decimal(n / 10);
        let ghost high = text@;
        text.append(digit_text(n % 10));
        proof {
            assert(text@ =~= high.push(digit_char((n % 10) as nat)));
        }
        text
    }
}

/// Reads an unsigned number of at most `max` from its decimal text;
/// `None` unless the text is an optional `+` and at least one decimal
/// digit, and the number fits.
pub fn read_unsigned(s: &str, max: u64) -> (r: Option<u64>)
    ensures
        match parse_unsigned(s@, max as nat) {
            Some(v) => r == Some(v as u64),
            None => r is None,
        },
{
    let n = s.unicode_len();
    let mut start: usize = 0;
    if n > 0 {
        if s.get_char(0) == '+' {
            start = 1;
        }
    }
    let ghost body = if s@.len() > 0 && s@[0] == '+' {
        s@.skip(1)
    } else {
        s@
    };
    proof {
        assert(s@.skip(0) =~= s@);
        assert(body == s@.skip(start as int));
    }
    if start == n {
        return None;
    }
    let mut acc: u64 = 0;
    let mut i: usize = start;
    proof {
        assert(body.take(0) =~= Seq::empty());
    }
    while i < n
        invariant
            start <= i <= n,
            start < n,
            n == s@.len(),
            body == s@.skip(start as int),
            body == (if s@.len() > 0 && s@[0] == '+' {
                s@.skip(1)
            } else {
                s@
            }),
            digits_value(body.take(i - start)) == Some(acc as nat),
            acc <= max,
        decreases n - i,
    {
        let c = s.get_char(i);
        let ghost front = body.take(i - start);
        let ghost next = body.take(i - start + 1);
        proof {
            assert(next.drop_last() =~= front);
            assert(next.last() == c);
        }
        let d = match digit_of(c) {
            Some(d) => d,
            None => {
                proof {
                    assert(digits_value(next) is None);
                    if digits_value(body) is Some {
                        lemma_digits_prefix(body, i - start + 1);
                    }
                }
                return None;
            },
        };
        if d > max || acc > (max - d) / 10 {
            proof {
                assert(digits_value(next) == Some(10 * (acc as nat) + (d as nat)));
                assert(10 * acc + d > max);
                if digits_value(body) is Some {
                    lemma_digits_prefix(body, i - start + 1);
                }
            }
            return None;
        }
        acc = acc * 10 + d;
        i += 1;
    }
    proof {
        assert(body.take(n - start) =~= body);
    }
    Some(acc)
}

/// Reads a count from its decimal text; `None` unless the text is an
/// optional `+` and decimal digits that denote a count that fits.
pub fn read_usize(s: &str) -> (r: Option<usize>)
    ensures
        match parse_unsigned(s@, usize::MAX as nat) {
            Some(v) => r == Some(v as usize),
            None => r is None,
        },
{
    match read_unsigned(s, usize::MAX as u64) {
        Some(v) => Some(v as usize),
        None => None,
    }
}

/// Reads a 32-bit number from its decimal text, as [`read_usize`] reads
/// a count.
pub fn read_u32(s: &str) -> (r: Option<u32>)
    ensures
        match parse_unsigned(s@, u32::MAX as nat) {
            Some(v) => r == Some(v as u32),
            None => r is None,
        },
{
    match read_unsigned(s, u32::MAX as u64) {
        Some(v) => Some(v as u32),
        None => None,
    }
}

/// Text of a flag: `true` or `false`.
pub fn flag_string(b: bool) -> (r: String)
    ensures
        r@ == bool_text(b),
{
    if b {
        String::from_str("true")
    } else {
        String::from_str("false")
    }
}

/// Reads a flag from its text.
pub fn parse_bool(s: &str) -> (r: Option<bool>)
    ensures
        r == parse_flag(s@),
{
    let text = String::from_str(s);
    if text == String::from_str("true") {
        Some(true)
    } else if text == String::from_str("false") {
        Some(false)
    } else {
        None
    }
}

} // verus!
