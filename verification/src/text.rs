//! The text that the user interface and the library hand each other:
//! numbers typed into entries, labels picked from lists, numbers shown back.

use vstd::prelude::*;
use vstd::string::StrSliceExecFns;
use vstd::string::StringExecFns;

verus! {

pub open spec fn is_digit(c: char) -> bool {
    '0' <= c <= '9'
}

pub open spec fn all_digits(s: Seq<char>) -> bool {
    forall|i: int| 0 <= i < s.len() ==> is_digit(#[trigger] s[i])
}

pub open spec fn digit_value(c: char) -> int {
    c as int - '0' as int
}

/// The number that a string of decimal digits spells.
pub open spec fn decimal_value(s: Seq<char>) -> int
    decreases s.len(),
{
    if s.len() == 0 {
        0
    } else {
        decimal_value(s.drop_last()) * 10 + digit_value(s.last())
    }
}

/// What Rust's `str::parse` gives for an integer type whose values run from
/// `min` to `max` (`signed` for the types that take a minus sign): an optional
/// sign, then at least one decimal digit and nothing else, for a value in range.
pub open spec fn parsed_integer(s: Seq<char>, signed: bool, min: int, max: int) -> Option<int> {
    let negative = signed && s.len() > 0 && s[0] == '-';
    let digits = if s.len() > 0 && (s[0] == '+' || negative) {
        s.drop_first()
    } else {
        s
    };
    if digits.len() > 0 && all_digits(digits) {
        let value = if negative {
            -decimal_value(digits)
        } else {
            decimal_value(digits)
        };
        if min <= value <= max {
            Some(value)
        } else {
            None
        }
    } else {
        None
    }
}

pub open spec fn capped(value: int, cap: int) -> int {
    if value < cap {
        value
    } else {
        cap
    }
}

proof fn lemma_decimal_value_nonnegative(s: Seq<char>)
    requires
        all_digits(s),
    ensures
        decimal_value(s) >= 0,
    decreases s.len(),
{
    if s.len() > 0 {
        lemma_decimal_value_nonnegative(s.drop_last());
    }
}

/// Reads the decimal digits of `s` from the character at `start` to the end,
/// and gives their value, or `cap` when the value is `cap` or more. `None`
/// when there is no digit or something other than a digit.
fn scan_digits(s: &str, start: usize, cap: u64) -> (result: Option<u64>)
    requires
        cap <= 0x1_0000_0000,
    ensures
        ({
            let digits = s@.subrange(start as int, s@.len() as int);
            match result {
                Some(v) => start < s@.len() && all_digits(digits) && v == capped(
                    decimal_value(digits),
                    cap as int,
                ),
                None => !(start < s@.len() && all_digits(digits)),
            }
        }),
{
    let n = s.unicode_len();
    if start >= n {
        return None;
    }
    let mut value: u64 = 0;
    for i in start..n
        invariant
            n == s@.len(),
            start < n,
            cap <= 0x1_0000_0000,
            all_digits(s@.subrange(start as int, i as int)),
            value == capped(decimal_value(s@.subrange(start as int, i as int)), cap as int),
    {
        let c = s.get_char(i);
        let ghost prefix = s@.subrange(start as int, i as int);
        if !('0' <= c && c <= '9') {
            proof {
                assert(s@.subrange(start as int, n as int)[i - start] == c);
            }
            return None;
        }
        let d = (c as u32 - '0' as u32) as u64;
        proof {
            assert(s@.subrange(start as int, i + 1) =~= prefix.push(c));
            assert(prefix.push(c).drop_last() =~= prefix);
            lemma_decimal_value_nonnegative(prefix);
        }
        if value >= cap {
            value = cap;
        } else {
            let next = value * 10 + d;
            value = if next > cap {
                cap
            } else {
                next
            };
        }
    }
    Some(value)
}

/// Parses an attribute typed by the user, as `str::parse::<u8>` does.
pub fn parse_u8(s: &str) -> (result: Option<u8>)
    ensures
        match parsed_integer(s@, false, 0, 255) {
            Some(v) => result == Some(v as u8),
            None => result is None,
        },
{
    let n = s.unicode_len();
    let start: usize = if n > 0 && s.get_char(0) == '+' {
        1
    } else {
        0
    };
    proof {
        if start == 1 {
            assert(s@.drop_first() =~= s@.subrange(1, s@.len() as int));
        } else {
            assert(s@ =~= s@.subrange(0, s@.len() as int));
        }
    }
    match scan_digits(s, start, 256) {
        Some(v) => {
            proof {
                lemma_decimal_value_nonnegative(s@.subrange(start as int, s@.len() as int));
            }
            if v <= 255 {
                Some(v as u8)
            } else {
                None
            }
        },
        None => None,
    }
}

/// Parses a number typed by the user, as `str::parse::<i32>` does.
pub fn parse_i32(s: &str) -> (result: Option<i32>)
    ensures
        match parsed_integer(s@, true, i32::MIN as int, i32::MAX as int) {
            Some(v) => result == Some(v as i32),
            None => result is None,
        },
{
    let n = s.unicode_len();
    let first = if n > 0 {
        s.get_char(0)
    } else {
        ' '
    };
    let negative = n > 0 && first == '-';
    let start: usize = if n > 0 && (first == '+' || first == '-') {
        1
    } else {
        0
    };
    proof {
        if start == 1 {
            assert(s@.drop_first() =~= s@.subrange(1, s@.len() as int));
        } else {
            assert(s@ =~= s@.subrange(0, s@.len() as int));
        }
    }
    match scan_digits(s, start, 0x8000_0001) {
        Some(v) => {
            proof {
                lemma_decimal_value_nonnegative(s@.subrange(start as int, s@.len() as int));
            }
            if negative {
                if v <= 0x8000_0000 {
                    Some((0 - (v as i64)) as i32)
                } else {
                    None
                }
            } else {
                if v <= 0x7fff_ffff {
                    Some(v as i32)
                } else {
                    None
                }
            }
        },
        None => None,
    }
}

/// Whether two pieces of text are the same.
pub fn same_text(a: &str, b: &str) -> (same: bool)
    ensures
        same == (a@ == b@),
{
    let n = a.unicode_len();
    if n != b.unicode_len() {
        return false;
    }
    for i in 0..n
        invariant
            n == a@.len(),
            n == b@.len(),
            forall|j: int| 0 <= j < i ==> a@[j] == b@[j],
    {
        if a.get_char(i) != b.get_char(i) {
            return false;
        }
    }
    assert(a@ =~= b@);
    true
}

/// The character of a decimal digit.
pub open spec fn digit_char(d: nat) -> char {
    ('0' as nat + d) as char
}

/// The decimal digits of a number, without sign or leading zeros.
pub open spec fn decimal_digits(n: nat) -> Seq<char>
    decreases n,
{
    if n < 10 {
        seq![digit_char(n)]
    } else {
        decimal_digits(n / 10).push(digit_char(n % 10))
    }
}

/// The text of one decimal digit.
fn digit_text(d: usize) -> (text: &'static str)
    requires
        d < 10,
    ensures
        text@ == seq![digit_char(d as nat)],
{
    proof {
        reveal_strlit("0");
        reveal_strlit("1");
        reveal_strlit("2");
        reveal_strlit("3");
        reveal_strlit("4");
        reveal_strlit("5");
        reveal_strlit("6");
        reveal_strlit("7");
        reveal_strlit("8");
        reveal_strlit("9");
    }
    match d {
        0 => "0",
        1 => "1",
        2 => "2",
        3 => "3",
        4 => "4",
        5 => "5",
        6 => "6",
        7 => "7",
        8 => "8",
        _ => "9",
    }
}

/// A number in decimal: its digits, with no sign, padding or leading zeros.
pub fn decimal_text(n: usize) -> (text: String)
    ensures
        text@ == decimal_digits(n as nat),
    decreases n,
{
    if n < 10 {
        String::from_str(digit_text(n))
    } else {
        let mut text = decimal_text(n / 10);
        text.append(digit_text(n % 10));
        text
    }
}

} // verus!
