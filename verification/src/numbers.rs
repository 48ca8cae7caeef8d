//! Decimal formatting and parsing of the integers that appear in generated
//! configuration text: `i32` values of numeric config items and the `u32`
//! components of the SDK version string.

use vstd::prelude::*;

verus! {

/// The decimal digit character for `d` (`0 <= d <= 9`).
pub open spec fn digit_char(d: int) -> char {
    if d == 0 {
        '0'
    } else if d == 1 {
        '1'
    } else if d == 2 {
        '2'
    } else if d == 3 {
        '3'
    } else if d == 4 {
        '4'
    } else if d == 5 {
        '5'
    } else if d == 6 {
        '6'
    } else if d == 7 {
        '7'
    } else if d == 8 {
        '8'
    } else {
        '9'
    }
}

/// Whether `c` is a decimal digit.
pub open spec fn is_digit(c: char) -> bool {
    48 <= c as int && c as int <= 57
}

/// The numeric value of a digit character.
pub open spec fn digit_val(c: char) -> int {
    c as int - '0' as int
}

/// The canonical decimal digit string of a natural number.
pub open spec fn spec_nat_chars(n: nat) -> Seq<char>
    decreases n,
{
    if n < 10 {
        seq![digit_char(n as int)]
    } else {
        spec_nat_chars(n / 10).push(digit_char((n % 10) as int))
    }
}

/// The canonical decimal string of an integer, with a leading minus sign
/// when negative.
pub open spec fn spec_int_chars(n: int) -> Seq<char> {
    if n < 0 {
        seq!['-'] + spec_nat_chars((-n) as nat)
    } else {
        spec_nat_chars(n as nat)
    }
}

/// The exec counterpart of `digit_char`.
fn digit_char_of(d: u32) -> (c: char)
    requires
        d < 10,
    ensures
        c == digit_char(d as int),
{
    if d == 0 {
        '0'
    } else if d == 1 {
        '1'
    } else if d == 2 {
        '2'
    } else if d == 3 {
        '3'
    } else if d == 4 {
        '4'
    } else if d == 5 {
        '5'
    } else if d == 6 {
        '6'
    } else if d == 7 {
        '7'
    } else if d == 8 {
        '8'
    } else {
        '9'
    }
}

/// Formats a `u32` as its canonical decimal digit string.
pub fn format_u32(n: u32) -> (r: Vec<char>)
    ensures
        r@ == spec_nat_chars(n as nat),
    decreases n,
{
    if n < 10 {
        let mut r: Vec<char> = Vec::new();
        r.push(digit_char_of(n));
        proof {
            assert(r@ =~= spec_nat_chars(n as nat));
        }
        r
    } else {
        let mut r = format_u32(n / 10);
        r.push(digit_char_of(n % 10));
        r
    }
}

/// Formats an `i32` as its canonical decimal string.
pub fn format_i32(n: i32) -> (r: Vec<char>)
    ensures
        r@ == spec_int_chars(n as int),
{
    if n >= 0 {
        format_u32(n as u32)
    } else {
        let mag: u32 = if n == i32::MIN {
            2147483648u32
        } else {
            (-n) as u32
        };
        proof {
            assert(mag as int == -(n as int));
        }
        let mut r: Vec<char> = Vec::new();
        r.push('-');
        let mut digits = format_u32(mag);
        r.append(&mut digits);
        proof {
            assert(r@ =~= seq!['-'] + spec_nat_chars((-(n as int)) as nat));
        }
        r
    }
}

/// The value of a string of digit characters, most significant first.
pub open spec fn spec_digits_val(s: Seq<char>) -> int
    decreases s.len(),
{
    if s.len() == 0 {
        0
    } else {
        spec_digits_val(s.drop_last()) * 10 + digit_val(s.last())
    }
}

/// Whether every character of `s` is a decimal digit.
pub open spec fn all_digits(s: Seq<char>) -> bool {
    forall|i: int| 0 <= i < s.len() ==> is_digit(#[trigger] s[i])
}

/// The value of a digit string is never negative.
proof fn lemma_digits_val_nonneg(s: Seq<char>)
    requires
        all_digits(s),
    ensures
        spec_digits_val(s) >= 0,
    decreases s.len(),
{
    if s.len() > 0 {
        assert(all_digits(s.drop_last()));
        lemma_digits_val_nonneg(s.drop_last());
        assert(is_digit(s.last()));
    }
}

/// The unsigned digit-string reading of `s`, `None` unless `s` is one or
/// more decimal digits.
pub open spec fn spec_parse_digits(s: Seq<char>) -> Option<int> {
    if s.len() > 0 && all_digits(s) {
        Some(spec_digits_val(s))
    } else {
        None
    }
}

/// How Rust's `i32` string parsing reads `s`: an optional sign, then one or
/// more digits, with the value required to fit in `i32`.
pub open spec fn spec_parse_i32(s: Seq<char>) -> Option<int> {
    let (sign, digits): (int, Seq<char>) = if s.len() > 0 && (s[0] == '+' || s[0] == '-') {
        ((if s[0] == '-' { -1int } else { 1int }), s.skip(1))
    } else {
        (1int, s)
    };
    match spec_parse_digits(digits) {
        Some(v) => if i32::MIN <= sign * v <= i32::MAX {
            Some(sign * v)
        } else {
            None
        },
        None => None,
    }
}

/// How Rust's `u32` string parsing reads `s`: an optional `+`, then one or
/// more digits, with the value required to fit in `u32`.
pub open spec fn spec_parse_u32(s: Seq<char>) -> Option<int> {
    let digits: Seq<char> = if s.len() > 0 && s[0] == '+' {
        s.skip(1)
    } else {
        s
    };
    match spec_parse_digits(digits) {
        Some(v) => if v <= u32::MAX {
            Some(v)
        } else {
            None
        },
        None => None,
    }
}

/// Reads the digit characters `v[from..]`. Returns `None` if that range is
/// empty or holds a non-digit; otherwise reports the value, capped: a `true`
/// flag means the value is at least `5_000_000_000` and only then may the
/// reported number differ from the true value.
fn scan_digits(v: &Vec<char>, from: usize) -> (r: Option<(bool, u64)>)
    requires
        from <= v@.len(),
    ensures
        match r {
            None => spec_parse_digits(v@.skip(from as int)) is None,
            Some((big, acc)) => {
                &&& spec_parse_digits(v@.skip(from as int)) matches Some(val)
                &&& (!big ==> acc == val && val < 5_000_000_000)
                &&& (big ==> val >= 5_000_000_000)
            },
        },
{
    let ghost digits = v@.skip(from as int);
    if from >= v.len() {
        return None;
    }
    let mut i: usize = from;
    let mut acc: u64 = 0;
    let mut big: bool = false;
    while i < v.len()
        invariant
            from <= i <= v@.len(),
            from < v@.len(),
            digits == v@.skip(from as int),
            all_digits(digits.take(i - from)),
            !big ==> acc == spec_digits_val(digits.take(i - from)) && acc < 5_000_000_000,
            big ==> spec_digits_val(digits.take(i - from)) >= 5_000_000_000,
        decreases v@.len() - i,
    {
        let c = v[i];
        proof {
            assert(digits[i - from] == v@[i as int]);
        }
        let d_opt: Option<u64> = match c {
            '0' => Some(0),
            '1' => Some(1),
            '2' => Some(2),
            '3' => Some(3),
            '4' => Some(4),
            '5' => Some(5),
            '6' => Some(6),
            '7' => Some(7),
            '8' => Some(8),
            '9' => Some(9),
            _ => None,
        };
        let d: u64 = match d_opt {
            Some(d) => d,
            None => {
                proof {
                    assert(!is_digit(digits[i - from]));
                }
                return None;
            },
        };
        proof {
            assert(digits.take(i - from + 1).drop_last() =~= digits.take(i - from));
            assert(digits.take(i - from + 1).last() == digits[i - from]);
            assert(is_digit(digits[i - from]));
            assert(digit_val(digits[i - from]) == d as int);
        }
        if big {
            proof {
                lemma_digits_val_nonneg(digits.take(i - from));
                assert(spec_digits_val(digits.take(i - from + 1)) >= spec_digits_val(
                    digits.take(i - from),
                ));
            }
        } else {
            acc = acc * 10 + d;
            if acc >= 5_000_000_000 {
                big = true;
            }
        }
        i = i + 1;
    }
    proof {
        assert(digits.take(v@.len() - from) =~= digits);
    }
    Some((big, acc))
}

/// Parses `v` exactly as Rust's `i32` string parsing does; total, returning
/// `None` on any malformed or out-of-range input.
pub fn parse_i32(v: &Vec<char>) -> (r: Option<i32>)
    ensures
        match r {
            Some(x) => spec_parse_i32(v@) == Some(x as int),
            None => spec_parse_i32(v@) is None,
        },
{
    let mut from: usize = 0;
    let mut negative: bool = false;
    if v.len() > 0 && (v[0] == '+' || v[0] == '-') {
        from = 1;
        negative = v[0] == '-';
    }
    let ghost sign: int = if negative {
        -1int
    } else {
        1int
    };
    proof {
        if from == 0 {
            assert(v@.skip(0) =~= v@);
        }
    }
    match scan_digits(v, from) {
        None => None,
        Some((big, acc)) => {
            proof {
                let val = spec_parse_digits(v@.skip(from as int))->Some_0;
                if big {
                    assert(sign * val > i32::MAX || sign * val < i32::MIN);
                } else {
                    assert(sign * val == sign * (acc as int));
                }
            }
            if big {
                None
            } else if negative {
                if acc <= 2147483648u64 {
                    let x: i32 = if acc == 2147483648u64 {
                        i32::MIN
                    } else {
                        -((acc as u32) as i32)
                    };
                    proof {
                        assert(x as int == -1 * (acc as int));
                    }
                    Some(x)
                } else {
                    None
                }
            } else {
                if acc <= 2147483647u64 {
                    Some(acc as i32)
                } else {
                    None
                }
            }
        },
    }
}

/// Parses `v` exactly as Rust's `u32` string parsing does; total, returning
/// `None` on any malformed or out-of-range input.
pub fn parse_u32(v: &Vec<char>) -> (r: Option<u32>)
    ensures
        match r {
            Some(x) => spec_parse_u32(v@) == Some(x as int),
            None => spec_parse_u32(v@) is None,
        },
{
    let mut from: usize = 0;
    if v.len() > 0 && v[0] == '+' {
        from = 1;
    }
    proof {
        if from == 0 {
            assert(v@.skip(0) =~= v@);
        }
    }
    match scan_digits(v, from) {
        None => None,
        Some((big, acc)) => {
            if big {
                None
            } else if acc <= 4294967295u64 {
                Some(acc as u32)
            } else {
                None
            }
        },
    }
}

} // verus!
