//! Text rules: ASCII case-insensitive comparison, reading a decimal integer,
//! and writing amounts of money and star ratings.
use vstd::prelude::*;

verus! {

/// A character with ASCII upper-case letters mapped to lower case, as a code
/// point.
pub open spec fn ascii_fold_char(c: char) -> u32 {
    if 'A' <= c && c <= 'Z' {
        (c as u32 + 32) as u32
    } else {
        c as u32
    }
}

pub open spec fn ascii_folded(s: Seq<char>) -> Seq<u32> {
    s.map_values(|c: char| ascii_fold_char(c))
}

/// Two texts that differ at most in the case of ASCII letters.
pub open spec fn eq_ignoring_ascii_case(a: Seq<char>, b: Seq<char>) -> bool {
    ascii_folded(a) == ascii_folded(b)
}

fn fold_char(c: char) -> (r: u32)
    ensures
        r == ascii_fold_char(c),
{
    if 'A' <= c && c <= 'Z' {
        c as u32 + 32
    } else {
        c as u32
    }
}

/// Whether `a` and `b` are equal once ASCII letters are put in one case.
pub fn eq_ignore_ascii_case(a: &str, b: &str) -> (r: bool)
    ensures
        r == eq_ignoring_ascii_case(a@, b@),
{
    let n: usize = a.unicode_len();
    let m: usize = b.unicode_len();
    if n != m {
        proof {
            assert(ascii_folded(a@).len() != ascii_folded(b@).len());
        }
        return false;
    }
    let mut i: usize = 0;
    while i < n
        invariant
            n == a@.len(),
            n == b@.len(),
            i <= n,
            forall|j: int| 0 <= j < i ==> ascii_fold_char(a@[j]) == ascii_fold_char(b@[j]),
        decreases n - i,
    {
        if fold_char(a.get_char(i)) != fold_char(b.get_char(i)) {
            proof {
                assert(ascii_folded(a@)[i as int] != ascii_folded(b@)[i as int]);
            }
            return false;
        }
        i = i + 1;
    }
    proof {
        assert(ascii_folded(a@) =~= ascii_folded(b@));
    }
    true
}

pub open spec fn is_digit(c: char) -> bool {
    '0' <= c && c <= '9'
}

pub open spec fn digit_value(c: char) -> int {
    c as int - '0' as int
}

pub open spec fn all_digits(s: Seq<char>) -> bool {
    forall|i: int| 0 <= i < s.len() ==> is_digit(#[trigger] s[i])
}

/// The number that a string of decimal digits writes.
pub open spec fn digits_value(s: Seq<char>) -> nat
    decreases s.len(),
{
    if s.len() == 0 {
        0
    } else {
        (digits_value(s.drop_last()) * 10 + digit_value(s.last())) as nat
    }
}

/// The integer that a text writes as an optional sign and one or more
/// decimal digits, of any size.
pub open spec fn integer_text_value(s: Seq<char>) -> Option<int> {
    if s.len() > 0 && (s[0] == '+' || s[0] == '-') {
        let rest = s.drop_first();
        if rest.len() > 0 && all_digits(rest) {
            if s[0] == '-' {
                Some(-digits_value(rest))
            } else {
                Some(digits_value(rest) as int)
            }
        } else {
            None
        }
    } else if s.len() > 0 && all_digits(s) {
        Some(digits_value(s) as int)
    } else {
        None
    }
}

/// What `str::parse::<i64>` gives: the written integer where it fits.
pub open spec fn i64_text_value(s: Seq<char>) -> Option<i64> {
    match integer_text_value(s) {
        Some(v) => if i64::MIN <= v <= i64::MAX {
            Some(v as i64)
        } else {
            None
        },
        None => None,
    }
}

/// One past the largest magnitude that an `i64` can take.
const SATURATION: u64 = 9223372036854775809;

proof fn lemma_saturated_step(v: nat, d: nat)
    requires
        d < 10,
    ensures
        (if v < SATURATION { v } else { SATURATION as nat }) * 10 + d >= SATURATION <==> v * 10
            + d >= SATURATION,
        v < SATURATION && v * 10 + d < SATURATION ==> v * 10 + d < SATURATION,
{
    if v >= SATURATION {
        assert(v * 10 + d >= SATURATION) by (nonlinear_arith)
            requires
                v >= SATURATION,
        ;
        assert(SATURATION as nat * 10 + d >= SATURATION) by (nonlinear_arith);
    }
}

/// Reads a decimal integer written with an optional `+` or `-` sign, as
/// `str::parse::<i64>` does: no spaces, at least one digit, and a value in
/// range.
pub fn parse_i64(s: &str) -> (r: Option<i64>)
    ensures
        r == i64_text_value(s@),
{
    let n: usize = s.unicode_len();
    if n == 0 {
        return None;
    }
    let first: char = s.get_char(0);
    let signed: bool = first == '+' || first == '-';
    let negative: bool = first == '-';
    let start: usize = if signed {
        1
    } else {
        0
    };
    if start == n {
        return None;
    }
    let ghost digits = s@.subrange(start as int, n as int);
    proof {
        if signed {
            assert(digits =~= s@.drop_first());
        } else {
            assert(digits =~= s@);
        }
    }
    // the value read so far, held at `SATURATION` once it reaches it
    let mut acc: u64 = 0;
    let mut i: usize = start;
    while i < n
        invariant
            start <= i <= n,
            n == s@.len(),
            start < n,
            digits == s@.subrange(start as int, n as int),
            signed == (s@[0] == '+' || s@[0] == '-'),
            signed ==> digits == s@.drop_first(),
            !signed ==> digits == s@,
            start == (if signed {
                1int
            } else {
                0int
            }),
            forall|j: int| start <= j < i ==> is_digit(#[trigger] s@[j]),
            acc <= SATURATION,
            acc == (if digits_value(s@.subrange(start as int, i as int)) < SATURATION {
                digits_value(s@.subrange(start as int, i as int))
            } else {
                SATURATION as nat
            }),
        decreases n - i,
    {
        let c: char = s.get_char(i);
        if !('0' <= c && c <= '9') {
            proof {
                assert(!is_digit(digits[i - start]));
                assert(!all_digits(digits));
            }
            return None;
        }
        let d: u64 = (c as u32 - '0' as u32) as u64;
        let ghost prev = s@.subrange(start as int, i as int);
        let ghost next = s@.subrange(start as int, i + 1);
        proof {
            assert(next.drop_last() =~= prev);
            assert(next.last() == c);
            lemma_saturated_step(digits_value(prev), d as nat);
        }
        if acc >= SATURATION / 10 + 1 {
            assert(acc * 10 + d >= SATURATION) by (nonlinear_arith)
                requires
                    acc >= SATURATION / 10 + 1,
            ;
            acc = SATURATION;
        } else {
            assert(acc * 10 + d < 10 * SATURATION) by (nonlinear_arith)
                requires
                    acc < SATURATION / 10 + 1,
                    d < 10,
            ;
            let v: u64 = acc * 10 + d;
            acc = if v >= SATURATION {
                SATURATION
            } else {
                v
            };
        }
        i = i + 1;
    }
    proof {
        assert(s@.subrange(start as int, n as int) == digits);
        assert(all_digits(digits));
    }
    if negative {
        if acc > 9223372036854775808 {
            None
        } else if acc == 9223372036854775808 {
            Some(i64::MIN)
        } else {
            Some(-(acc as i64))
        }
    } else {
        if acc > 9223372036854775807 {
            None
        } else {
            Some(acc as i64)
        }
    }
}

/// The character of a decimal digit.
pub open spec fn digit_char(d: nat) -> char {
    if d == 0 {
        '0'
    } else if d == 1 {
        '1'
    } else if d == 2 {
        '2'
    } else if d == 3 {
        '3'
    } else if d == 4 {
        '4'
    } else if d == 5 {
        '5'
    } else if d == 6 {
        '6'
    } else if d == 7 {
        '7'
    } else if d == 8 {
        '8'
    } else {
        '9'
    }
}

/// A natural number in decimal, without leading zeros.
pub open spec fn decimal_text(n: nat) -> Seq<char>
    decreases n,
{
    if n < 10 {
        seq![digit_char(n)]
    } else {
        decimal_text(n / 10) + seq![digit_char(n % 10)]
    }
}

/// An amount in minor units as major units and two-digit minor units:
/// `$299.00` for 29900.
pub open spec fn money_text(cents: nat) -> Seq<char> {
    let minor = cents % 100;
    let minor_text = if minor < 10 {
        seq!['0', digit_char(minor)]
    } else {
        decimal_text(minor)
    };
    seq!['$'] + decimal_text(cents / 100) + seq!['.'] + minor_text
}

/// The star sign, repeated `n` times.
pub open spec fn stars_text(n: nat) -> Seq<char> {
    Seq::new(n, |i: int| '\u{2605}')
}

fn digit_str(d: u64) -> (r: &'static str)
    requires
        d < 10,
    ensures
        r@ == seq![digit_char(d as nat)],
{
    if d == 0 {
        proof {
            reveal_strlit("0");
        }
        "0"
    } else if d == 1 {
        proof {
            reveal_strlit("1");
        }
        "1"
    } else if d == 2 {
        proof {
            reveal_strlit("2");
        }
        "2"
    } else if d == 3 {
        proof {
            reveal_strlit("3");
        }
        "3"
    } else if d == 4 {
        proof {
            reveal_strlit("4");
        }
        "4"
    } else if d == 5 {
        proof {
            reveal_strlit("5");
        }
        "5"
    } else if d == 6 {
        proof {
            reveal_strlit("6");
        }
        "6"
    } else if d == 7 {
        proof {
            reveal_strlit("7");
        }
        "7"
    } else if d == 8 {
        proof {
            reveal_strlit("8");
        }
        "8"
    } else {
        proof {
            reveal_strlit("9");
        }
        "9"
    }
}

/// Appends `n` in decimal.
pub fn push_decimal(out: &mut String, n: u64)
    ensures
        final(out)@ == old(out)@ + decimal_text(n as nat),
    decreases n,
{
    if n >= 10 {
        push_decimal(out, n / 10);
    }
    out.append(digit_str(n % 10));
    proof {
        if n >= 10 {
            assert(final(out)@ =~= old(out)@ + decimal_text(n as nat));
        }
    }
}

/// Writes an amount of minor units as money: `$` and the major units, a
/// point, and the minor units in two digits.
pub fn money_display(cents: i64) -> (r: String)
    requires
        cents >= 0,
    ensures
        r@ == money_text(cents as nat),
{
    let mut out: String = String::new();
    proof {
        reveal_strlit("$");
        reveal_strlit(".");
        reveal_strlit("0");
    }
    out.append("$");
    push_decimal(&mut out, (cents / 100) as u64);
    out.append(".");
    let minor: u64 = (cents % 100) as u64;
    if minor < 10 {
        out.append("0");
        out.append(digit_str(minor));
    } else {
        push_decimal(&mut out, minor);
    }
    proof {
        assert(out@ =~= money_text(cents as nat));
    }
    out
}

/// The star sign `n` times.
pub fn stars(n: i64) -> (r: String)
    requires
        0 <= n,
    ensures
        r@ == stars_text(n as nat),
{
    let mut out: String = String::new();
    let mut i: i64 = 0;
    while i < n
        invariant
            0 <= i <= n,
            out@ =~= stars_text(i as nat),
        decreases n - i,
    {
        proof {
            reveal_strlit("\u{2605}");
        }
        out.append("\u{2605}");
        i = i + 1;
    }
    out
}

} // verus!
