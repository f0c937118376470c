//! Reading the numeric part of a fee written as `<number> <symbol>`.
//!
//! The number is the first whitespace-separated token of the text. It is
//! read as a non-negative decimal: one or more digits, optionally followed by
//! a point and one or more digits, with at most eighteen digits in all. Its
//! value is kept exactly, as a mantissa and a count of fraction digits.

use vstd::prelude::*;
use vstd::string::*;

verus! {

/// The most digits a fee amount may have.
pub const MAX_FEE_DIGITS: u64 = 18;

/// Unicode white space, as `char::is_whitespace` defines it.
pub open spec fn is_space(c: char) -> bool {
    let u = c as u32;
    u == 0x20 || (0x09 <= u && u <= 0x0d) || u == 0x85 || u == 0xa0 || u == 0x1680 || (0x2000
        <= u && u <= 0x200a) || u == 0x2028 || u == 0x2029 || u == 0x202f || u == 0x205f || u
        == 0x3000
}

pub open spec fn is_digit(c: char) -> bool {
    '0' <= c && c <= '9'
}

pub open spec fn digit_value(c: char) -> nat {
    (c as u32 - '0' as u32) as nat
}

pub open spec fn pow10(k: nat) -> nat
    decreases k,
{
    if k == 0 {
        1
    } else {
        10 * pow10((k - 1) as nat)
    }
}

/// The first index at or after `i` that does not hold white space.
pub open spec fn skip_spaces(s: Seq<char>, i: int) -> int
    decreases s.len() - i,
{
    if 0 <= i < s.len() && is_space(s[i]) {
        skip_spaces(s, i + 1)
    } else {
        i
    }
}

/// The first index at or after `i` that holds white space, or the length.
pub open spec fn skip_word(s: Seq<char>, i: int) -> int
    decreases s.len() - i,
{
    if 0 <= i < s.len() && !is_space(s[i]) {
        skip_word(s, i + 1)
    } else {
        i
    }
}

/// The first whitespace-separated token of `s` (empty when there is none).
pub open spec fn leading_token(s: Seq<char>) -> Seq<char> {
    let b = skip_spaces(s, 0);
    s.subrange(b, skip_word(s, b))
}

/// One character of a decimal read left to right. The state holds the
/// mantissa so far, the digits read, the digits read after the point, and
/// whether the point was read.
pub open spec fn scan_step(st: (nat, nat, nat, bool), c: char) -> Option<(nat, nat, nat, bool)> {
    if is_digit(c) {
        if st.1 >= MAX_FEE_DIGITS {
            None
        } else {
            Some(
                (
                    st.0 * 10 + digit_value(c),
                    st.1 + 1,
                    if st.3 {
                        st.2 + 1
                    } else {
                        st.2
                    },
                    st.3,
                ),
            )
        }
    } else if c == '.' && !st.3 && st.1 > 0 {
        Some((st.0, st.1, st.2, true))
    } else {
        None
    }
}

pub open spec fn scan_decimal(t: Seq<char>) -> Option<(nat, nat, nat, bool)>
    decreases t.len(),
{
    if t.len() == 0 {
        Some((0, 0, 0, false))
    } else {
        match scan_decimal(t.drop_last()) {
            Some(st) => scan_step(st, t.last()),
            None => None,
        }
    }
}

/// The value of a decimal token as (mantissa, fraction digits): the number
/// is `mantissa / 10^fraction_digits`. `None` when `t` is not a decimal.
pub open spec fn decimal_value(t: Seq<char>) -> Option<(nat, nat)> {
    match scan_decimal(t) {
        Some(st) => if st.1 > 0 && (!st.3 || st.2 > 0) {
            Some((st.0, st.2))
        } else {
            None
        },
        None => None,
    }
}

/// The numeric magnitude of a fee text, if its leading token is a decimal.
pub open spec fn fee_magnitude(fee: Seq<char>) -> Option<(nat, nat)> {
    decimal_value(leading_token(fee))
}

/// How many fee units (one unit is `10^-18`) make one whole.
pub const UNITS_PER_WHOLE: u128 = 1_000_000_000_000_000_000;

/// A decimal (mantissa, fraction digits) as a whole number of fee units.
pub open spec fn units_of(v: (nat, nat)) -> nat {
    v.0 * pow10((MAX_FEE_DIGITS - v.1) as nat)
}

/// The fee of a text in units, if its leading token is a decimal.
pub open spec fn fee_units(fee: Seq<char>) -> Option<nat> {
    match fee_magnitude(fee) {
        Some(v) => Some(units_of(v)),
        None => None,
    }
}

pub proof fn lemma_pow10_pos(k: nat)
    ensures
        pow10(k) >= 1,
    decreases k,
{
    if k > 0 {
        lemma_pow10_pos((k - 1) as nat);
    }
}

pub proof fn lemma_pow10_mono(j: nat, k: nat)
    requires
        j <= k,
    ensures
        1 <= pow10(j) <= pow10(k),
    decreases k,
{
    lemma_pow10_pos(j);
    if j < k {
        lemma_pow10_mono(j, (k - 1) as nat);
    }
}

proof fn lemma_pow10_18()
    ensures
        pow10(18) == 1_000_000_000_000_000_000,
{
    reveal_with_fuel(pow10, 19);
}

/// Scanning states that can arise stay within the digit bound.
proof fn lemma_scan_bounds(t: Seq<char>)
    ensures
        scan_decimal(t) matches Some(st) ==> st.1 <= MAX_FEE_DIGITS && st.0 < pow10(st.1)
            && st.2 <= st.1,
    decreases t.len(),
{
    if t.len() > 0 {
        lemma_scan_bounds(t.drop_last());
        if let Some(st) = scan_decimal(t.drop_last()) {
            if is_digit(t.last()) && st.1 < MAX_FEE_DIGITS {
                let d = digit_value(t.last());
                assert(st.0 * 10 + d < pow10(st.1 + 1)) by (nonlinear_arith)
                    requires
                        st.0 < pow10(st.1),
                        d < 10,
                        pow10(st.1 + 1) == 10 * pow10(st.1),
                ;
            }
        }
    }
}

fn is_space_char(c: char) -> (r: bool)
    ensures
        r == is_space(c),
{
    let u = c as u32;
    u == 0x20 || (0x09 <= u && u <= 0x0d) || u == 0x85 || u == 0xa0 || u == 0x1680 || (0x2000
        <= u && u <= 0x200a) || u == 0x2028 || u == 0x2029 || u == 0x202f || u == 0x205f || u
        == 0x3000
}

/// `10^k` for the fraction lengths that a fee can have.
pub fn pow10_exec(k: u32) -> (r: u64)
    requires
        k <= MAX_FEE_DIGITS,
    ensures
        r == pow10(k as nat),
{
    let mut r: u64 = 1;
    let mut i: u32 = 0;
    while i < k
        invariant
            i <= k <= MAX_FEE_DIGITS,
            r == pow10(i as nat),
        decreases k - i,
    {
        proof {
            lemma_pow10_mono((i + 1) as nat, 18);
            lemma_pow10_18();
        }
        r = r * 10;
        i += 1;
    }
    r
}

/// Reads the numeric magnitude of a fee text such as `0.05 USDC`.
pub fn parse_fee(fee: &str) -> (r: Option<(u64, u32)>)
    ensures
        match fee_magnitude(fee@) {
            Some(v) => r matches Some(x) && x.0 as nat == v.0 && x.1 as nat == v.1 && v.1
                <= MAX_FEE_DIGITS && v.0 < 1_000_000_000_000_000_000nat,
            None => r is None,
        },
{
    let ghost s = fee@;
    let n = fee.unicode_len();
    let mut b: usize = 0;
    while b < n
        invariant
            s == fee@,
            n == s.len(),
            b <= n,
            skip_spaces(s, b as int) == skip_spaces(s, 0),
        ensures
            skip_spaces(s, 0) == b,
        decreases n - b,
    {
        if !is_space_char(fee.get_char(b)) {
            break;
        }
        b += 1;
    }
    assert(skip_spaces(s, 0) == b);
    let mut e: usize = b;
    let mut m: u64 = 0;
    let mut digits: u32 = 0;
    let mut frac: u32 = 0;
    let mut dot = false;
    let mut ok = true;
    while e < n
        invariant
            s == fee@,
            n == s.len(),
            b <= e <= n,
            digits <= MAX_FEE_DIGITS,
            skip_word(s, e as int) == skip_word(s, b as int),
            ok ==> scan_decimal(s.subrange(b as int, e as int)) == Some(
                (m as nat, digits as nat, frac as nat, dot),
            ),
            !ok ==> scan_decimal(s.subrange(b as int, e as int)) is None,
        ensures
            skip_word(s, b as int) == e,
        decreases n - e,
    {
        let c = fee.get_char(e);
        if is_space_char(c) {
            break;
        }
        let ghost pre = s.subrange(b as int, e as int);
        assert(s.subrange(b as int, e + 1).drop_last() =~= pre);
        assert(s.subrange(b as int, e + 1).last() == c);
        if ok {
            proof {
                lemma_scan_bounds(pre);
            }
            if '0' <= c && c <= '9' {
                if digits >= 18 {
                    ok = false;
                } else {
                    proof {
                        lemma_pow10_mono(digits as nat, 17);
                        reveal_with_fuel(pow10, 18);
                    }
                    m = m * 10 + (c as u32 - '0' as u32) as u64;
                    digits += 1;
                    if dot {
                        frac += 1;
                    }
                }
            } else if c == '.' && !dot && digits > 0 {
                dot = true;
            } else {
                ok = false;
            }
        }
        e += 1;
    }
    assert(skip_word(s, b as int) == e);
    assert(leading_token(s) == s.subrange(b as int, e as int));
    proof {
        lemma_scan_bounds(s.subrange(b as int, e as int));
        lemma_pow10_mono(digits as nat, 18);
        lemma_pow10_18();
    }
    if ok && digits > 0 && (!dot || frac > 0) {
        Some((m, frac))
    } else {
        None
    }
}

/// Reads the fee of a text such as `0.05 USDC` in units of `10^-18`.
pub fn parse_fee_units(fee: &str) -> (r: Option<u128>)
    ensures
        match fee_units(fee@) {
            Some(u) => r == Some(u as u128) && u < 1_000_000_000_000_000_000_000_000_000_000_000_000nat,
            None => r is None,
        },
{
    match parse_fee(fee) {
        Some((m, k)) => {
            let p = pow10_exec(18 - k);
            proof {
                lemma_pow10_mono((18 - k) as nat, 18);
                lemma_pow10_18();
                assert((m as nat) * (p as nat) < 1_000_000_000_000_000_000nat * 1_000_000_000_000_000_000nat)
                    by (nonlinear_arith)
                    requires
                        m < 1_000_000_000_000_000_000nat,
                        p <= 1_000_000_000_000_000_000nat,
                ;
            }
            Some(m as u128 * p as u128)
        },
        None => None,
    }
}

} // verus!
