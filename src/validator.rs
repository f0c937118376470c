//! Field checks of a request: the recipient address and the amount.
//!
//! An address is `0x` followed by exactly forty hexadecimal digits of either
//! case. An amount is one or more ASCII digits, optionally followed by a
//! point and one or more digits; its value must be above zero and at most
//! `10^15`, compared exactly.

use vstd::prelude::*;
use vstd::string::*;
use crate::fee::{is_digit, digit_value};
use crate::text::join;
use crate::types::{ChainId, TransactionRequest};

verus! {

/// The largest amount accepted.
pub const MAX_AMOUNT: u64 = 1_000_000_000_000_000;

pub open spec fn is_hex_char(c: char) -> bool {
    ('0' <= c && c <= '9') || ('a' <= c && c <= 'f') || ('A' <= c && c <= 'F')
}

/// `0x` followed by exactly forty hexadecimal digits.
pub open spec fn is_address(s: Seq<char>) -> bool {
    &&& s.len() == 42
    &&& s[0] == '0'
    &&& s[1] == 'x'
    &&& forall|i: int| 2 <= i < 42 ==> is_hex_char(#[trigger] s[i])
}

pub open spec fn all_digits(s: Seq<char>) -> bool {
    forall|i: int| 0 <= i < s.len() ==> is_digit(#[trigger] s[i])
}

/// The index of the first `.` at or after `i`, or the length.
pub open spec fn dot_from(s: Seq<char>, i: int) -> int
    decreases s.len() - i,
{
    if i < 0 || i >= s.len() {
        s.len() as int
    } else if s[i] == '.' {
        i
    } else {
        dot_from(s, i + 1)
    }
}

/// The digits before the point (all of `s` when there is none).
pub open spec fn integer_part(s: Seq<char>) -> Seq<char> {
    s.subrange(0, dot_from(s, 0))
}

/// The digits after the point (empty when there is none).
pub open spec fn fraction_part(s: Seq<char>) -> Seq<char> {
    let p = dot_from(s, 0);
    if p < s.len() {
        s.subrange(p + 1, s.len() as int)
    } else {
        Seq::empty()
    }
}

/// Whether `s` is written as digits, optionally with a point and digits.
pub open spec fn amount_syntax(s: Seq<char>) -> bool {
    let p = dot_from(s, 0);
    &&& p >= 1
    &&& all_digits(integer_part(s))
    &&& (p == s.len() || (p + 1 < s.len() && all_digits(fraction_part(s))))
}

/// The value of a string of digits.
pub open spec fn digits_value(t: Seq<char>) -> nat
    decreases t.len(),
{
    if t.len() == 0 {
        0
    } else {
        digits_value(t.drop_last()) * 10 + digit_value(t.last())
    }
}

pub open spec fn has_nonzero_digit(t: Seq<char>) -> bool {
    exists|i: int| 0 <= i < t.len() && t[i] != '0' && is_digit(#[trigger] t[i])
}

/// Whether a well-formed amount is above zero.
pub open spec fn amount_positive(s: Seq<char>) -> bool {
    has_nonzero_digit(integer_part(s)) || has_nonzero_digit(fraction_part(s))
}

/// Whether a well-formed amount is above `10^15`.
pub open spec fn amount_too_large(s: Seq<char>) -> bool {
    let v = digits_value(integer_part(s));
    v > MAX_AMOUNT || (v == MAX_AMOUNT && has_nonzero_digit(fraction_part(s)))
}

pub open spec fn amount_valid(s: Seq<char>) -> bool {
    s.len() > 0 && amount_syntax(s) && amount_positive(s) && !amount_too_large(s)
}

/// The message of the first check that a malformed amount fails.
pub open spec fn amount_error(s: Seq<char>) -> Seq<char> {
    if s.len() == 0 {
        "amount cannot be empty"@
    } else if !amount_syntax(s) {
        "invalid amount format: "@ + s + " (expected positive number)"@
    } else if !amount_positive(s) {
        "amount must be positive"@
    } else {
        "amount exceeds maximum allowed value"@
    }
}

/// Checks an address: `0x` and forty hexadecimal digits.
pub fn validate_address(address: &str) -> (r: Result<(), String>)
    ensures
        r is Ok <==> is_address(address@),
        r is Err ==> r->Err_0@ == "invalid address format: "@ + address@,
{
    let n = address.unicode_len();
    let mut ok = n == 42 && address.get_char(0) == '0' && address.get_char(1) == 'x';
    if ok {
        let mut i: usize = 2;
        while i < 42
            invariant
                n == 42 == address@.len(),
                2 <= i <= 42,
                address@[0] == '0' && address@[1] == 'x',
                ok == (forall|j: int| 2 <= j < i ==> is_hex_char(#[trigger] address@[j])),
            decreases 42 - i,
        {
            let c = address.get_char(i);
            let h = ('0' <= c && c <= '9') || ('a' <= c && c <= 'f') || ('A' <= c && c <= 'F');
            ok = ok && h;
            i += 1;
        }
    }
    if ok {
        Ok(())
    } else {
        Err(join("invalid address format: ", address))
    }
}

fn find_dot(s: &str, n: usize) -> (p: usize)
    requires
        n == s@.len(),
    ensures
        p == dot_from(s@, 0),
        p <= n,
        forall|j: int| 0 <= j < p ==> s@[j] != '.',
        p < n ==> s@[p as int] == '.',
{
    let mut i: usize = 0;
    while i < n
        invariant
            n == s@.len(),
            i <= n,
            dot_from(s@, i as int) == dot_from(s@, 0),
            forall|j: int| 0 <= j < i ==> s@[j] != '.',
        ensures
            i == dot_from(s@, 0),
            i <= n,
            forall|j: int| 0 <= j < i ==> s@[j] != '.',
            i < n ==> s@[i as int] == '.',
        decreases n - i,
    {
        if s.get_char(i) == '.' {
            break;
        }
        i += 1;
    }
    i
}

/// Scans `s[from..to]`: whether every character is a digit, and whether one
/// of them is not zero.
fn scan_digits(s: &str, from: usize, to: usize) -> (r: (bool, bool))
    requires
        from <= to <= s@.len(),
    ensures
        r.0 == all_digits(s@.subrange(from as int, to as int)),
        r.0 ==> (r.1 == has_nonzero_digit(s@.subrange(from as int, to as int))),
{
    let ghost t = s@.subrange(from as int, to as int);
    let mut i: usize = from;
    let mut digits = true;
    let mut nonzero = false;
    while i < to
        invariant
            from <= i <= to <= s@.len(),
            t == s@.subrange(from as int, to as int),
            digits == (forall|j: int| 0 <= j < i - from ==> is_digit(#[trigger] t[j])),
            digits ==> (nonzero == (exists|j: int| 0 <= j < i - from && t[j] != '0' && is_digit(#[trigger] t[j]))),
        decreases to - i,
    {
        let c = s.get_char(i);
        assert(t[i - from] == c);
        if '0' <= c && c <= '9' {
            if c != '0' {
                nonzero = true;
            }
        } else {
            digits = false;
        }
        i += 1;
    }
    (digits, nonzero)
}

/// The value of the digits `s[0..to]`, capped at `10^15 + 1`.
fn capped_value(s: &str, to: usize) -> (r: u64)
    requires
        to <= s@.len(),
        all_digits(s@.subrange(0, to as int)),
    ensures
        r == if digits_value(s@.subrange(0, to as int)) > MAX_AMOUNT {
            MAX_AMOUNT as nat + 1
        } else {
            digits_value(s@.subrange(0, to as int))
        },
{
    let mut v: u64 = 0;
    let mut i: usize = 0;
    while i < to
        invariant
            i <= to <= s@.len(),
            all_digits(s@.subrange(0, to as int)),
            v == if digits_value(s@.subrange(0, i as int)) > MAX_AMOUNT {
                MAX_AMOUNT as nat + 1
            } else {
                digits_value(s@.subrange(0, i as int))
            },
        decreases to - i,
    {
        let c = s.get_char(i);
        assert(s@.subrange(0, to as int)[i as int] == c);
        assert(s@.subrange(0, i + 1).drop_last() =~= s@.subrange(0, i as int));
        let d = (c as u32 - '0' as u32) as u64;
        if v > MAX_AMOUNT {
            v = MAX_AMOUNT + 1;
        } else {
            let w = v * 10 + d;
            if w > MAX_AMOUNT {
                v = MAX_AMOUNT + 1;
            } else {
                v = w;
            }
        }
        i += 1;
    }
    v
}

/// Checks an amount: well-formed, above zero and at most `10^15`.
pub fn validate_amount(amount: &str) -> (r: Result<(), String>)
    ensures
        r is Ok <==> amount_valid(amount@),
        r is Err ==> r->Err_0@ == amount_error(amount@),
{
    let n = amount.unicode_len();
    if n == 0 {
        return Err(String::from_str("amount cannot be empty"));
    }
    let p = find_dot(amount, n);
    let ghost s = amount@;
    let (int_digits, int_nonzero) = scan_digits(amount, 0, p);
    let (frac_ok, frac_nonzero) = if p < n {
        if p + 1 < n {
            scan_digits(amount, p + 1, n)
        } else {
            (false, false)
        }
    } else {
        (true, false)
    };
    proof {
        if p == n {
            assert(fraction_part(s) =~= Seq::<char>::empty());
        }
    }
    if !(p >= 1 && int_digits && frac_ok) {
        let m = join("invalid amount format: ", amount);
        return Err(m.concat(" (expected positive number)"));
    }
    if !(int_nonzero || frac_nonzero) {
        return Err(String::from_str("amount must be positive"));
    }
    let v = capped_value(amount, p);
    if v > MAX_AMOUNT || (v == MAX_AMOUNT && frac_nonzero) {
        return Err(String::from_str("amount exceeds maximum allowed value"));
    }
    Ok(())
}

/// Every chain that can be named is supported.
pub fn validate_chain(chain: ChainId) -> (r: Result<(), String>)
    ensures
        r is Ok,
{
    match chain {
        ChainId::Ethereum | ChainId::Base | ChainId::Solana => Ok(()),
    }
}

/// Whether a request passes every field check.
pub open spec fn request_valid(req: TransactionRequest) -> bool {
    &&& amount_valid(req.amount@)
    &&& req.recipient matches Some(a) ==> is_address(a@)
}

/// The message of the first check that an invalid request fails.
pub open spec fn request_error(req: TransactionRequest) -> Seq<char> {
    if !amount_valid(req.amount@) {
        "amount validation failed: "@ + amount_error(req.amount@)
    } else {
        "recipient validation failed: "@ + "invalid address format: "@ + req.recipient->0@
    }
}

/// Checks every field of a request: the amount, the chains and the
/// recipient, in that order.
pub fn validate_transaction_request(req: &TransactionRequest) -> (r: Result<(), String>)
    ensures
        r is Ok <==> request_valid(*req),
        r is Err ==> r->Err_0@ == request_error(*req),
{
    match validate_amount(req.amount.as_str()) {
        Ok(()) => {},
        Err(e) => {
            return Err(join("amount validation failed: ", e.as_str()));
        },
    }
    let _ = validate_chain(req.source_chain);
    match req.target_chain {
        Some(t) => {
            let _ = validate_chain(t);
        },
        None => {},
    }
    match &req.recipient {
        Some(a) => match validate_address(a.as_str()) {
            Ok(()) => {},
            Err(e) => {
                return Err(join("recipient validation failed: ", e.as_str()));
            },
        },
        None => {},
    }
    Ok(())
}

} // verus!
