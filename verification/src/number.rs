//! Exact non-negative fractions, the numeric values that the probes report.
use crate::text::{
    all_digits, decimal_value, find, find_from, parse_digits, slice_copy, unsigned_digits,
};
use vstd::prelude::*;

verus! {

/// The non-negative rational number `num / den`.
///
/// A value is well formed when `den > 0`. The fraction is kept as it was computed, not in
/// lowest terms.
#[derive(Clone, Copy, Debug, PartialEq, Eq, Structural)]
pub struct Ratio {
    pub num: u128,
    pub den: u128,
}

impl Ratio {
    pub open spec fn wf(self) -> bool {
        self.den > 0
    }

    pub fn new(num: u128, den: u128) -> (r: Ratio)
        requires
            den > 0,
        ensures
            r == (Ratio { num, den }),
            r.wf(),
    {
        Ratio { num, den }
    }

    pub fn zero() -> (r: Ratio)
        ensures
            r == (Ratio { num: 0, den: 1 }),
            r.wf(),
    {
        Ratio { num: 0, den: 1 }
    }

    pub fn whole(n: u64) -> (r: Ratio)
        ensures
            r == (Ratio { num: n as u128, den: 1 }),
            r.wf(),
    {
        Ratio { num: n as u128, den: 1 }
    }
}

/// `a + b`, or the greatest 64-bit number when the sum is greater.
pub open spec fn plus(a: u64, b: u64) -> u64 {
    if a + b <= u64::MAX {
        (a + b) as u64
    } else {
        u64::MAX
    }
}

/// `a - b`, or zero when `b` is greater.
pub open spec fn minus(a: u64, b: u64) -> u64 {
    if a >= b {
        (a - b) as u64
    } else {
        0
    }
}

/// Ten to the power `n`.
pub open spec fn pow10(n: nat) -> nat
    decreases n,
{
    if n == 0 {
        1
    } else {
        10 * pow10((n - 1) as nat)
    }
}

pub proof fn lemma_pow10_bounds(n: nat)
    requires
        n <= 18,
    ensures
        0 < pow10(n) <= 1_000_000_000_000_000_000,
{
    assert(pow10(0) == 1);
    assert(pow10(1) == 10);
    assert(pow10(2) == 100);
    assert(pow10(3) == 1_000);
    assert(pow10(4) == 10_000);
    assert(pow10(5) == 100_000);
    assert(pow10(6) == 1_000_000);
    assert(pow10(7) == 10_000_000);
    assert(pow10(8) == 100_000_000);
    assert(pow10(9) == 1_000_000_000);
    assert(pow10(10) == 10_000_000_000);
    assert(pow10(11) == 100_000_000_000);
    assert(pow10(12) == 1_000_000_000_000);
    assert(pow10(13) == 10_000_000_000_000);
    assert(pow10(14) == 100_000_000_000_000);
    assert(pow10(15) == 1_000_000_000_000_000);
    assert(pow10(16) == 10_000_000_000_000_000);
    assert(pow10(17) == 100_000_000_000_000_000);
    assert(pow10(18) == 1_000_000_000_000_000_000);
}

/// The most digits after the decimal point that a decimal number may have.
pub const MAX_FRACTION_DIGITS: usize = 18;

/// The digits before the decimal point of `d`.
pub open spec fn integer_digits(d: Seq<char>) -> Seq<char> {
    d.take(find_from(d, '.', 0))
}

/// The digits after the decimal point of `d`; none when there is no point.
pub open spec fn fraction_digits(d: Seq<char>) -> Seq<char> {
    let k = find_from(d, '.', 0);
    if 0 <= k < d.len() {
        d.skip(k + 1)
    } else {
        Seq::empty()
    }
}

/// The number that the decimal notation `s` writes: an optional `+`, digits, and optionally
/// a point and more digits, with at least one digit in all. Notations with more than 18
/// digits after the point, or whose digits without the point exceed 64 bits, are no numbers
/// here, and neither is anything else.
pub open spec fn decimal_of(s: Seq<char>) -> Option<Ratio> {
    let d = unsigned_digits(s);
    let whole = integer_digits(d);
    let fraction = fraction_digits(d);
    let digits = whole + fraction;
    if digits.len() > 0 && all_digits(digits) && fraction.len() <= 18 && decimal_value(digits)
        <= u64::MAX {
        Some(Ratio { num: decimal_value(digits) as u128, den: pow10(fraction.len()) as u128 })
    } else {
        None
    }
}

/// Whether `r` is within the range of what `parse_decimal` returns.
pub open spec fn is_parsed(r: Ratio) -> bool {
    r.num <= u64::MAX && 0 < r.den <= 1_000_000_000_000_000_000
}

fn power_of_ten(n: usize) -> (p: u128)
    requires
        n <= 18,
    ensures
        p == pow10(n as nat),
        0 < p <= 1_000_000_000_000_000_000,
{
    let mut p: u128 = 1;
    let mut i: usize = 0;
    while i < n
        invariant
            i <= n <= 18,
            p == pow10(i as nat),
            0 < p <= 1_000_000_000_000_000_000,
        decreases n - i,
    {
        proof {
            lemma_pow10_bounds((i + 1) as nat);
        }
        p = p * 10;
        i += 1;
    }
    p
}

fn joined(a: &Vec<char>, b: &Vec<char>) -> (out: Vec<char>)
    ensures
        out@ == a@ + b@,
{
    let mut out: Vec<char> = Vec::new();
    let mut i: usize = 0;
    while i < a.len()
        invariant
            i <= a.len(),
            out@ == a@.take(i as int),
        decreases a.len() - i,
    {
        out.push(a[i]);
        i += 1;
        assert(out@ =~= a@.take(i as int));
    }
    assert(a@.take(a.len() as int) =~= a@);
    let mut j: usize = 0;
    while j < b.len()
        invariant
            j <= b.len(),
            out@ == a@ + b@.take(j as int),
        decreases b.len() - j,
    {
        out.push(b[j]);
        j += 1;
        assert(out@ =~= a@ + b@.take(j as int));
    }
    assert(b@.take(b.len() as int) =~= b@);
    out
}

/// Reads a number in decimal notation.
pub fn parse_decimal(s: &[char]) -> (out: Option<Ratio>)
    ensures
        out == decimal_of(s@),
        out is Some ==> is_parsed(out->Some_0),
{
    let start: usize = if s.len() > 0 && s[0] == '+' {
        1
    } else {
        0
    };
    let d = slice_copy(s, start, s.len());
    assert(d@ =~= unsigned_digits(s@));
    let k = find(d.as_slice(), '.', 0);
    let whole = slice_copy(d.as_slice(), 0, k);
    let fraction = if k < d.len() {
        slice_copy(d.as_slice(), k + 1, d.len())
    } else {
        Vec::new()
    };
    assert(whole@ =~= integer_digits(d@));
    assert(fraction@ =~= fraction_digits(d@));
    if fraction.len() > MAX_FRACTION_DIGITS {
        return None;
    }
    let digits = joined(&whole, &fraction);
    match parse_digits(digits.as_slice()) {
        Some(n) => Some(Ratio { num: n as u128, den: power_of_ten(fraction.len()) }),
        None => None,
    }
}


} // verus!
