//! The working precision: how many bits the arithmetic must carry so that the
//! requested decimal digits, and a few guard bits, fit.

use vstd::prelude::*;
use vstd::arithmetic::mul::{lemma_mul_inequality, lemma_mul_strict_inequality};
use vstd::arithmetic::power::*;
use crate::error::TauError;
use crate::log_bounds::{
    ABOVE_DEN, ABOVE_NUM, BELOW_DEN, BELOW_NUM, lemma_log_bounds_adjacent, lemma_log_lower,
    lemma_log_upper,
};

verus! {

/// The largest digit count that can be served: its working precision,
/// 4,294,967,293 bits, is the last that fits in 32 bits. One digit more
/// would take 2³² bits.
pub const MAX_DIGITS: usize = 1_292_913_982;

/// Bits added to the information content of the digits, to absorb the
/// rounding errors of the iteration.
pub const GUARD_BITS: u32 = 11;

/// The least number of bits `b` with `n <= 2^b`, that is ⌈log₂ n⌉ for `n >= 1`.
pub open spec fn ceil_log2(n: int) -> nat
    decreases n,
{
    if n <= 1 {
        0
    } else {
        1 + ceil_log2((n + 1) / 2)
    }
}

/// Bits needed to tell apart all values of `digits` decimal digits:
/// ⌈digits · log₂ 10⌉.
pub open spec fn information_bits(digits: nat) -> nat {
    ceil_log2(pow(10, digits))
}

/// The working precision for `digits` decimal digits.
pub open spec fn precision_bits(digits: nat) -> nat {
    information_bits(digits) + GUARD_BITS as nat
}

/// `ceil_log2(n)` bits cover `n`, and one bit fewer does not.
pub proof fn lemma_ceil_log2_bounds(n: int)
    requires
        1 <= n,
    ensures
        n <= pow(2, ceil_log2(n)),
        ceil_log2(n) > 0 ==> pow(2, (ceil_log2(n) - 1) as nat) < n,
    decreases n,
{
    reveal(pow);
    if n > 1 {
        let h = (n + 1) / 2;
        lemma_ceil_log2_bounds(h);
        let c = ceil_log2(h);
        assert(ceil_log2(n) == c + 1);
        assert(pow(2, (c + 1) as nat) == 2 * pow(2, c));
        if c > 0 {
            assert(pow(2, c) == 2 * pow(2, (c - 1) as nat));
        }
    }
}

/// The number of bits that covers `n` while one fewer does not is `ceil_log2(n)`.
pub proof fn lemma_ceil_log2_unique(n: int, b: nat)
    requires
        1 <= n,
        n <= pow(2, b),
        b > 0 ==> pow(2, (b - 1) as nat) < n,
    ensures
        b == ceil_log2(n),
{
    let c = ceil_log2(n);
    lemma_ceil_log2_bounds(n);
    if b < c {
        lemma_pow_increases(2, b, (c - 1) as nat);
    } else if c < b {
        lemma_pow_increases(2, c, (b - 1) as nat);
    }
}

/// A larger number never needs fewer bits.
pub proof fn lemma_ceil_log2_monotone(m: int, n: int)
    requires
        1 <= m <= n,
    ensures
        ceil_log2(m) <= ceil_log2(n),
{
    lemma_ceil_log2_bounds(m);
    lemma_ceil_log2_bounds(n);
    if ceil_log2(n) < ceil_log2(m) {
        lemma_pow_increases(2, ceil_log2(n), (ceil_log2(m) - 1) as nat);
    }
}

/// Powers keep the strict order of their non-negative bases.
proof fn lemma_pow_base_strict(a: int, b: int, e: nat)
    requires
        0 <= a < b,
        1 <= e,
    ensures
        pow(a, e) < pow(b, e),
    decreases e,
{
    reveal(pow);
    let x = pow(a, (e - 1) as nat);
    let y = pow(b, (e - 1) as nat);
    assert(pow(a, e) == a * x);
    assert(pow(b, e) == b * y);
    if e == 1 {
        assert(x == 1 && y == 1);
    } else {
        lemma_pow_base_strict(a, b, (e - 1) as nat);
        lemma_pow_positive(b, (e - 1) as nat);
        assert(0 <= x) by {
            if a == 0 {
                lemma0_pow((e - 1) as nat);
            } else {
                lemma_pow_positive(a, (e - 1) as nat);
            }
        }
        assert(a * x < b * y) by (nonlinear_arith)
            requires
                0 <= a < b,
                0 <= x < y,
        ;
    }
}

/// If the `e`-th powers are in strict order, so are the positive bases.
proof fn lemma_pow_base_strict_converse(a: int, b: int, e: nat)
    requires
        0 <= a,
        0 <= b,
        1 <= e,
        pow(a, e) < pow(b, e),
    ensures
        a < b,
{
    if b < a {
        lemma_pow_base_strict(b, a, e);
    }
}

/// Below the sum of the denominators of the two fractions that enclose
/// log₂ 10, the information content of `digits` digits is one more than the
/// integer part of `digits · BELOW_NUM / BELOW_DEN`.
pub proof fn lemma_information_bits(digits: nat, whole: nat)
    requires
        1 <= digits < BELOW_DEN + ABOVE_DEN,
        whole == digits * BELOW_NUM / (BELOW_DEN as int),
    ensures
        information_bits(digits) == whole + 1,
{
    let d = digits;
    let n = whole;
    let m = (whole + 1) as nat;
    let below_num = BELOW_NUM as nat;
    let below_den = BELOW_DEN as nat;
    let above_num = ABOVE_NUM as nat;
    let above_den = ABOVE_DEN as nat;
    let ten_d = pow(10, d);
    lemma_pow_positive(10, d);
    lemma_pow_positive(2, n);
    lemma_pow_positive(2, m);
    assert(n * below_den <= d * below_num < m * below_den);
    // the two bounds are neighbours, so no fraction with the denominator d
    // lies between them
    lemma_log_bounds_adjacent();
    assert(d * above_num <= m * above_den);
    assert(pow(2, n) < ten_d) by {
        // (2^n)^q = 2^(n q) <= 2^(d p) = (2^p)^d < (10^q)^d = (10^d)^q
        lemma_log_lower();
        lemma_pow_positive(2, below_num);
        lemma_pow_base_strict(pow(2, below_num), pow(10, below_den), d);
        lemma_pow_multiplies(2, below_num, d);
        lemma_pow_multiplies(10, below_den, d);
        lemma_pow_multiplies(10, d, below_den);
        lemma_pow_multiplies(2, n, below_den);
        assert(below_den * d == d * below_den) by (nonlinear_arith);
        lemma_pow_increases(2, n * below_den, below_num * d);
        lemma_pow_base_strict_converse(pow(2, n), ten_d, below_den);
    }
    assert(ten_d < pow(2, m)) by {
        // (10^d)^q = (10^q)^d < (2^p)^d = 2^(d p) <= 2^(m q) = (2^m)^q
        lemma_log_upper();
        lemma_pow_positive(10, above_den);
        lemma_pow_base_strict(pow(10, above_den), pow(2, above_num), d);
        lemma_pow_multiplies(10, above_den, d);
        lemma_pow_multiplies(2, above_num, d);
        lemma_pow_multiplies(10, d, above_den);
        lemma_pow_multiplies(2, m, above_den);
        assert(above_den * d == d * above_den) by (nonlinear_arith);
        lemma_pow_increases(2, above_num * d, m * above_den);
        lemma_pow_base_strict_converse(ten_d, pow(2, m), above_den);
    }
    lemma_ceil_log2_unique(ten_d, m);
}

/// More digits never need fewer bits.
pub proof fn lemma_precision_monotone(fewer: nat, more: nat)
    requires
        fewer <= more,
    ensures
        information_bits(fewer) <= information_bits(more),
        precision_bits(fewer) <= precision_bits(more),
{
    lemma_pow_positive(10, fewer);
    lemma_pow_increases(10, fewer, more);
    lemma_ceil_log2_monotone(pow(10, fewer), pow(10, more));
}

/// The working precision holds every value of `digits` decimal digits with
/// the guard bits to spare, and not one bit more than that takes.
pub proof fn lemma_precision_covers(digits: nat)
    ensures
        pow(10, digits) * pow(2, GUARD_BITS as nat) <= pow(2, precision_bits(digits)),
        digits > 0 ==> pow(2, (precision_bits(digits) - 1) as nat) < pow(10, digits) * pow(
            2,
            GUARD_BITS as nat,
        ),
{
    let bits = information_bits(digits);
    let guard = GUARD_BITS as nat;
    lemma_pow_positive(10, digits);
    lemma_pow_positive(2, guard);
    lemma_ceil_log2_bounds(pow(10, digits));
    lemma_pow_adds(2, bits, guard);
    lemma_mul_inequality(pow(10, digits), pow(2, bits), pow(2, guard));
    if digits > 0 {
        lemma_pow_strictly_increases(10, 0, digits);
        lemma_pow0(10);
        lemma_pow0(2);
        assert(bits > 0);
        lemma_pow_adds(2, (bits - 1) as nat, guard);
        lemma_mul_strict_inequality(pow(2, (bits - 1) as nat), pow(10, digits), pow(2, guard));
    }
}

/// The working precision fits in 32 bits for the digit counts up to
/// `MAX_DIGITS`, and for no other.
pub proof fn lemma_precision_fits(digits: nat)
    ensures
        precision_bits(digits) <= u32::MAX <==> digits <= MAX_DIGITS,
{
    if digits == 0 {
        lemma_pow0(10);
    } else if digits <= MAX_DIGITS {
        lemma_information_bits(digits, (digits * BELOW_NUM / (BELOW_DEN as int)) as nat);
    } else {
        let next = (MAX_DIGITS + 1) as nat;
        lemma_information_bits(next, (next * BELOW_NUM / (BELOW_DEN as int)) as nat);
        lemma_precision_monotone(next, digits);
    }
}

/// The working precision for `digits` decimal digits: ⌈digits · log₂ 10⌉
/// bits for the digits themselves, and the guard bits.
pub fn working_precision(digits: usize) -> (precision: u32)
    requires
        digits <= MAX_DIGITS,
    ensures
        precision == precision_bits(digits as nat),
{
    if digits == 0 {
        proof {
            lemma_pow0(10);
        }
        GUARD_BITS
    } else {
        let whole: u64 = (digits as u64) * BELOW_NUM / BELOW_DEN;
        proof {
            lemma_information_bits(digits as nat, whole as nat);
        }
        (whole + 1) as u32 + GUARD_BITS
    }
}

/// Accepts the digit counts that the working precision can serve.
pub fn check_digits(digits: usize) -> (checked: Result<(), TauError>)
    ensures
        digits <= MAX_DIGITS ==> checked == Ok::<(), TauError>(()),
        digits > MAX_DIGITS ==> checked == Err::<(), TauError>(TauError::DigitsOutOfRange),
{
    if digits <= MAX_DIGITS {
        Ok(())
    } else {
        Err(TauError::DigitsOutOfRange)
    }
}

} // verus!
