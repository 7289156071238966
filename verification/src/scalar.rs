//! A verified ground scalar: `u64` with wrapping (modulo 2^64) arithmetic.
//!
//! Wrapping integers form a commutative ring, so they satisfy the algebraic
//! laws of the numeric capability exactly, with no rounding. The square
//! root is the integer (floor) square root, and division by zero yields
//! zero, matching the library's view that division by zero is
//! scalar-defined behaviour.

use vstd::arithmetic::div_mod::lemma_add_mod_noop;
use vstd::arithmetic::div_mod::lemma_div_decreases;
use vstd::arithmetic::div_mod::lemma_mod_multiples_vanish;
use vstd::arithmetic::div_mod::lemma_mul_mod_noop_left;
use vstd::arithmetic::div_mod::lemma_small_mod;
use vstd::prelude::*;
use vstd::wrapping::u64_specs;

use crate::traits::Num;
use crate::traits::Sqrt;
use crate::traits::Text;

verus! {

/// The floor of the square root of `n`: the largest `r` with `r * r <= n`.
pub open spec fn sqrt_floor(n: nat) -> nat
    decreases n,
{
    if n == 0 {
        0
    } else {
        let r = sqrt_floor((n - 1) as nat);
        if (r + 1) * (r + 1) <= n {
            r + 1
        } else {
            r
        }
    }
}

/// `sqrt_floor(n)` squares to at most `n`, and the next integer up squares
/// to more than `n`.
pub proof fn lemma_sqrt_floor_bounds(n: nat)
    ensures
        sqrt_floor(n) * sqrt_floor(n) <= n,
        n < (sqrt_floor(n) + 1) * (sqrt_floor(n) + 1),
    decreases n,
{
    if n == 0 {
        assert(sqrt_floor(0) == 0);
        assert(sqrt_floor(n) * sqrt_floor(n) <= n);
        assert(n < (sqrt_floor(n) + 1) * (sqrt_floor(n) + 1)) by (nonlinear_arith)
            requires
                n == 0,
                sqrt_floor(n) == 0,
        ;
    } else {
        lemma_sqrt_floor_bounds((n - 1) as nat);
        let r = sqrt_floor((n - 1) as nat);
        assert(r * r <= n - 1 && (n - 1) < (r + 1) * (r + 1));
        if (r + 1) * (r + 1) <= n {
            assert(sqrt_floor(n) == r + 1);
            assert(n == (r + 1) * (r + 1));
            assert((r + 1) * (r + 1) < (r + 2) * (r + 2)) by (nonlinear_arith);
            assert(sqrt_floor(n) * sqrt_floor(n) <= n);
            assert(n < (sqrt_floor(n) + 1) * (sqrt_floor(n) + 1));
        } else {
            assert(sqrt_floor(n) == r);
            assert(sqrt_floor(n) * sqrt_floor(n) <= n);
            assert(n < (sqrt_floor(n) + 1) * (sqrt_floor(n) + 1));
        }
    }
}

/// Any `r` whose square bracket contains `n` is the floor square root.
pub proof fn lemma_sqrt_floor_unique(n: nat, r: nat)
    requires
        r * r <= n,
        n < (r + 1) * (r + 1),
    ensures
        r == sqrt_floor(n),
{
    let s = sqrt_floor(n);
    lemma_sqrt_floor_bounds(n);
    if r < s {
        assert((r + 1) * (r + 1) <= s * s) by (nonlinear_arith)
            requires
                r + 1 <= s,
        ;
        assert(false);
    }
    if s < r {
        assert((s + 1) * (s + 1) <= r * r) by (nonlinear_arith)
            requires
                s + 1 <= r,
        ;
        assert(false);
    }
}

impl Sqrt for u64 {
    /// The integer (floor) square root.
    open spec fn sqrt_spec(self) -> u64 {
        sqrt_floor(self as nat) as u64
    }

    /// Binary search for the floor square root.
    fn sqrt(self) -> (r: u64) {
        let n = self;
        let mut lo: u64 = 0;
        let mut hi: u64 = 4294967296;
        while lo + 1 < hi
            invariant
                lo < hi <= 4294967296,
                (lo as int) * (lo as int) <= n as int,
                (n as int) < (hi as int) * (hi as int),
            decreases hi - lo,
        {
            let mid = lo + (hi - lo) / 2;
            proof {
                assert((mid as int) * (mid as int) <= 0x10000000000000000) by (nonlinear_arith)
                    requires
                        0 <= mid <= 0x100000000,
                ;
            }
            let sq = (mid as u128) * (mid as u128);
            if sq <= n as u128 {
                lo = mid;
            } else {
                hi = mid;
            }
        }
        proof {
            lemma_sqrt_floor_unique(n as nat, lo as nat);
        }
        lo
    }
}

impl Num for u64 {
    open spec fn zero_spec() -> u64 {
        0u64
    }

    /// Addition modulo 2^64.
    open spec fn add_spec(self, other: u64) -> u64 {
        u64_specs::wrapping_add(self, other)
    }

    /// Subtraction modulo 2^64.
    open spec fn sub_spec(self, other: u64) -> u64 {
        u64_specs::wrapping_sub(self, other)
    }

    /// Multiplication modulo 2^64.
    open spec fn mul_spec(self, other: u64) -> u64 {
        u64_specs::wrapping_mul(self, other)
    }

    /// Truncating division, with division by zero yielding zero.
    open spec fn div_spec(self, other: u64) -> u64 {
        if other == 0 {
            0u64
        } else {
            self / other
        }
    }

    fn zero() -> (r: u64) {
        0
    }

    fn add(self, other: u64) -> (r: u64) {
        self.wrapping_add(other)
    }

    fn sub(self, other: u64) -> (r: u64) {
        self.wrapping_sub(other)
    }

    fn mul(self, other: u64) -> (r: u64) {
        self.wrapping_mul(other)
    }

    fn div(self, other: u64) -> (r: u64) {
        if other == 0 {
            0
        } else {
            self / other
        }
    }

    proof fn mul_commutes(a: u64, b: u64) {
        assert(a as nat * b as nat == b as nat * a as nat) by (nonlinear_arith);
    }

    proof fn sqrt_of_zero() {
        assert(sqrt_floor(0) == 0);
    }
}

/// Reduction of an integer into the value range of `u64`, modulo 2^64.
pub open spec fn wrap64(n: int) -> u64 {
    (n % 0x10000000000000000) as u64
}

/// Wrapping addition of `u64` values is addition modulo 2^64.
pub proof fn lemma_add_spec_is_mod(a: u64, b: u64)
    ensures
        a.add_spec(b) == wrap64(a + b),
{
    let m: int = 0x10000000000000000;
    if a + b <= u64::MAX {
        lemma_small_mod((a + b) as nat, m as nat);
    } else {
        lemma_mod_multiples_vanish(1, a + b - m, m);
        lemma_small_mod((a + b - m) as nat, m as nat);
    }
}

/// Wrapping subtraction of `u64` values is subtraction modulo 2^64.
pub proof fn lemma_sub_spec_is_mod(a: u64, b: u64)
    ensures
        a.sub_spec(b) == wrap64(a - b),
{
    let m: int = 0x10000000000000000;
    if a >= b {
        lemma_small_mod((a - b) as nat, m as nat);
    } else {
        lemma_mod_multiples_vanish(-1, a - b + m, m);
        lemma_small_mod((a - b + m) as nat, m as nat);
    }
}

/// Adding a `u64` value to itself is multiplying it by two, wrapping.
pub proof fn lemma_u64_double(a: u64)
    ensures
        a.add_spec(a) == a.mul_spec(2u64),
{
    lemma_add_spec_is_mod(a, a);
    assert(a as int + a as int == a as int * 2) by (nonlinear_arith);
}

/// Multiplying a wrapped sum by a scalar is the wrapped sum of the scaled
/// terms: the ring of `u64` values modulo 2^64 is distributive.
pub proof fn lemma_u64_mul_distributes(a: u64, b: u64, s: u64)
    ensures
        a.add_spec(b).mul_spec(s) == a.mul_spec(s).add_spec(b.mul_spec(s)),
{
    let m: int = 0x10000000000000000;
    lemma_add_spec_is_mod(a, b);
    lemma_mul_mod_noop_left(a + b, s as int, m);
    assert((a + b) * s == a * s + b * s) by (nonlinear_arith);
    lemma_add_mod_noop(a * s, b * s, m);
    lemma_add_spec_is_mod(a.mul_spec(s), b.mul_spec(s));
}

/// Multiplying a wrapped difference by `u64::MAX` (which is -1 modulo
/// 2^64) turns the difference around.
pub proof fn lemma_u64_mul_neg_one(a: u64, b: u64)
    ensures
        a.sub_spec(b).mul_spec(u64::MAX) == b.sub_spec(a),
{
    let m: int = 0x10000000000000000;
    lemma_sub_spec_is_mod(a, b);
    lemma_sub_spec_is_mod(b, a);
    lemma_mul_mod_noop_left(a - b, m - 1, m);
    assert((a - b) * (m - 1) == m * (a - b) + (b - a)) by (nonlinear_arith);
    lemma_mod_multiples_vanish(a - b, b - a, m);
}

/// The character for one decimal digit.
pub open spec fn digit_char(d: nat) -> char {
    ((48 + d) as u8) as char
}

/// The decimal rendering of `n`, most significant digit first, with no
/// leading zeros (except for `n == 0` itself).
pub open spec fn decimal_digits(n: nat) -> Seq<char>
    decreases n,
{
    if n < 10 {
        seq![digit_char(n)]
    } else {
        decimal_digits(n / 10).push(digit_char(n % 10))
    }
}

/// Appends the decimal rendering of `n` to `out`.
fn push_decimal(n: u64, out: &mut Vec<char>)
    ensures
        final(out)@ == old(out)@ + decimal_digits(n as nat),
    decreases n,
{
    if n < 10 {
        out.push((48 + n as u8) as char);
        assert(out@ =~= old(out)@ + decimal_digits(n as nat));
    } else {
        proof {
            lemma_div_decreases(n as int, 10);
        }
        push_decimal(n / 10, out);
        out.push((48 + (n % 10) as u8) as char);
        assert(out@ =~= old(out)@ + decimal_digits(n as nat));
    }
}

impl Text for u64 {
    /// Decimal digits, most significant first.
    open spec fn text_spec(&self) -> Seq<char> {
        decimal_digits(*self as nat)
    }

    fn text(&self) -> (r: Vec<char>) {
        let mut out: Vec<char> = Vec::new();
        push_decimal(*self, &mut out);
        proof {
            assert(out@ =~= decimal_digits(*self as nat));
        }
        out
    }
}

} // verus!
