//! Exact fixed-point decimal arithmetic.
//!
//! All monetary and tax values in this core are `Dec` values: a mantissa and
//! a decimal scale, denoting `mantissa / 10^scale`. Multiplication adds the
//! scales and addition rescales to the larger scale, so the line-total
//! identities of a sale hold with exact decimal equality — no rounding ever
//! happens. Overflow of the 128-bit mantissa is ruled out by preconditions.

use vstd::prelude::*;

verus! {

/// An exact decimal number: `mantissa / 10^scale`.
///
/// `Dec { mantissa: 5000, scale: 2 }` is 50.00; `Dec { mantissa: 16, scale: 2 }`
/// is the tax fraction 0.16. Two `Dec` values denote the same number when
/// `dec_eq` holds of them; structural equality additionally fixes the scale.
#[derive(Clone, Copy, Debug, PartialEq, Eq, Structural)]
pub struct Dec {
    pub mantissa: i128,
    pub scale: u32,
}

/// `10^n`.
pub open spec fn pow10(n: nat) -> int
    decreases n,
{
    if n == 0 {
        1
    } else {
        10 * pow10((n - 1) as nat)
    }
}

pub proof fn lemma_pow10_pos(n: nat)
    ensures
        pow10(n) >= 1,
    decreases n,
{
    if n > 0 {
        lemma_pow10_pos((n - 1) as nat);
    }
}

pub proof fn lemma_pow10_add(a: nat, b: nat)
    ensures
        pow10(a + b) == pow10(a) * pow10(b),
    decreases a,
{
    if a == 0 {
    } else {
        lemma_pow10_add((a - 1) as nat, b);
        assert(pow10(a + b) == 10 * pow10((a + b - 1) as nat));
        assert(10 * (pow10((a - 1) as nat) * pow10(b)) == (10 * pow10((a - 1) as nat)) * pow10(b))
            by (nonlinear_arith);
    }
}

pub proof fn lemma_pow10_le(a: nat, b: nat)
    requires
        a <= b,
    ensures
        pow10(a) <= pow10(b),
{
    lemma_pow10_add(a, (b - a) as nat);
    lemma_pow10_pos(a);
    lemma_pow10_pos((b - a) as nat);
    assert(pow10(a) * 1 <= pow10(a) * pow10((b - a) as nat)) by (nonlinear_arith)
        requires
            pow10(a) >= 1,
            pow10((b - a) as nat) >= 1,
    ;
}

/// The mantissa `d` would have at the (not smaller) scale `s`.
pub open spec fn spec_scaled(d: Dec, s: nat) -> int {
    d.mantissa * pow10((s - d.scale) as nat)
}

/// The larger of the two scales: the common scale for comparison or addition.
pub open spec fn common_scale(a: Dec, b: Dec) -> nat {
    if a.scale >= b.scale {
        a.scale as nat
    } else {
        b.scale as nat
    }
}

/// Exact value equality of two decimals: equal mantissas once both are
/// brought to their common scale. `10.5` at scale 1 equals `10.50` at scale 2.
pub open spec fn dec_eq(a: Dec, b: Dec) -> bool {
    spec_scaled(a, common_scale(a, b)) == spec_scaled(b, common_scale(a, b))
}

/// Exact product: mantissas multiply, scales add. Meaningful whenever the
/// mantissa product fits in the mantissa type.
pub open spec fn spec_mul(a: Dec, b: Dec) -> Dec {
    Dec { mantissa: (a.mantissa * b.mantissa) as i128, scale: (a.scale + b.scale) as u32 }
}

/// `d` brought to scale `s >= d.scale`: the same number, written with more
/// decimal places. Meaningful whenever the rescaled mantissa fits.
pub open spec fn spec_rescale(d: Dec, s: nat) -> Dec {
    Dec { mantissa: spec_scaled(d, s) as i128, scale: s as u32 }
}

/// Both mantissas, brought to the common scale, fit in the mantissa type —
/// what comparing the two values takes.
pub open spec fn cmp_fits(a: Dec, b: Dec) -> bool {
    &&& common_scale(a, b) - a.scale <= 37
    &&& common_scale(a, b) - b.scale <= 37
    &&& i128::MIN <= spec_scaled(a, common_scale(a, b)) <= i128::MAX
    &&& i128::MIN <= spec_scaled(b, common_scale(a, b)) <= i128::MAX
}

/// The rescaled mantissas and their sum fit in the mantissa type — what
/// adding the two values takes.
pub open spec fn add_fits(a: Dec, b: Dec) -> bool {
    &&& cmp_fits(a, b)
    &&& i128::MIN <= spec_scaled(a, common_scale(a, b)) + spec_scaled(b, common_scale(a, b))
        <= i128::MAX
}

/// Exact sum at the common scale. Meaningful whenever the rescaled mantissas
/// and their sum fit in the mantissa type.
pub open spec fn spec_add(a: Dec, b: Dec) -> Dec {
    Dec {
        mantissa: (spec_scaled(a, common_scale(a, b)) + spec_scaled(b, common_scale(a, b))) as i128,
        scale: common_scale(a, b) as u32,
    }
}

impl Dec {
    /// A whole number as a decimal of scale zero.
    pub fn from_int(value: i128) -> (r: Dec)
        ensures
            r == (Dec { mantissa: value, scale: 0 }),
    {
        Dec { mantissa: value, scale: 0 }
    }

    /// `10^n` as a machine integer.
    pub fn pow10_exec(n: u32) -> (r: i128)
        requires
            n <= 37,
        ensures
            r == pow10(n as nat),
    {
        let mut r: i128 = 1;
        let mut i: u32 = 0;
        while i < n
            invariant
                i <= n <= 37,
                r == pow10(i as nat),
            decreases n - i,
        {
            proof {
                lemma_pow10_le((i + 1) as nat, 37);
                reveal_with_fuel(pow10, 38);
                assert(pow10(37nat) < i128::MAX);
            }
            r = r * 10;
            i = i + 1;
        }
        r
    }

    /// The same number at the (not smaller) scale `s`.
    pub fn rescale(self, s: u32) -> (r: Dec)
        requires
            self.scale <= s,
            s - self.scale <= 37,
            i128::MIN <= spec_scaled(self, s as nat) <= i128::MAX,
        ensures
            r == spec_rescale(self, s as nat),
            r.mantissa == spec_scaled(self, s as nat),
            r.scale == s,
            dec_eq(r, self),
    {
        let p = Dec::pow10_exec(s - self.scale);
        let r = Dec { mantissa: self.mantissa * p, scale: s };
        proof {
            lemma_pow10_pos((s - self.scale) as nat);
            assert(spec_scaled(r, s as nat) == r.mantissa);
            assert(common_scale(r, self) == s as nat);
        }
        r
    }

    /// Exact multiplication.
    pub fn mul(self, other: Dec) -> (r: Dec)
        requires
            i128::MIN <= self.mantissa * other.mantissa <= i128::MAX,
            self.scale + other.scale <= u32::MAX,
        ensures
            r == spec_mul(self, other),
            r.mantissa == self.mantissa * other.mantissa,
            r.scale == self.scale + other.scale,
    {
        Dec { mantissa: self.mantissa * other.mantissa, scale: self.scale + other.scale }
    }

    /// Exact addition at the common scale.
    pub fn add(self, other: Dec) -> (r: Dec)
        requires
            common_scale(self, other) - self.scale <= 37,
            common_scale(self, other) - other.scale <= 37,
            i128::MIN <= spec_scaled(self, common_scale(self, other)) <= i128::MAX,
            i128::MIN <= spec_scaled(other, common_scale(self, other)) <= i128::MAX,
            i128::MIN <= spec_scaled(self, common_scale(self, other)) + spec_scaled(
                other,
                common_scale(self, other),
            ) <= i128::MAX,
        ensures
            r == spec_add(self, other),
            r.mantissa == spec_scaled(self, common_scale(self, other)) + spec_scaled(
                other,
                common_scale(self, other),
            ),
            r.scale == common_scale(self, other),
    {
        let s: u32 = if self.scale >= other.scale {
            self.scale
        } else {
            other.scale
        };
        let a = self.rescale(s);
        let b = other.rescale(s);
        Dec { mantissa: a.mantissa + b.mantissa, scale: s }
    }

    /// Whether the two decimals denote the same number.
    pub fn eq_value(self, other: Dec) -> (r: bool)
        requires
            common_scale(self, other) - self.scale <= 37,
            common_scale(self, other) - other.scale <= 37,
            i128::MIN <= spec_scaled(self, common_scale(self, other)) <= i128::MAX,
            i128::MIN <= spec_scaled(other, common_scale(self, other)) <= i128::MAX,
        ensures
            r == dec_eq(self, other),
    {
        let s: u32 = if self.scale >= other.scale {
            self.scale
        } else {
            other.scale
        };
        let a = self.rescale(s);
        let b = other.rescale(s);
        a.mantissa == b.mantissa
    }

    /// Exact addition that reports instead of overflowing: the sum whenever
    /// the rescaled mantissas and their sum fit, and nothing otherwise.
    pub fn checked_add(self, other: Dec) -> (r: Option<Dec>)
        ensures
            r is Some <==> add_fits(self, other),
            r is Some ==> r->0 == spec_add(self, other),
    {
        let s: u32 = if self.scale >= other.scale {
            self.scale
        } else {
            other.scale
        };
        if s - self.scale > 37 || s - other.scale > 37 {
            return None;
        }
        let pa = Dec::pow10_exec(s - self.scale);
        let pb = Dec::pow10_exec(s - other.scale);
        let ma = match self.mantissa.checked_mul(pa) {
            Some(v) => v,
            None => return None,
        };
        let mb = match other.mantissa.checked_mul(pb) {
            Some(v) => v,
            None => return None,
        };
        match ma.checked_add(mb) {
            Some(m) => Some(Dec { mantissa: m, scale: s }),
            None => None,
        }
    }

    /// Value comparison that reports instead of overflowing: whether the two
    /// decimals denote the same number, whenever both fit at the common
    /// scale, and nothing otherwise.
    pub fn checked_eq_value(self, other: Dec) -> (r: Option<bool>)
        ensures
            r is Some <==> cmp_fits(self, other),
            r is Some ==> r->0 == dec_eq(self, other),
    {
        let s: u32 = if self.scale >= other.scale {
            self.scale
        } else {
            other.scale
        };
        if s - self.scale > 37 || s - other.scale > 37 {
            return None;
        }
        let pa = Dec::pow10_exec(s - self.scale);
        let pb = Dec::pow10_exec(s - other.scale);
        let ma = match self.mantissa.checked_mul(pa) {
            Some(v) => v,
            None => return None,
        };
        let mb = match other.mantissa.checked_mul(pb) {
            Some(v) => v,
            None => return None,
        };
        Some(ma == mb)
    }

    /// Exact division by one hundred: the scale grows by two. This is the
    /// boundary conversion from a percentage to a fraction (16 -> 0.16).
    pub fn div_100(self) -> (r: Dec)
        requires
            self.scale + 2 <= u32::MAX,
        ensures
            r.mantissa == self.mantissa,
            r.scale == self.scale + 2,
            dec_eq(r, spec_mul(self, Dec { mantissa: 1, scale: 2 })),
    {
        let r = Dec { mantissa: self.mantissa, scale: self.scale + 2 };
        proof {
            let m = spec_mul(self, Dec { mantissa: 1, scale: 2 });
            assert(m.mantissa == self.mantissa);
            assert(common_scale(r, m) == r.scale as nat);
        }
        r
    }

    /// Exact multiplication by one hundred. This is the boundary conversion
    /// from a fraction to a percentage (0.16 -> 16).
    pub fn mul_100(self) -> (r: Dec)
        requires
            i128::MIN <= self.mantissa * 100 <= i128::MAX,
        ensures
            r.mantissa == self.mantissa * 100,
            r.scale == self.scale,
            dec_eq(r, spec_mul(self, Dec { mantissa: 100, scale: 0 })),
    {
        let r = Dec { mantissa: self.mantissa * 100, scale: self.scale };
        proof {
            let m = spec_mul(self, Dec { mantissa: 100, scale: 0 });
            assert(m.mantissa == self.mantissa * 100);
            assert(common_scale(r, m) == r.scale as nat);
        }
        r
    }
}

/// Bounds on the magnitudes of two factors bound their product.
pub proof fn lemma_abs_mul(x: int, y: int, bx: int, by: int)
    requires
        -bx <= x <= bx,
        -by <= y <= by,
        0 <= bx,
        0 <= by,
    ensures
        -(bx * by) <= x * y <= bx * by,
{
    assert(-(bx * by) <= x * y <= bx * by) by (nonlinear_arith)
        requires
            -bx <= x <= bx,
            -by <= y <= by,
            0 <= bx,
            0 <= by,
    ;
}

/// The one concrete power of ten the overflow bounds are stated against.
pub proof fn lemma_pow10_million()
    ensures
        pow10(6) == 1000000,
{
    reveal_with_fuel(pow10, 7);
}

} // verus!
