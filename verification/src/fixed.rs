//! The 16.16 fixed-point scalar model.
//!
//! A scalar is an `i64` counting units of `1/SCALE`; `SCALE` itself stands
//! for `1.0`. Lattice coordinates live in `u64` space (the two's-complement
//! image of the signed coordinate), where frequency scaling is performed
//! modulo `2^64`: a coordinate that runs off one end of the lattice wraps to
//! the other, which keeps every query total and exactly specified.

use vstd::prelude::*;
use vstd::arithmetic::div_mod::{
    lemma_div_is_ordered, lemma_div_multiples_vanish, lemma_div_pos_is_pos,
    lemma_mod_add_multiples_vanish, lemma_small_mod,
};
use vstd::arithmetic::mul::{lemma_mul_inequality, lemma_mul_nonnegative, lemma_mul_unary_negation};

verus! {

/// One whole unit: the fixed-point representation of `1.0`.
pub const SCALE: i64 = 65536;

/// The fixed-point representation of `0.5`.
pub const HALF: i64 = 32768;

/// Reduce a mathematical integer into the value range of `u64`.
pub open spec fn wrap64(x: int) -> u64 {
    (x % 0x1_0000_0000_0000_0000int) as u64
}

/// Fixed-point product of two lattice quantities, reduced modulo `2^64`:
/// `(a * b / SCALE) mod 2^64`.
pub open spec fn fmul_lat(a: u64, b: u64) -> u64 {
    wrap64((a * b) / (SCALE as int))
}

/// Computes `fmul_lat` exactly: the product is formed in 128 bits, divided
/// by `SCALE`, and reduced modulo `2^64`.
pub fn fmul_lat_exec(a: u64, b: u64) -> (r: u64)
    ensures
        r == fmul_lat(a, b),
{
    proof {
        vstd::arithmetic::mul::lemma_mul_upper_bound(
            a as int,
            0xFFFF_FFFF_FFFF_FFFFint,
            b as int,
            0xFFFF_FFFF_FFFF_FFFFint,
        );
    }
    let p: u128 = (a as u128) * (b as u128);
    let q: u128 = p / 65536u128;
    (q % 0x1_0000_0000_0000_0000u128) as u64
}

/// The two's-complement image of a signed coordinate in lattice space.
pub open spec fn lat_of(x: i64) -> u64 {
    wrap64(x as int)
}

/// Computes `lat_of` exactly.
pub fn to_lattice(x: i64) -> (r: u64)
    ensures
        r == lat_of(x),
{
    if x >= 0 {
        proof {
            lemma_small_mod(x as nat, 0x1_0000_0000_0000_0000nat);
        }
        x as u64
    } else {
        let y: i128 = (x as i128) + 0x1_0000_0000_0000_0000i128;
        proof {
            lemma_mod_add_multiples_vanish(x as int, 0x1_0000_0000_0000_0000int);
            lemma_small_mod((x + 0x1_0000_0000_0000_0000int) as nat, 0x1_0000_0000_0000_0000nat);
        }
        y as u64
    }
}

/// Signed fixed-point product, rounded toward zero: `a * b / SCALE`.
pub open spec fn mul_down(a: int, b: int) -> int {
    let p = a * b;
    if p >= 0 {
        p / (SCALE as int)
    } else {
        -((-p) / (SCALE as int))
    }
}

/// Computes `mul_down` exactly for products that fit comfortably in range.
pub fn fp_mul(a: i64, b: i64) -> (r: i64)
    requires
        -0x4000_0000_0000_0000 <= a * b <= 0x4000_0000_0000_0000,
    ensures
        r == mul_down(a as int, b as int),
{
    let p: i128 = (a as i128) * (b as i128);
    if p >= 0 {
        let q: u128 = (p as u128) / 65536u128;
        proof {
            lemma_div_is_ordered(p as int, 0x4000_0000_0000_0000int, 65536int);
        }
        q as i64
    } else {
        let q: u128 = ((-p) as u128) / 65536u128;
        proof {
            lemma_div_is_ordered(-p as int, 0x4000_0000_0000_0000int, 65536int);
        }
        -(q as i64)
    }
}

/// Clamp a scalar into the unit interval `[0, SCALE]`.
pub open spec fn clamp_unit_spec(x: int) -> int {
    if x < 0 {
        0
    } else if x > SCALE {
        SCALE as int
    } else {
        x
    }
}

/// Computes `clamp_unit_spec` exactly.
pub fn clamp_unit(x: i64) -> (r: i64)
    ensures
        r == clamp_unit_spec(x as int),
        0 <= r <= SCALE,
{
    if x < 0 {
        0
    } else if x > SCALE {
        SCALE
    } else {
        x
    }
}

/// A product with a factor from `[-SCALE, SCALE]` cannot grow past the other
/// factor: `|mul_down(v, w)| <= w` whenever `|v| <= SCALE` and `w >= 0`.
pub proof fn lemma_mul_down_scaled(v: int, w: int)
    requires
        -(SCALE as int) <= v <= SCALE as int,
        0 <= w,
    ensures
        -w <= mul_down(v, w) <= w,
{
    let s = SCALE as int;
    assert(v * w <= s * w && -(s * w) <= v * w) by {
        lemma_mul_inequality(v, s, w);
        lemma_mul_inequality(-s, v, w);
        lemma_mul_unary_negation(s, w);
    }
    lemma_mul_nonnegative(s, w);
    if v * w >= 0 {
        lemma_div_is_ordered(v * w, s * w, s);
        lemma_div_multiples_vanish(w, s);
        lemma_div_pos_is_pos(v * w, s);
    } else {
        lemma_div_is_ordered(-(v * w), s * w, s);
        lemma_div_multiples_vanish(w, s);
        lemma_div_pos_is_pos(-(v * w), s);
    }
}

/// A product of two nonnegative unit-interval scalars stays in the unit
/// interval and below either factor.
pub proof fn lemma_mul_down_unit(a: int, b: int)
    requires
        0 <= a <= SCALE as int,
        0 <= b <= SCALE as int,
    ensures
        0 <= mul_down(a, b) <= b,
        mul_down(a, b) <= a,
{
    lemma_mul_down_scaled(a, b);
    lemma_mul_nonnegative(a, b);
    lemma_div_pos_is_pos(a * b, SCALE as int);
    assert(mul_down(a, b) == mul_down(b, a)) by {
        assert(a * b == b * a);
    }
    lemma_mul_down_scaled(b, a);
}

/// Scaling by `HALF` is halving with rounding toward zero: twice the
/// result never strays more than one unit-in-the-last-place from the
/// argument.
pub proof fn lemma_mul_down_half_close(x: int)
    ensures
        x - 1 <= 2 * mul_down(x, HALF as int) <= x + 1,
{
    let s = SCALE as int;
    let h = HALF as int;
    let p = x * h;
    assert(2 * p == s * x) by (nonlinear_arith)
        requires
            p == x * h,
            s == 2 * h,
    ;
    if p >= 0 {
        let q = p / s;
        let rem = p % s;
        vstd::arithmetic::div_mod::lemma_fundamental_div_mod(p, s);
        vstd::arithmetic::div_mod::lemma_mod_division_less_than_divisor(p, s);
        assert(s * x == 2 * (s * q) + 2 * rem);
        assert(2 * (s * q) == s * (2 * q)) by (nonlinear_arith);
        assert(s * (x - 2 * q) == 2 * rem) by (nonlinear_arith)
            requires
                s * x == s * (2 * q) + 2 * rem,
        ;
    } else {
        let pp = -p;
        let q = pp / s;
        let rem = pp % s;
        vstd::arithmetic::div_mod::lemma_fundamental_div_mod(pp, s);
        vstd::arithmetic::div_mod::lemma_mod_division_less_than_divisor(pp, s);
        assert(s * x == -(2 * (s * q)) - 2 * rem);
        assert(2 * (s * q) == s * (2 * q)) by (nonlinear_arith);
        assert(s * (x + 2 * q) == -(2 * rem)) by (nonlinear_arith)
            requires
                s * x == -(s * (2 * q)) - 2 * rem,
        ;
    }
}

/// `mul_down` maps the square `[-SCALE, SCALE]^2` into `[-SCALE, SCALE]`.
pub proof fn lemma_mul_down_range(a: int, b: int)
    requires
        -(SCALE as int) <= a <= SCALE as int,
        -(SCALE as int) <= b <= SCALE as int,
    ensures
        -(SCALE as int) <= mul_down(a, b) <= SCALE as int,
{
    if b >= 0 {
        lemma_mul_down_scaled(a, b);
    } else {
        assert(a * b == (-a) * (-b)) by {
            lemma_mul_unary_negation(a, b);
            lemma_mul_unary_negation(-a, b);
        }
        lemma_mul_down_scaled(-a, -b);
    }
}

} // verus!
