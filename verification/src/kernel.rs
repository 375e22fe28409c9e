//! Primitive coherent-noise kernels.
//!
//! Each kernel hashes the four lattice corners surrounding a point and
//! blends them bilinearly, yielding a deterministic scalar in
//! `[-SCALE, SCALE]`. The two kernels (`Perlin` and `OpenSimplex`) share
//! the evaluation scheme and differ in their mixing constants, so their
//! fields are unrelated. A kernel is a pure function of its seed and the
//! queried lattice point: `sample_lat` returns exactly `perlin_at`
//! (respectively `opensimplex_at`) of the seed and the point.

use vstd::prelude::*;
use vstd::arithmetic::div_mod::{
    lemma_div_is_ordered, lemma_div_multiples_vanish, lemma_div_pos_is_pos,
};
use vstd::arithmetic::mul::{lemma_mul_nonnegative, lemma_mul_upper_bound};

use crate::fixed::{wrap64, SCALE};

verus! {

/// Mixing constants of the `Perlin` kernel.
pub const PK1: u64 = 0x9E37_79B9_7F4A_7C15;
pub const PK2: u64 = 0xC2B2_AE3D_27D4_EB4F;
pub const PK3: u64 = 0x1656_67B1_9E37_79F9;

/// Mixing constants of the `OpenSimplex` kernel.
pub const OK1: u64 = 0xBF58_476D_1CE4_E5B9;
pub const OK2: u64 = 0x94D0_49BB_1331_11EB;
pub const OK3: u64 = 0xD6E8_FEB8_6659_FD93;

/// A corner value never exceeds this bound (twice `SCALE`).
pub const CORNER_MAX: u64 = 131072;

/// Product of two `u64` values modulo `2^64`.
pub open spec fn wmul64(a: u64, b: u64) -> u64 {
    wrap64(a * b)
}

/// Sum of two `u64` values modulo `2^64`.
pub open spec fn wadd64(a: u64, b: u64) -> u64 {
    wrap64(a + b)
}

/// Computes `wmul64` exactly.
pub fn wmul64_exec(a: u64, b: u64) -> (r: u64)
    ensures
        r == wmul64(a, b),
{
    proof {
        lemma_mul_upper_bound(a as int, 0xFFFF_FFFF_FFFF_FFFFint, b as int, 0xFFFF_FFFF_FFFF_FFFFint);
    }
    let p: u128 = (a as u128) * (b as u128);
    (p % 0x1_0000_0000_0000_0000u128) as u64
}

/// Computes `wadd64` exactly.
pub fn wadd64_exec(a: u64, b: u64) -> (r: u64)
    ensures
        r == wadd64(a, b),
{
    let p: u128 = (a as u128) + (b as u128);
    (p % 0x1_0000_0000_0000_0000u128) as u64
}

/// The corner hash: a few rounds of modular multiply, add, and xor-shift
/// over the seed and the two lattice cell indices.
pub open spec fn wmix(seed: u32, x: u64, y: u64, k1: u64, k2: u64, k3: u64) -> u64 {
    let h0 = wadd64(wadd64(wmul64(x, k1), wmul64(y, k2)), wmul64(seed as u64, k3));
    let h1 = wmul64(h0 ^ (h0 >> 33u64), k1);
    h1 ^ (h1 >> 29u64)
}

/// Computes `wmix` exactly.
pub fn mix_hash(seed: u32, x: u64, y: u64, k1: u64, k2: u64, k3: u64) -> (r: u64)
    ensures
        r == wmix(seed, x, y, k1, k2, k3),
{
    let a = wmul64_exec(x, k1);
    let b = wmul64_exec(y, k2);
    let c = wmul64_exec(seed as u64, k3);
    let h0 = wadd64_exec(wadd64_exec(a, b), c);
    let h1 = wmul64_exec(h0 ^ (h0 >> 33u64), k1);
    h1 ^ (h1 >> 29u64)
}

/// The value hung on one lattice corner, in `[0, 2 * SCALE]`.
pub open spec fn corner(seed: u32, cx: u64, cy: u64, k1: u64, k2: u64, k3: u64) -> int {
    (wmix(seed, cx, cy, k1, k2, k3) as int) % 131073int
}

/// Computes `corner` exactly.
fn corner_exec(seed: u32, cx: u64, cy: u64, k1: u64, k2: u64, k3: u64) -> (r: u64)
    ensures
        r as int == corner(seed, cx, cy, k1, k2, k3),
        r <= CORNER_MAX,
{
    mix_hash(seed, cx, cy, k1, k2, k3) % 131073u64
}

/// Linear blend between `a` and `b` with blend factor `t / SCALE`.
pub open spec fn lerp_fix(a: int, b: int, t: int) -> int {
    (a * (SCALE - t) + b * t) / (SCALE as int)
}

/// A blend of two values from `[0, 2 * SCALE]` stays in `[0, 2 * SCALE]`.
pub proof fn lemma_lerp_range(a: int, b: int, t: int)
    requires
        0 <= a <= 2 * SCALE,
        0 <= b <= 2 * SCALE,
        0 <= t <= SCALE,
    ensures
        0 <= lerp_fix(a, b, t) <= 2 * SCALE,
{
    let s = SCALE as int;
    let num = a * (s - t) + b * t;
    assert(num <= 2 * s * s) by (nonlinear_arith)
        requires
            0 <= a <= 2 * s,
            0 <= b <= 2 * s,
            0 <= t <= s,
            num == a * (s - t) + b * t,
    ;
    assert(num >= 0) by {
        lemma_mul_nonnegative(a, s - t);
        lemma_mul_nonnegative(b, t);
    }
    lemma_div_pos_is_pos(num, s);
    lemma_div_is_ordered(num, 2 * s * s, s);
    lemma_div_multiples_vanish(2 * s, s);
}

/// Computes `lerp_fix` exactly on corner-sized operands.
fn lerp_exec(a: u64, b: u64, t: u64) -> (r: u64)
    requires
        a <= CORNER_MAX,
        b <= CORNER_MAX,
        t <= SCALE as u64,
    ensures
        r as int == lerp_fix(a as int, b as int, t as int),
        r <= CORNER_MAX,
{
    proof {
        lemma_mul_upper_bound(a as int, 131072int, (SCALE - t) as int, 65536int);
        lemma_mul_upper_bound(b as int, 131072int, t as int, 65536int);
        lemma_lerp_range(a as int, b as int, t as int);
    }
    (a * (65536u64 - t) + b * t) / 65536u64
}

/// The kernel's value at a lattice point: the four surrounding corner
/// hashes blended bilinearly, recentred to `[-SCALE, SCALE]`.
pub open spec fn cell_value(seed: u32, ux: u64, uy: u64, k1: u64, k2: u64, k3: u64) -> int {
    let cx = ux >> 16u64;
    let cy = uy >> 16u64;
    let fx = (ux & 0xFFFFu64) as int;
    let fy = (uy & 0xFFFFu64) as int;
    let c00 = corner(seed, cx, cy, k1, k2, k3);
    let c10 = corner(seed, wadd64(cx, 1), cy, k1, k2, k3);
    let c01 = corner(seed, cx, wadd64(cy, 1), k1, k2, k3);
    let c11 = corner(seed, wadd64(cx, 1), wadd64(cy, 1), k1, k2, k3);
    let top = lerp_fix(c00, c10, fx);
    let bot = lerp_fix(c01, c11, fx);
    lerp_fix(top, bot, fy) - SCALE
}

/// A kernel value always lies in `[-SCALE, SCALE]`.
pub proof fn lemma_cell_value_range(seed: u32, ux: u64, uy: u64, k1: u64, k2: u64, k3: u64)
    ensures
        -(SCALE as int) <= cell_value(seed, ux, uy, k1, k2, k3) <= SCALE as int,
{
    let cx = ux >> 16u64;
    let cy = uy >> 16u64;
    let fx = (ux & 0xFFFFu64) as int;
    let fy = (uy & 0xFFFFu64) as int;
    assert(ux & 0xFFFFu64 <= 0xFFFFu64) by (bit_vector);
    assert(uy & 0xFFFFu64 <= 0xFFFFu64) by (bit_vector);
    let c00 = corner(seed, cx, cy, k1, k2, k3);
    let c10 = corner(seed, wadd64(cx, 1), cy, k1, k2, k3);
    let c01 = corner(seed, cx, wadd64(cy, 1), k1, k2, k3);
    let c11 = corner(seed, wadd64(cx, 1), wadd64(cy, 1), k1, k2, k3);
    lemma_lerp_range(c00, c10, fx);
    lemma_lerp_range(c01, c11, fx);
    lemma_lerp_range(lerp_fix(c00, c10, fx), lerp_fix(c01, c11, fx), fy);
}

/// Computes `cell_value` exactly.
fn eval_cell(seed: u32, ux: u64, uy: u64, k1: u64, k2: u64, k3: u64) -> (r: i64)
    ensures
        r as int == cell_value(seed, ux, uy, k1, k2, k3),
        -SCALE <= r <= SCALE,
{
    let cx = ux >> 16u64;
    let cy = uy >> 16u64;
    let fx = ux & 0xFFFFu64;
    let fy = uy & 0xFFFFu64;
    assert(ux & 0xFFFFu64 <= 0xFFFFu64) by (bit_vector);
    assert(uy & 0xFFFFu64 <= 0xFFFFu64) by (bit_vector);
    let cx1 = wadd64_exec(cx, 1);
    let cy1 = wadd64_exec(cy, 1);
    let c00 = corner_exec(seed, cx, cy, k1, k2, k3);
    let c10 = corner_exec(seed, cx1, cy, k1, k2, k3);
    let c01 = corner_exec(seed, cx, cy1, k1, k2, k3);
    let c11 = corner_exec(seed, cx1, cy1, k1, k2, k3);
    let top = lerp_exec(c00, c10, fx);
    let bot = lerp_exec(c01, c11, fx);
    let v = lerp_exec(top, bot, fy);
    (v as i64) - SCALE
}

/// The `Perlin` kernel's value at a lattice point.
pub open spec fn perlin_at(seed: u32, ux: u64, uy: u64) -> int {
    cell_value(seed, ux, uy, PK1, PK2, PK3)
}

/// The `OpenSimplex` kernel's value at a lattice point.
pub open spec fn opensimplex_at(seed: u32, ux: u64, uy: u64) -> int {
    cell_value(seed, ux, uy, OK1, OK2, OK3)
}

/// A primitive coherent-noise generator: a pure function of its seed.
#[derive(Clone, Copy, Debug, PartialEq, Eq, Structural)]
pub struct Perlin {
    pub seed: u32,
}

impl Perlin {
    /// A `Perlin` generator with the given seed.
    pub fn new(seed: u32) -> (r: Self)
        ensures
            r.seed == seed,
    {
        Perlin { seed }
    }

    /// The generator's value at a lattice point.
    pub fn sample_lat(&self, ux: u64, uy: u64) -> (r: i64)
        ensures
            r as int == perlin_at(self.seed, ux, uy),
            -SCALE <= r <= SCALE,
    {
        eval_cell(self.seed, ux, uy, PK1, PK2, PK3)
    }
}

/// A second primitive generator, unrelated to `Perlin` in its output field.
#[derive(Clone, Copy, Debug, PartialEq, Eq, Structural)]
pub struct OpenSimplex {
    pub seed: u32,
}

impl OpenSimplex {
    /// An `OpenSimplex` generator with the default seed `0`.
    pub fn new() -> (r: Self)
        ensures
            r.seed == 0,
    {
        OpenSimplex { seed: 0 }
    }

    /// The generator's value at a lattice point.
    pub fn sample_lat(&self, ux: u64, uy: u64) -> (r: i64)
        ensures
            r as int == opensimplex_at(self.seed, ux, uy),
            -SCALE <= r <= SCALE,
    {
        eval_cell(self.seed, ux, uy, OK1, OK2, OK3)
    }
}

} // verus!
