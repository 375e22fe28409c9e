//! RidgedMulti: sharp ridge-like features with exponential octave decay.
//!
//! Each octave's sample is folded into a ridge signal `1 - |v|`, clamped
//! into the unit interval, sharpened by the previous octave's ridge
//! signal, and accumulated under a precomputed per-octave weight
//! `lacunarity^(-i)` (clamped to at most one unit, which is inactive for
//! the usual lacunarity of at least `1.0`). The weight table depends only
//! on the octave count and the lacunarity, so it is cached in the
//! generator and rebuilt whenever either changes. The accumulated sum is
//! normalized by the total weight and recentred, so the output is proved
//! to stay within `[-1, 1]` (`[-SCALE, SCALE]` in fixed point).

use vstd::prelude::*;
use vstd::arithmetic::div_mod::{
    lemma_div_is_ordered, lemma_div_multiples_vanish, lemma_div_pos_is_pos,
};
use vstd::arithmetic::mul::{lemma_mul_inequality, lemma_mul_nonnegative};

use crate::accum::{freq_at, lemma_kernel_range, octave_sample, KernelKind};
use crate::fixed::{
    clamp_unit, clamp_unit_spec, fmul_lat_exec, fp_mul, lat_of, lemma_mul_down_unit, mul_down,
    to_lattice, wrap64, SCALE,
};
use crate::fractals::{
    build_sources, default_view, frequency_ok, lacunarity_ok, octave_seed, octaves_ok,
    persistence_ok, FractalView, MultiFractal, NoiseError, NoiseFn, Seedable, DEFAULT_FREQUENCY,
    DEFAULT_LACUNARITY, DEFAULT_OCTAVES, DEFAULT_PERSISTENCE, DEFAULT_SEED, MAX_OCTAVES,
};
use crate::kernel::Perlin;

verus! {

/// The weight of octave `i`: `lacunarity^(-i)`, computed by repeated
/// fixed-point division and clamped to at most one unit.
pub open spec fn ridged_weight_at(lacunarity: int, i: int) -> int
    decreases i,
{
    if i <= 0 {
        SCALE as int
    } else {
        let w = ridged_weight_at(lacunarity, i - 1);
        let nw = (w * (SCALE as int)) / lacunarity;
        if nw > SCALE {
            SCALE as int
        } else {
            nw
        }
    }
}

/// The total weight of the first `n` octaves.
pub open spec fn ridged_weight_sum(lacunarity: int, n: int) -> int
    decreases n,
{
    if n <= 0 {
        0
    } else {
        ridged_weight_sum(lacunarity, n - 1) + ridged_weight_at(lacunarity, n - 1)
    }
}

/// Octave weights stay in the unit interval.
pub proof fn lemma_ridged_weight_range(lacunarity: int, i: int)
    requires
        lacunarity >= 1,
    ensures
        0 <= ridged_weight_at(lacunarity, i) <= SCALE as int,
    decreases (if i <= 0 { 0int } else { i }),
{
    if i > 0 {
        lemma_ridged_weight_range(lacunarity, i - 1);
        let w = ridged_weight_at(lacunarity, i - 1);
        lemma_mul_nonnegative(w, SCALE as int);
        lemma_div_pos_is_pos(w * (SCALE as int), lacunarity);
    }
}

/// The total weight of `n >= 1` octaves lies between one unit (octave 0
/// always weighs one unit) and `n` units.
pub proof fn lemma_ridged_weight_sum_range(lacunarity: int, n: int)
    requires
        lacunarity >= 1,
    ensures
        0 <= ridged_weight_sum(lacunarity, n) <= (if n <= 0 { 0int } else { n }) * (SCALE as int),
        n >= 1 ==> ridged_weight_sum(lacunarity, n) >= SCALE as int,
    decreases (if n <= 0 { 0int } else { n }),
{
    if n > 0 {
        lemma_ridged_weight_sum_range(lacunarity, n - 1);
        lemma_ridged_weight_range(lacunarity, n - 1);
    }
}

/// The running pair (result, previous ridge signal) after `i` octaves.
/// The ridge signal of an octave is `1 - |sample|` clamped into the unit
/// interval; it sharpens the next octave multiplicatively, and its
/// weighted product with the octave weight is what accumulates.
pub open spec fn ridged_state(
    seed: u32,
    frequency: int,
    lacunarity: int,
    ux: u64,
    uy: u64,
    i: int,
) -> (int, int)
    decreases i,
{
    if i <= 0 {
        (0, SCALE as int)
    } else {
        let prev = ridged_state(seed, frequency, lacunarity, ux, uy, i - 1);
        let v = octave_sample(KernelKind::Perlin, seed, frequency, lacunarity, ux, uy, i - 1);
        let s0 = (SCALE as int) - (if v < 0 { -v } else { v });
        let s1 = clamp_unit_spec(s0);
        let s2 = mul_down(s1, prev.1);
        (prev.0 + mul_down(s2, ridged_weight_at(lacunarity, i - 1)), s1)
    }
}

/// The accumulated ridge sum is nonnegative and never exceeds the total
/// octave weight; the carried ridge signal stays in the unit interval.
pub proof fn lemma_ridged_state_range(
    seed: u32,
    frequency: int,
    lacunarity: int,
    ux: u64,
    uy: u64,
    i: int,
)
    requires
        lacunarity >= 1,
    ensures
        0 <= ridged_state(seed, frequency, lacunarity, ux, uy, i).0
            <= ridged_weight_sum(lacunarity, i),
        0 <= ridged_state(seed, frequency, lacunarity, ux, uy, i).1 <= SCALE as int,
    decreases (if i <= 0 { 0int } else { i }),
{
    if i > 0 {
        lemma_ridged_state_range(seed, frequency, lacunarity, ux, uy, i - 1);
        let prev = ridged_state(seed, frequency, lacunarity, ux, uy, i - 1);
        let f = freq_at(frequency, lacunarity, i - 1);
        lemma_kernel_range(
            KernelKind::Perlin,
            octave_seed(seed, (i - 1) as u32),
            crate::fixed::fmul_lat(ux, f),
            crate::fixed::fmul_lat(uy, f),
        );
        let v = octave_sample(KernelKind::Perlin, seed, frequency, lacunarity, ux, uy, i - 1);
        let s1 = clamp_unit_spec((SCALE as int) - (if v < 0 { -v } else { v }));
        lemma_mul_down_unit(s1, prev.1);
        let s2 = mul_down(s1, prev.1);
        lemma_ridged_weight_range(lacunarity, i - 1);
        lemma_mul_down_unit(s2, ridged_weight_at(lacunarity, i - 1));
    }
}

/// The value of a `RidgedMulti` field with configuration `v` at a
/// lattice point: the weighted ridge sum, normalized by the total weight
/// into the unit interval and recentred to `[-1, 1]`.
pub open spec fn ridgedmulti_value(v: FractalView, ux: u64, uy: u64) -> int {
    let total = ridged_state(v.seed, v.frequency, v.lacunarity, ux, uy, v.octaves).0;
    let wsum = ridged_weight_sum(v.lacunarity, v.octaves);
    2 * ((total * (SCALE as int)) / wsum) - (SCALE as int)
}

/// Build the cached weight table for `octaves` octaves and the given
/// lacunarity, returning the table and its total.
pub fn build_ridged_weights(octaves: usize, lacunarity: i64) -> (r: (Vec<i64>, i64))
    requires
        octaves <= MAX_OCTAVES,
        lacunarity > 0,
    ensures
        r.0.len() == octaves,
        forall|j: int| 0 <= j < octaves ==> r.0[j] as int == ridged_weight_at(
            lacunarity as int,
            j,
        ),
        r.1 as int == ridged_weight_sum(lacunarity as int, octaves as int),
        0 <= r.1 <= (octaves as int) * (SCALE as int),
{
    let mut weights: Vec<i64> = Vec::with_capacity(octaves);
    let mut total: i64 = 0;
    let mut w: i64 = SCALE;
    let mut i: usize = 0;
    while i < octaves
        invariant
            i <= octaves,
            octaves <= MAX_OCTAVES,
            lacunarity > 0,
            weights.len() == i,
            forall|j: int| 0 <= j < i ==> weights[j] as int == ridged_weight_at(
                lacunarity as int,
                j,
            ),
            w as int == ridged_weight_at(lacunarity as int, i as int),
            0 <= w <= SCALE,
            total as int == ridged_weight_sum(lacunarity as int, i as int),
            0 <= total <= (i as int) * (SCALE as int),
        decreases octaves - i,
    {
        weights.push(w);
        total = total + w;
        let nw_u: u64 = ((w as u64) * 65536u64) / (lacunarity as u64);
        let nw: i64 = if nw_u > 65536u64 {
            SCALE
        } else {
            nw_u as i64
        };
        w = nw;
        i = i + 1;
    }
    (weights, total)
}

/// A ridged multi-fractal noise field over a `Perlin` octave bank.
pub struct RidgedMulti {
    pub seed: u32,
    pub octaves: usize,
    pub frequency: i64,
    pub lacunarity: i64,
    pub persistence: i64,
    pub sources: Vec<Perlin>,
    pub weights: Vec<i64>,
    pub wsum: i64,
}

impl RidgedMulti {
    /// The generator's configuration.
    pub open spec fn cfg(&self) -> FractalView {
        FractalView {
            seed: self.seed,
            octaves: self.octaves as int,
            frequency: self.frequency as int,
            lacunarity: self.lacunarity as int,
            persistence: self.persistence as int,
        }
    }

    /// The octave bank is in step with the seed and the octave count.
    pub open spec fn bank_ok(&self) -> bool {
        &&& self.sources.len() == self.octaves
        &&& forall|i: int|
            0 <= i < self.octaves ==> self.sources[i].seed == octave_seed(self.seed, i as u32)
    }

    /// The cached weight table is in step with the octave count and the
    /// lacunarity.
    pub open spec fn weights_ok(&self) -> bool {
        &&& self.weights.len() == self.octaves
        &&& forall|j: int|
            0 <= j < self.octaves ==> self.weights[j] as int == ridged_weight_at(
                self.lacunarity as int,
                j,
            )
        &&& self.wsum as int == ridged_weight_sum(self.lacunarity as int, self.octaves as int)
    }

    /// Well-formedness: parameters in range, bank and weight table built.
    pub open spec fn wf(&self) -> bool {
        &&& octaves_ok(self.octaves)
        &&& frequency_ok(self.frequency)
        &&& lacunarity_ok(self.lacunarity)
        &&& persistence_ok(self.persistence)
        &&& self.bank_ok()
        &&& self.weights_ok()
    }

    /// A generator with the documented defaults, its bank and weight
    /// table built eagerly.
    pub fn new() -> (r: Self)
        ensures
            r.wf(),
            r.cfg() == default_view(),
    {
        let (weights, wsum) = build_ridged_weights(DEFAULT_OCTAVES, DEFAULT_LACUNARITY);
        RidgedMulti {
            seed: DEFAULT_SEED,
            octaves: DEFAULT_OCTAVES,
            frequency: DEFAULT_FREQUENCY,
            lacunarity: DEFAULT_LACUNARITY,
            persistence: DEFAULT_PERSISTENCE,
            sources: build_sources(DEFAULT_SEED, DEFAULT_OCTAVES),
            weights,
            wsum,
        }
    }
}

impl Seedable for RidgedMulti {
    open spec fn swf(&self) -> bool {
        self.wf()
    }

    open spec fn seed_view(&self) -> u32 {
        self.seed
    }

    open spec fn reseeded_ok(&self, r: &Self, seed: u32) -> bool {
        r.cfg() == self.cfg().with_seed(seed)
    }

    fn set_seed(self, seed: u32) -> (r: Self) {
        let sources = build_sources(seed, self.octaves);
        RidgedMulti { seed, sources, ..self }
    }

    fn seed(&self) -> (r: u32) {
        self.seed
    }
}

impl MultiFractal for RidgedMulti {
    open spec fn mwf(&self) -> bool {
        self.wf()
    }

    open spec fn mview(&self) -> FractalView {
        self.cfg()
    }

    fn set_octaves(self, octaves: usize) -> (r: Result<Self, NoiseError>) {
        if octaves < 1 || octaves > MAX_OCTAVES {
            Err(NoiseError::InvalidParameter)
        } else {
            let sources = build_sources(self.seed, octaves);
            let (weights, wsum) = build_ridged_weights(octaves, self.lacunarity);
            Ok(RidgedMulti { octaves, sources, weights, wsum, ..self })
        }
    }

    fn set_frequency(self, frequency: i64) -> (r: Result<Self, NoiseError>) {
        if frequency <= 0 {
            Err(NoiseError::InvalidParameter)
        } else {
            Ok(RidgedMulti { frequency, ..self })
        }
    }

    fn set_lacunarity(self, lacunarity: i64) -> (r: Result<Self, NoiseError>) {
        if lacunarity <= 0 {
            Err(NoiseError::InvalidParameter)
        } else {
            let (weights, wsum) = build_ridged_weights(self.octaves, lacunarity);
            Ok(RidgedMulti { lacunarity, weights, wsum, ..self })
        }
    }

    fn set_persistence(self, persistence: i64) -> (r: Result<Self, NoiseError>) {
        if persistence < -SCALE || persistence > SCALE {
            Err(NoiseError::InvalidParameter)
        } else {
            Ok(RidgedMulti { persistence, ..self })
        }
    }
}

impl NoiseFn for RidgedMulti {
    open spec fn nwf(&self) -> bool {
        self.wf()
    }

    open spec fn value_at(&self, point: [i64; 2]) -> int {
        ridgedmulti_value(self.cfg(), lat_of(point[0]), lat_of(point[1]))
    }

    /// The output is proved to stay within one unit of zero on either
    /// side: the ridged field's documented range is `[-1, 1]`.
    fn get(&self, point: [i64; 2]) -> (r: i64)
        ensures
            -SCALE <= r <= SCALE,
    {
        let ux = to_lattice(point[0]);
        let uy = to_lattice(point[1]);
        let mut total: i64 = 0;
        let mut prev: i64 = SCALE;
        let lac_u: u64 = self.lacunarity as u64;
        proof {
            vstd::arithmetic::div_mod::lemma_small_mod(
                self.frequency as nat,
                0x1_0000_0000_0000_0000nat,
            );
            vstd::arithmetic::div_mod::lemma_small_mod(
                self.lacunarity as nat,
                0x1_0000_0000_0000_0000nat,
            );
        }
        let mut freq: u64 = self.frequency as u64;
        let n = self.sources.len();
        let mut i: usize = 0;
        while i < n
            invariant
                i <= n,
                n == self.sources.len(),
                self.wf(),
                lac_u == wrap64(self.lacunarity as int),
                freq == freq_at(self.frequency as int, self.lacunarity as int, i as int),
                prev as int == ridged_state(
                    self.seed,
                    self.frequency as int,
                    self.lacunarity as int,
                    ux,
                    uy,
                    i as int,
                ).1,
                0 <= prev <= SCALE,
                total as int == ridged_state(
                    self.seed,
                    self.frequency as int,
                    self.lacunarity as int,
                    ux,
                    uy,
                    i as int,
                ).0,
                0 <= total <= (i as int) * (SCALE as int),
            decreases n - i,
        {
            let sx = fmul_lat_exec(ux, freq);
            let sy = fmul_lat_exec(uy, freq);
            let v = self.sources[i].sample_lat(sx, sy);
            let a = if v < 0 {
                -v
            } else {
                v
            };
            let s1 = clamp_unit(SCALE - a);
            proof {
                assert(0 <= s1 * prev <= 0x4000_0000_0000_0000) by (nonlinear_arith)
                    requires
                        0 <= s1 <= 65536,
                        0 <= prev <= 65536,
                ;
                lemma_mul_down_unit(s1 as int, prev as int);
            }
            let s2 = fp_mul(s1, prev);
            let w = self.weights[i];
            proof {
                lemma_ridged_weight_range(self.lacunarity as int, i as int);
                assert(0 <= s2 * w <= 0x4000_0000_0000_0000) by (nonlinear_arith)
                    requires
                        0 <= s2 <= 65536,
                        0 <= w <= 65536,
                ;
                lemma_mul_down_unit(s2 as int, w as int);
            }
            let term = fp_mul(s2, w);
            total = total + term;
            prev = s1;
            freq = fmul_lat_exec(freq, lac_u);
            i = i + 1;
        }
        proof {
            lemma_ridged_state_range(
                self.seed,
                self.frequency as int,
                self.lacunarity as int,
                ux,
                uy,
                n as int,
            );
            lemma_ridged_weight_sum_range(self.lacunarity as int, n as int);
            lemma_mul_inequality(total as int, self.wsum as int, SCALE as int);
            lemma_mul_nonnegative(total as int, SCALE as int);
            lemma_div_is_ordered(
                total as int * (SCALE as int),
                self.wsum as int * (SCALE as int),
                self.wsum as int,
            );
            assert(self.wsum as int * (SCALE as int) == (self.wsum as int) * (SCALE as int));
            lemma_div_multiples_vanish(SCALE as int, self.wsum as int);
            lemma_div_pos_is_pos(total as int * (SCALE as int), self.wsum as int);
        }
        let q: u64 = ((total as u64) * 65536u64) / (self.wsum as u64);
        2 * (q as i64) - SCALE
    }
}

/// Determinism: a `RidgedMulti` field is a function of the configuration
/// alone, so two generators with equal configurations agree at every
/// point.
pub proof fn lemma_ridgedmulti_deterministic(
    a: &RidgedMulti,
    b: &RidgedMulti,
    point: [i64; 2],
)
    requires
        a.cfg() == b.cfg(),
    ensures
        a.value_at(point) == b.value_at(point),
{
}

} // verus!
