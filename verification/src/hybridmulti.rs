//! HybridMulti: octave accumulation damped by the running result.
//!
//! Unlike the purely additive variants, each octave's contribution is
//! scaled by a running weight: octave 0 contributes its raw sample (the
//! initial weight is one whole unit), and after every octave the weight
//! becomes the old weight times the octave's contribution, clamped into
//! `[0, 1]` so that neither runaway growth nor collapse can dominate the
//! later octaves. Octave contributions are therefore correlated rather
//! than independent.

use vstd::prelude::*;

use crate::accum::{freq_at, octave_sample, KernelKind};
use crate::fixed::{
    clamp_unit, clamp_unit_spec, fmul_lat_exec, fp_mul, lat_of, lemma_mul_down_scaled, mul_down,
    to_lattice, wrap64, SCALE,
};
use crate::fractals::{
    build_sources, default_view, frequency_ok, lacunarity_ok, octave_seed, octaves_ok,
    persistence_ok, FractalView, MultiFractal, NoiseError, NoiseFn, Seedable, DEFAULT_FREQUENCY,
    DEFAULT_LACUNARITY, DEFAULT_OCTAVES, DEFAULT_PERSISTENCE, DEFAULT_SEED, MAX_OCTAVES,
};
use crate::kernel::Perlin;

verus! {

/// The running pair (result, weight) after `i` octaves: the weight starts
/// at one whole unit, each octave adds `sample * weight`, and the weight
/// is re-damped by the contribution and clamped into the unit interval.
pub open spec fn hybrid_state(
    seed: u32,
    frequency: int,
    lacunarity: int,
    ux: u64,
    uy: u64,
    i: int,
) -> (int, int)
    decreases i,
{
    if i <= 0 {
        (0, SCALE as int)
    } else {
        let prev = hybrid_state(seed, frequency, lacunarity, ux, uy, i - 1);
        let v = octave_sample(KernelKind::Perlin, seed, frequency, lacunarity, ux, uy, i - 1);
        let signal = mul_down(v, prev.1);
        (prev.0 + signal, clamp_unit_spec(mul_down(prev.1, signal)))
    }
}

/// The internal weight never leaves `[0, 1]`, whatever the octave
/// samples are: it starts at one whole unit and every update is clamped.
pub proof fn lemma_hybrid_weight_clamped(
    seed: u32,
    frequency: int,
    lacunarity: int,
    ux: u64,
    uy: u64,
    i: int,
)
    ensures
        0 <= hybrid_state(seed, frequency, lacunarity, ux, uy, i).1 <= SCALE as int,
{
}

/// The value of a `HybridMulti` field with configuration `v` at a
/// lattice point: the damped octave sum.
pub open spec fn hybridmulti_value(v: FractalView, ux: u64, uy: u64) -> int {
    hybrid_state(v.seed, v.frequency, v.lacunarity, ux, uy, v.octaves).0
}

/// A result-damped multi-fractal noise field over a `Perlin` octave bank.
pub struct HybridMulti {
    pub seed: u32,
    pub octaves: usize,
    pub frequency: i64,
    pub lacunarity: i64,
    pub persistence: i64,
    pub sources: Vec<Perlin>,
}

impl HybridMulti {
    /// The generator's configuration.
    pub open spec fn cfg(&self) -> FractalView {
        FractalView {
            seed: self.seed,
            octaves: self.octaves as int,
            frequency: self.frequency as int,
            lacunarity: self.lacunarity as int,
            persistence: self.persistence as int,
        }
    }

    /// The octave bank is in step with the seed and the octave count.
    pub open spec fn bank_ok(&self) -> bool {
        &&& self.sources.len() == self.octaves
        &&& forall|i: int|
            0 <= i < self.octaves ==> self.sources[i].seed == octave_seed(self.seed, i as u32)
    }

    /// Well-formedness: parameters in range, bank built.
    pub open spec fn wf(&self) -> bool {
        &&& octaves_ok(self.octaves)
        &&& frequency_ok(self.frequency)
        &&& lacunarity_ok(self.lacunarity)
        &&& persistence_ok(self.persistence)
        &&& self.bank_ok()
    }

    /// A generator with the documented defaults, its bank built eagerly.
    pub fn new() -> (r: Self)
        ensures
            r.wf(),
            r.cfg() == default_view(),
    {
        HybridMulti {
            seed: DEFAULT_SEED,
            octaves: DEFAULT_OCTAVES,
            frequency: DEFAULT_FREQUENCY,
            lacunarity: DEFAULT_LACUNARITY,
            persistence: DEFAULT_PERSISTENCE,
            sources: build_sources(DEFAULT_SEED, DEFAULT_OCTAVES),
        }
    }
}

impl Seedable for HybridMulti {
    open spec fn swf(&self) -> bool {
        self.wf()
    }

    open spec fn seed_view(&self) -> u32 {
        self.seed
    }

    open spec fn reseeded_ok(&self, r: &Self, seed: u32) -> bool {
        r.cfg() == self.cfg().with_seed(seed)
    }

    fn set_seed(self, seed: u32) -> (r: Self) {
        let sources = build_sources(seed, self.octaves);
        HybridMulti { seed, sources, ..self }
    }

    fn seed(&self) -> (r: u32) {
        self.seed
    }
}

impl MultiFractal for HybridMulti {
    open spec fn mwf(&self) -> bool {
        self.wf()
    }

    open spec fn mview(&self) -> FractalView {
        self.cfg()
    }

    fn set_octaves(self, octaves: usize) -> (r: Result<Self, NoiseError>) {
        if octaves < 1 || octaves > MAX_OCTAVES {
            Err(NoiseError::InvalidParameter)
        } else {
            let sources = build_sources(self.seed, octaves);
            Ok(HybridMulti { octaves, sources, ..self })
        }
    }

    fn set_frequency(self, frequency: i64) -> (r: Result<Self, NoiseError>) {
        if frequency <= 0 {
            Err(NoiseError::InvalidParameter)
        } else {
            Ok(HybridMulti { frequency, ..self })
        }
    }

    fn set_lacunarity(self, lacunarity: i64) -> (r: Result<Self, NoiseError>) {
        if lacunarity <= 0 {
            Err(NoiseError::InvalidParameter)
        } else {
            Ok(HybridMulti { lacunarity, ..self })
        }
    }

    fn set_persistence(self, persistence: i64) -> (r: Result<Self, NoiseError>) {
        if persistence < -SCALE || persistence > SCALE {
            Err(NoiseError::InvalidParameter)
        } else {
            Ok(HybridMulti { persistence, ..self })
        }
    }
}

impl NoiseFn for HybridMulti {
    open spec fn nwf(&self) -> bool {
        self.wf()
    }

    open spec fn value_at(&self, point: [i64; 2]) -> int {
        hybridmulti_value(self.cfg(), lat_of(point[0]), lat_of(point[1]))
    }

    fn get(&self, point: [i64; 2]) -> (r: i64) {
        let ux = to_lattice(point[0]);
        let uy = to_lattice(point[1]);
        let mut result: i64 = 0;
        let mut weight: i64 = SCALE;
        let lac_u: u64 = self.lacunarity as u64;
        proof {
            vstd::arithmetic::div_mod::lemma_small_mod(
                self.frequency as nat,
                0x1_0000_0000_0000_0000nat,
            );
            vstd::arithmetic::div_mod::lemma_small_mod(
                self.lacunarity as nat,
                0x1_0000_0000_0000_0000nat,
            );
        }
        let mut freq: u64 = self.frequency as u64;
        let n = self.sources.len();
        let mut i: usize = 0;
        while i < n
            invariant
                i <= n,
                n == self.sources.len(),
                self.wf(),
                lac_u == wrap64(self.lacunarity as int),
                freq == freq_at(self.frequency as int, self.lacunarity as int, i as int),
                weight as int == hybrid_state(
                    self.seed,
                    self.frequency as int,
                    self.lacunarity as int,
                    ux,
                    uy,
                    i as int,
                ).1,
                0 <= weight <= SCALE,
                result as int == hybrid_state(
                    self.seed,
                    self.frequency as int,
                    self.lacunarity as int,
                    ux,
                    uy,
                    i as int,
                ).0,
                -(i as int) * (SCALE as int) <= result as int <= (i as int) * (SCALE as int),
            decreases n - i,
        {
            let sx = fmul_lat_exec(ux, freq);
            let sy = fmul_lat_exec(uy, freq);
            let v = self.sources[i].sample_lat(sx, sy);
            proof {
                assert(-0x4000_0000_0000_0000 <= v * weight <= 0x4000_0000_0000_0000)
                    by (nonlinear_arith)
                    requires
                        -65536 <= v <= 65536,
                        0 <= weight <= 65536,
                ;
                lemma_mul_down_scaled(v as int, weight as int);
            }
            let signal = fp_mul(v, weight);
            result = result + signal;
            proof {
                assert(-0x4000_0000_0000_0000 <= weight * signal <= 0x4000_0000_0000_0000)
                    by (nonlinear_arith)
                    requires
                        0 <= weight <= 65536,
                        -65536 <= signal <= 65536,
                ;
            }
            let damped = fp_mul(weight, signal);
            weight = clamp_unit(damped);
            freq = fmul_lat_exec(freq, lac_u);
            i = i + 1;
        }
        result
    }
}

/// Determinism: a `HybridMulti` field is a function of the configuration
/// alone, so two generators with equal configurations agree at every
/// point.
pub proof fn lemma_hybridmulti_deterministic(
    a: &HybridMulti,
    b: &HybridMulti,
    point: [i64; 2],
)
    requires
        a.cfg() == b.cfg(),
    ensures
        a.value_at(point) == b.value_at(point),
{
}

} // verus!
