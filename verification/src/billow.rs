//! Billow noise: fractional Brownian motion over remapped samples.
//!
//! The octave loop and the amplitude/frequency progression match `Fbm`,
//! but each per-octave sample `v` is first folded into a billowy
//! ridge-and-valley shape, `2 * |v| - 1` in fixed point, before it is
//! scaled and accumulated. The sum is scaled by the same documented
//! normalization constant `1/2` as `Fbm`.

use vstd::prelude::*;

use crate::accum::{eval_fractal_perlin, fractal_sum, KernelKind};
use crate::fixed::{fp_mul, lat_of, mul_down, to_lattice, HALF, SCALE};
use crate::fractals::{
    build_sources, default_view, frequency_ok, lacunarity_ok, octave_seed, octaves_ok,
    persistence_ok, FractalView, MultiFractal, NoiseError, NoiseFn, Seedable, DEFAULT_FREQUENCY,
    DEFAULT_LACUNARITY, DEFAULT_OCTAVES, DEFAULT_PERSISTENCE, DEFAULT_SEED, MAX_OCTAVES,
};
use crate::kernel::Perlin;

verus! {

/// The value of a `Billow` field with configuration `v` at a lattice
/// point: the octave sum of billow-remapped samples, halved.
pub open spec fn billow_value(v: FractalView, ux: u64, uy: u64) -> int {
    mul_down(
        fractal_sum(
            KernelKind::Perlin,
            true,
            v.seed,
            v.frequency,
            v.lacunarity,
            v.persistence,
            v.octaves,
            ux,
            uy,
        ),
        HALF as int,
    )
}

/// A billow noise field over a `Perlin` octave bank.
pub struct Billow {
    pub seed: u32,
    pub octaves: usize,
    pub frequency: i64,
    pub lacunarity: i64,
    pub persistence: i64,
    pub sources: Vec<Perlin>,
}

impl Billow {
    /// The generator's configuration.
    pub open spec fn cfg(&self) -> FractalView {
        FractalView {
            seed: self.seed,
            octaves: self.octaves as int,
            frequency: self.frequency as int,
            lacunarity: self.lacunarity as int,
            persistence: self.persistence as int,
        }
    }

    /// The octave bank is in step with the seed and the octave count.
    pub open spec fn bank_ok(&self) -> bool {
        &&& self.sources.len() == self.octaves
        &&& forall|i: int|
            0 <= i < self.octaves ==> self.sources[i].seed == octave_seed(self.seed, i as u32)
    }

    /// Well-formedness: parameters in range, bank built.
    pub open spec fn wf(&self) -> bool {
        &&& octaves_ok(self.octaves)
        &&& frequency_ok(self.frequency)
        &&& lacunarity_ok(self.lacunarity)
        &&& persistence_ok(self.persistence)
        &&& self.bank_ok()
    }

    /// A generator with the documented defaults, its bank built eagerly.
    pub fn new() -> (r: Self)
        ensures
            r.wf(),
            r.cfg() == default_view(),
    {
        Billow {
            seed: DEFAULT_SEED,
            octaves: DEFAULT_OCTAVES,
            frequency: DEFAULT_FREQUENCY,
            lacunarity: DEFAULT_LACUNARITY,
            persistence: DEFAULT_PERSISTENCE,
            sources: build_sources(DEFAULT_SEED, DEFAULT_OCTAVES),
        }
    }
}

impl Seedable for Billow {
    open spec fn swf(&self) -> bool {
        self.wf()
    }

    open spec fn seed_view(&self) -> u32 {
        self.seed
    }

    open spec fn reseeded_ok(&self, r: &Self, seed: u32) -> bool {
        r.cfg() == self.cfg().with_seed(seed)
    }

    fn set_seed(self, seed: u32) -> (r: Self) {
        let sources = build_sources(seed, self.octaves);
        Billow { seed, sources, ..self }
    }

    fn seed(&self) -> (r: u32) {
        self.seed
    }
}

impl MultiFractal for Billow {
    open spec fn mwf(&self) -> bool {
        self.wf()
    }

    open spec fn mview(&self) -> FractalView {
        self.cfg()
    }

    fn set_octaves(self, octaves: usize) -> (r: Result<Self, NoiseError>) {
        if octaves < 1 || octaves > MAX_OCTAVES {
            Err(NoiseError::InvalidParameter)
        } else {
            let sources = build_sources(self.seed, octaves);
            Ok(Billow { octaves, sources, ..self })
        }
    }

    fn set_frequency(self, frequency: i64) -> (r: Result<Self, NoiseError>) {
        if frequency <= 0 {
            Err(NoiseError::InvalidParameter)
        } else {
            Ok(Billow { frequency, ..self })
        }
    }

    fn set_lacunarity(self, lacunarity: i64) -> (r: Result<Self, NoiseError>) {
        if lacunarity <= 0 {
            Err(NoiseError::InvalidParameter)
        } else {
            Ok(Billow { lacunarity, ..self })
        }
    }

    fn set_persistence(self, persistence: i64) -> (r: Result<Self, NoiseError>) {
        if persistence < -SCALE || persistence > SCALE {
            Err(NoiseError::InvalidParameter)
        } else {
            Ok(Billow { persistence, ..self })
        }
    }
}

impl NoiseFn for Billow {
    open spec fn nwf(&self) -> bool {
        self.wf()
    }

    open spec fn value_at(&self, point: [i64; 2]) -> int {
        billow_value(self.cfg(), lat_of(point[0]), lat_of(point[1]))
    }

    fn get(&self, point: [i64; 2]) -> (r: i64) {
        let ux = to_lattice(point[0]);
        let uy = to_lattice(point[1]);
        let raw = eval_fractal_perlin(
            self.seed,
            &self.sources,
            true,
            self.frequency,
            self.lacunarity,
            self.persistence,
            ux,
            uy,
        );
        fp_mul(raw, HALF)
    }
}

/// Octave contributions shrink: for a persistence in `[0, 1]`, adding one
/// more octave moves the `Billow` value by no more than the amplitude of
/// that last octave.
pub proof fn lemma_billow_octave_decay(v: FractalView, ux: u64, uy: u64)
    requires
        v.octaves >= 0,
        0 <= v.persistence <= SCALE as int,
    ensures
        ({
            let shorter = billow_value(v, ux, uy);
            let longer = billow_value(v.with_octaves(v.octaves + 1), ux, uy);
            let a = crate::accum::amp_at(v.persistence, v.octaves);
            -a <= longer - shorter <= a
        }),
{
    crate::accum::lemma_octave_decay(
        KernelKind::Perlin,
        true,
        v.seed,
        v.frequency,
        v.lacunarity,
        v.persistence,
        v.octaves,
        ux,
        uy,
    );
    crate::accum::lemma_amp_at_monotone(v.persistence, v.octaves);
    let sum_n = fractal_sum(
        KernelKind::Perlin,
        true,
        v.seed,
        v.frequency,
        v.lacunarity,
        v.persistence,
        v.octaves,
        ux,
        uy,
    );
    let sum_n1 = fractal_sum(
        KernelKind::Perlin,
        true,
        v.seed,
        v.frequency,
        v.lacunarity,
        v.persistence,
        v.octaves + 1,
        ux,
        uy,
    );
    crate::fixed::lemma_mul_down_half_close(sum_n);
    crate::fixed::lemma_mul_down_half_close(sum_n1);
}

/// Determinism: a `Billow` field is a function of the configuration
/// alone, so two generators with equal configurations agree at every
/// point.
pub proof fn lemma_billow_deterministic(a: &Billow, b: &Billow, point: [i64; 2])
    requires
        a.cfg() == b.cfg(),
    ensures
        a.value_at(point) == b.value_at(point),
{
}

} // verus!
