//! Fractional Brownian motion over an `OpenSimplex` octave bank.
//!
//! The accumulation is the one of `Fbm` — persistence-weighted octave
//! sum, halved — with every octave sampled from the `OpenSimplex` kernel
//! instead of the `Perlin` kernel.

use vstd::prelude::*;

use crate::accum::{eval_fractal_simplex, fractal_sum, KernelKind};
use crate::fixed::{fp_mul, lat_of, mul_down, to_lattice, HALF, SCALE};
use crate::fractals::{
    build_opensimplex_sources, default_view, frequency_ok, lacunarity_ok, octave_seed, octaves_ok,
    persistence_ok, FractalView, MultiFractal, NoiseError, NoiseFn, Seedable, DEFAULT_FREQUENCY,
    DEFAULT_LACUNARITY, DEFAULT_OCTAVES, DEFAULT_PERSISTENCE, DEFAULT_SEED, MAX_OCTAVES,
};
use crate::kernel::OpenSimplex;

verus! {

/// The value of an `Fbm_OpenSimplex` field with configuration `v` at a
/// lattice point: the octave sum, halved.
pub open spec fn fbm_opensimplex_value(v: FractalView, ux: u64, uy: u64) -> int {
    mul_down(
        fractal_sum(
            KernelKind::OpenSimplex,
            false,
            v.seed,
            v.frequency,
            v.lacunarity,
            v.persistence,
            v.octaves,
            ux,
            uy,
        ),
        HALF as int,
    )
}

/// A fractional-Brownian-motion noise field over an `OpenSimplex`
/// octave bank.
#[allow(non_camel_case_types)]
pub struct Fbm_OpenSimplex {
    pub seed: u32,
    pub octaves: usize,
    pub frequency: i64,
    pub lacunarity: i64,
    pub persistence: i64,
    pub sources: Vec<OpenSimplex>,
}

impl Fbm_OpenSimplex {
    /// The generator's configuration.
    pub open spec fn cfg(&self) -> FractalView {
        FractalView {
            seed: self.seed,
            octaves: self.octaves as int,
            frequency: self.frequency as int,
            lacunarity: self.lacunarity as int,
            persistence: self.persistence as int,
        }
    }

    /// The octave bank is in step with the seed and the octave count.
    pub open spec fn bank_ok(&self) -> bool {
        &&& self.sources.len() == self.octaves
        &&& forall|i: int|
            0 <= i < self.octaves ==> self.sources[i].seed == octave_seed(self.seed, i as u32)
    }

    /// Well-formedness: parameters in range, bank built.
    pub open spec fn wf(&self) -> bool {
        &&& octaves_ok(self.octaves)
        &&& frequency_ok(self.frequency)
        &&& lacunarity_ok(self.lacunarity)
        &&& persistence_ok(self.persistence)
        &&& self.bank_ok()
    }

    /// A generator with the documented defaults, its bank built eagerly.
    pub fn new() -> (r: Self)
        ensures
            r.wf(),
            r.cfg() == default_view(),
    {
        Fbm_OpenSimplex {
            seed: DEFAULT_SEED,
            octaves: DEFAULT_OCTAVES,
            frequency: DEFAULT_FREQUENCY,
            lacunarity: DEFAULT_LACUNARITY,
            persistence: DEFAULT_PERSISTENCE,
            sources: build_opensimplex_sources(DEFAULT_SEED, DEFAULT_OCTAVES),
        }
    }
}

impl Seedable for Fbm_OpenSimplex {
    open spec fn swf(&self) -> bool {
        self.wf()
    }

    open spec fn seed_view(&self) -> u32 {
        self.seed
    }

    open spec fn reseeded_ok(&self, r: &Self, seed: u32) -> bool {
        r.cfg() == self.cfg().with_seed(seed)
    }

    fn set_seed(self, seed: u32) -> (r: Self) {
        let sources = build_opensimplex_sources(seed, self.octaves);
        Fbm_OpenSimplex { seed, sources, ..self }
    }

    fn seed(&self) -> (r: u32) {
        self.seed
    }
}

impl MultiFractal for Fbm_OpenSimplex {
    open spec fn mwf(&self) -> bool {
        self.wf()
    }

    open spec fn mview(&self) -> FractalView {
        self.cfg()
    }

    fn set_octaves(self, octaves: usize) -> (r: Result<Self, NoiseError>) {
        if octaves < 1 || octaves > MAX_OCTAVES {
            Err(NoiseError::InvalidParameter)
        } else {
            let sources = build_opensimplex_sources(self.seed, octaves);
            Ok(Fbm_OpenSimplex { octaves, sources, ..self })
        }
    }

    fn set_frequency(self, frequency: i64) -> (r: Result<Self, NoiseError>) {
        if frequency <= 0 {
            Err(NoiseError::InvalidParameter)
        } else {
            Ok(Fbm_OpenSimplex { frequency, ..self })
        }
    }

    fn set_lacunarity(self, lacunarity: i64) -> (r: Result<Self, NoiseError>) {
        if lacunarity <= 0 {
            Err(NoiseError::InvalidParameter)
        } else {
            Ok(Fbm_OpenSimplex { lacunarity, ..self })
        }
    }

    fn set_persistence(self, persistence: i64) -> (r: Result<Self, NoiseError>) {
        if persistence < -SCALE || persistence > SCALE {
            Err(NoiseError::InvalidParameter)
        } else {
            Ok(Fbm_OpenSimplex { persistence, ..self })
        }
    }
}

impl NoiseFn for Fbm_OpenSimplex {
    open spec fn nwf(&self) -> bool {
        self.wf()
    }

    open spec fn value_at(&self, point: [i64; 2]) -> int {
        fbm_opensimplex_value(self.cfg(), lat_of(point[0]), lat_of(point[1]))
    }

    fn get(&self, point: [i64; 2]) -> (r: i64) {
        let ux = to_lattice(point[0]);
        let uy = to_lattice(point[1]);
        let raw = eval_fractal_simplex(
            self.seed,
            &self.sources,
            false,
            self.frequency,
            self.lacunarity,
            self.persistence,
            ux,
            uy,
        );
        fp_mul(raw, HALF)
    }
}

/// Determinism: an `Fbm_OpenSimplex` field is a function of the
/// configuration alone, so two generators with equal configurations
/// agree at every point.
pub proof fn lemma_fbm_opensimplex_deterministic(
    a: &Fbm_OpenSimplex,
    b: &Fbm_OpenSimplex,
    point: [i64; 2],
)
    requires
        a.cfg() == b.cfg(),
    ensures
        a.value_at(point) == b.value_at(point),
{
}

} // verus!
