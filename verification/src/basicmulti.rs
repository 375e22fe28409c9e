//! BasicMulti: the unnormalized raw multi-octave sum.
//!
//! The octave loop and the amplitude/frequency progression match `Fbm`,
//! but no final normalization constant is applied: the field is the raw
//! octave sum, the base building block the other variants are compared
//! against.

use vstd::prelude::*;

use crate::accum::{eval_fractal_perlin, fractal_sum, KernelKind};
use crate::fixed::{lat_of, to_lattice, SCALE};
use crate::fractals::{
    build_sources, default_view, frequency_ok, lacunarity_ok, octave_seed, octaves_ok,
    persistence_ok, FractalView, MultiFractal, NoiseError, NoiseFn, Seedable, DEFAULT_FREQUENCY,
    DEFAULT_LACUNARITY, DEFAULT_OCTAVES, DEFAULT_PERSISTENCE, DEFAULT_SEED, MAX_OCTAVES,
};
use crate::kernel::Perlin;

verus! {

/// The value of a `BasicMulti` field with configuration `v` at a lattice
/// point: the raw octave sum.
pub open spec fn basicmulti_value(v: FractalView, ux: u64, uy: u64) -> int {
    fractal_sum(
        KernelKind::Perlin,
        false,
        v.seed,
        v.frequency,
        v.lacunarity,
        v.persistence,
        v.octaves,
        ux,
        uy,
    )
}

/// An unnormalized additive noise field over a `Perlin` octave bank.
pub struct BasicMulti {
    pub seed: u32,
    pub octaves: usize,
    pub frequency: i64,
    pub lacunarity: i64,
    pub persistence: i64,
    pub sources: Vec<Perlin>,
}

impl BasicMulti {
    /// The generator's configuration.
    pub open spec fn cfg(&self) -> FractalView {
        FractalView {
            seed: self.seed,
            octaves: self.octaves as int,
            frequency: self.frequency as int,
            lacunarity: self.lacunarity as int,
            persistence: self.persistence as int,
        }
    }

    /// The octave bank is in step with the seed and the octave count.
    pub open spec fn bank_ok(&self) -> bool {
        &&& self.sources.len() == self.octaves
        &&& forall|i: int|
            0 <= i < self.octaves ==> self.sources[i].seed == octave_seed(self.seed, i as u32)
    }

    /// Well-formedness: parameters in range, bank built.
    pub open spec fn wf(&self) -> bool {
        &&& octaves_ok(self.octaves)
        &&& frequency_ok(self.frequency)
        &&& lacunarity_ok(self.lacunarity)
        &&& persistence_ok(self.persistence)
        &&& self.bank_ok()
    }

    /// A generator with the documented defaults, its bank built eagerly.
    pub fn new() -> (r: Self)
        ensures
            r.wf(),
            r.cfg() == default_view(),
    {
        BasicMulti {
            seed: DEFAULT_SEED,
            octaves: DEFAULT_OCTAVES,
            frequency: DEFAULT_FREQUENCY,
            lacunarity: DEFAULT_LACUNARITY,
            persistence: DEFAULT_PERSISTENCE,
            sources: build_sources(DEFAULT_SEED, DEFAULT_OCTAVES),
        }
    }
}

impl Seedable for BasicMulti {
    open spec fn swf(&self) -> bool {
        self.wf()
    }

    open spec fn seed_view(&self) -> u32 {
        self.seed
    }

    open spec fn reseeded_ok(&self, r: &Self, seed: u32) -> bool {
        r.cfg() == self.cfg().with_seed(seed)
    }

    fn set_seed(self, seed: u32) -> (r: Self) {
        let sources = build_sources(seed, self.octaves);
        BasicMulti { seed, sources, ..self }
    }

    fn seed(&self) -> (r: u32) {
        self.seed
    }
}

impl MultiFractal for BasicMulti {
    open spec fn mwf(&self) -> bool {
        self.wf()
    }

    open spec fn mview(&self) -> FractalView {
        self.cfg()
    }

    fn set_octaves(self, octaves: usize) -> (r: Result<Self, NoiseError>) {
        if octaves < 1 || octaves > MAX_OCTAVES {
            Err(NoiseError::InvalidParameter)
        } else {
            let sources = build_sources(self.seed, octaves);
            Ok(BasicMulti { octaves, sources, ..self })
        }
    }

    fn set_frequency(self, frequency: i64) -> (r: Result<Self, NoiseError>) {
        if frequency <= 0 {
            Err(NoiseError::InvalidParameter)
        } else {
            Ok(BasicMulti { frequency, ..self })
        }
    }

    fn set_lacunarity(self, lacunarity: i64) -> (r: Result<Self, NoiseError>) {
        if lacunarity <= 0 {
            Err(NoiseError::InvalidParameter)
        } else {
            Ok(BasicMulti { lacunarity, ..self })
        }
    }

    fn set_persistence(self, persistence: i64) -> (r: Result<Self, NoiseError>) {
        if persistence < -SCALE || persistence > SCALE {
            Err(NoiseError::InvalidParameter)
        } else {
            Ok(BasicMulti { persistence, ..self })
        }
    }
}

impl NoiseFn for BasicMulti {
    open spec fn nwf(&self) -> bool {
        self.wf()
    }

    open spec fn value_at(&self, point: [i64; 2]) -> int {
        basicmulti_value(self.cfg(), lat_of(point[0]), lat_of(point[1]))
    }

    fn get(&self, point: [i64; 2]) -> (r: i64) {
        let ux = to_lattice(point[0]);
        let uy = to_lattice(point[1]);
        eval_fractal_perlin(
            self.seed,
            &self.sources,
            false,
            self.frequency,
            self.lacunarity,
            self.persistence,
            ux,
            uy,
        )
    }
}

/// Octave contributions shrink: for a persistence in `[0, 1]`, adding one
/// more octave moves the `BasicMulti` value by no more than the amplitude
/// of that last octave.
pub proof fn lemma_basicmulti_octave_decay(v: FractalView, ux: u64, uy: u64)
    requires
        v.octaves >= 0,
        0 <= v.persistence <= SCALE as int,
    ensures
        ({
            let shorter = basicmulti_value(v, ux, uy);
            let longer = basicmulti_value(v.with_octaves(v.octaves + 1), ux, uy);
            let a = crate::accum::amp_at(v.persistence, v.octaves);
            -a <= longer - shorter <= a
        }),
{
    crate::accum::lemma_octave_decay(
        KernelKind::Perlin,
        false,
        v.seed,
        v.frequency,
        v.lacunarity,
        v.persistence,
        v.octaves,
        ux,
        uy,
    );
}

/// Determinism: a `BasicMulti` field is a function of the configuration
/// alone, so two generators with equal configurations agree at every
/// point.
pub proof fn lemma_basicmulti_deterministic(a: &BasicMulti, b: &BasicMulti, point: [i64; 2])
    requires
        a.cfg() == b.cfg(),
    ensures
        a.value_at(point) == b.value_at(point),
{
}

} // verus!
