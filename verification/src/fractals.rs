//! The shared multi-fractal configuration contract and octave banks.
//!
//! A fractal generator owns a configuration (seed, octave count, base
//! frequency, lacunarity, persistence) and an octave bank: one primitive
//! generator per octave, octave `i` seeded with `seed + i` (wrapping at the
//! `u32` boundary). Setters are builder-style: each consumes the generator
//! and returns an updated one, rebuilding the bank eagerly whenever the
//! seed or the octave count changes, so a generator is never queried with
//! a stale bank. Invalid parameters are rejected with
//! [`NoiseError::InvalidParameter`]: an octave count outside `1..=32`, a
//! frequency or lacunarity that is not positive, or a persistence outside
//! the representable `[-SCALE, SCALE]` (that is, `[-1, 1]`).

use vstd::prelude::*;

use crate::fixed::SCALE;
use crate::kernel::{OpenSimplex, Perlin};

verus! {

/// The largest supported octave count.
pub const MAX_OCTAVES: usize = 32;

/// The documented construction defaults: seed `0`, `6` octaves, base
/// frequency `1.0`, lacunarity `2.0`, persistence `0.5`.
pub const DEFAULT_SEED: u32 = 0;

pub const DEFAULT_OCTAVES: usize = 6;

pub const DEFAULT_FREQUENCY: i64 = 65536;

pub const DEFAULT_LACUNARITY: i64 = 131072;

pub const DEFAULT_PERSISTENCE: i64 = 32768;

/// The only reportable failure: an invalid configuration parameter,
/// raised synchronously at configuration time. Queries cannot fail.
#[derive(Clone, Copy, Debug, PartialEq, Eq, Structural)]
pub enum NoiseError {
    InvalidParameter,
}

/// The mathematical image of a fractal generator's configuration.
pub ghost struct FractalView {
    pub seed: u32,
    pub octaves: int,
    pub frequency: int,
    pub lacunarity: int,
    pub persistence: int,
}

impl FractalView {
    pub open spec fn with_seed(self, seed: u32) -> FractalView {
        FractalView { seed, ..self }
    }

    pub open spec fn with_octaves(self, octaves: int) -> FractalView {
        FractalView { octaves, ..self }
    }

    pub open spec fn with_frequency(self, frequency: int) -> FractalView {
        FractalView { frequency, ..self }
    }

    pub open spec fn with_lacunarity(self, lacunarity: int) -> FractalView {
        FractalView { lacunarity, ..self }
    }

    pub open spec fn with_persistence(self, persistence: int) -> FractalView {
        FractalView { persistence, ..self }
    }
}

/// The configuration every fractal variant starts from.
pub open spec fn default_view() -> FractalView {
    FractalView {
        seed: DEFAULT_SEED,
        octaves: DEFAULT_OCTAVES as int,
        frequency: DEFAULT_FREQUENCY as int,
        lacunarity: DEFAULT_LACUNARITY as int,
        persistence: DEFAULT_PERSISTENCE as int,
    }
}

/// An octave count the engine supports.
pub open spec fn octaves_ok(octaves: usize) -> bool {
    1 <= octaves <= MAX_OCTAVES
}

/// A base frequency must be positive.
pub open spec fn frequency_ok(frequency: i64) -> bool {
    frequency > 0
}

/// A lacunarity must be positive.
pub open spec fn lacunarity_ok(lacunarity: i64) -> bool {
    lacunarity > 0
}

/// A persistence must lie in the representable `[-1, 1]`.
pub open spec fn persistence_ok(persistence: i64) -> bool {
    -SCALE <= persistence <= SCALE
}

/// The effective seed of octave `i`: `seed + i`, wrapping at the `u32`
/// boundary.
pub open spec fn octave_seed(seed: u32, i: u32) -> u32 {
    vstd::wrapping::u32_specs::wrapping_add(seed, i)
}

/// The fluent configuration contract shared by every fractal variant.
/// Each setter consumes the generator and returns an updated one whose
/// view changes in exactly the named parameter; an out-of-range parameter
/// is rejected with `InvalidParameter`, and success is owed whenever the
/// parameter is in range.
pub trait MultiFractal: Sized {
    /// The generator's internal invariant: parameters in range and the
    /// octave bank in step with the seed and the octave count.
    spec fn mwf(&self) -> bool;

    /// The generator's configuration.
    spec fn mview(&self) -> FractalView;

    fn set_octaves(self, octaves: usize) -> (r: Result<Self, NoiseError>)
        requires
            self.mwf(),
        ensures
            match r {
                Ok(g) => octaves_ok(octaves) && g.mwf() && g.mview()
                    == self.mview().with_octaves(octaves as int),
                Err(e) => !octaves_ok(octaves) && e == NoiseError::InvalidParameter,
            },
    ;

    fn set_frequency(self, frequency: i64) -> (r: Result<Self, NoiseError>)
        requires
            self.mwf(),
        ensures
            match r {
                Ok(g) => frequency_ok(frequency) && g.mwf() && g.mview()
                    == self.mview().with_frequency(frequency as int),
                Err(e) => !frequency_ok(frequency) && e == NoiseError::InvalidParameter,
            },
    ;

    fn set_lacunarity(self, lacunarity: i64) -> (r: Result<Self, NoiseError>)
        requires
            self.mwf(),
        ensures
            match r {
                Ok(g) => lacunarity_ok(lacunarity) && g.mwf() && g.mview()
                    == self.mview().with_lacunarity(lacunarity as int),
                Err(e) => !lacunarity_ok(lacunarity) && e == NoiseError::InvalidParameter,
            },
    ;

    fn set_persistence(self, persistence: i64) -> (r: Result<Self, NoiseError>)
        requires
            self.mwf(),
        ensures
            match r {
                Ok(g) => persistence_ok(persistence) && g.mwf() && g.mview()
                    == self.mview().with_persistence(persistence as int),
                Err(e) => !persistence_ok(persistence) && e == NoiseError::InvalidParameter,
            },
    ;
}

/// A generator that can be re-derived with a new integer seed.
pub trait Seedable: Sized {
    /// The generator's internal invariant.
    spec fn swf(&self) -> bool;

    /// The generator's current seed.
    spec fn seed_view(&self) -> u32;

    /// What the freshly seeded generator is; each implementation pins the
    /// result down completely (configuration kept, bank rebuilt).
    spec fn reseeded_ok(&self, r: &Self, seed: u32) -> bool;

    fn set_seed(self, seed: u32) -> (r: Self)
        requires
            self.swf(),
        ensures
            r.swf(),
            r.seed_view() == seed,
            self.reseeded_ok(&r, seed),
    ;

    fn seed(&self) -> (r: u32)
        ensures
            r == self.seed_view(),
    ;
}

/// A scalar noise field over two-dimensional fixed-point space. A query
/// is a pure function of the generator and the point: `get` returns
/// exactly `value_at`, so two evaluations of one generator at one point
/// are identical.
pub trait NoiseFn {
    /// The generator's internal invariant.
    spec fn nwf(&self) -> bool;

    /// The exact value of the field at `point`.
    spec fn value_at(&self, point: [i64; 2]) -> int;

    fn get(&self, point: [i64; 2]) -> (r: i64)
        requires
            self.nwf(),
        ensures
            r as int == self.value_at(point),
    ;
}

impl Seedable for Perlin {
    open spec fn swf(&self) -> bool {
        true
    }

    open spec fn seed_view(&self) -> u32 {
        self.seed
    }

    open spec fn reseeded_ok(&self, r: &Self, seed: u32) -> bool {
        *r == (Perlin { seed })
    }

    fn set_seed(self, seed: u32) -> (r: Self) {
        Perlin { seed }
    }

    fn seed(&self) -> (r: u32) {
        self.seed
    }
}

impl Seedable for OpenSimplex {
    open spec fn swf(&self) -> bool {
        true
    }

    open spec fn seed_view(&self) -> u32 {
        self.seed
    }

    open spec fn reseeded_ok(&self, r: &Self, seed: u32) -> bool {
        *r == (OpenSimplex { seed })
    }

    fn set_seed(self, seed: u32) -> (r: Self) {
        OpenSimplex { seed }
    }

    fn seed(&self) -> (r: u32) {
        self.seed
    }
}

impl NoiseFn for Perlin {
    open spec fn nwf(&self) -> bool {
        true
    }

    open spec fn value_at(&self, point: [i64; 2]) -> int {
        crate::kernel::perlin_at(
            self.seed,
            crate::fixed::lat_of(point[0]),
            crate::fixed::lat_of(point[1]),
        )
    }

    fn get(&self, point: [i64; 2]) -> (r: i64) {
        let ux = crate::fixed::to_lattice(point[0]);
        let uy = crate::fixed::to_lattice(point[1]);
        self.sample_lat(ux, uy)
    }
}

impl NoiseFn for OpenSimplex {
    open spec fn nwf(&self) -> bool {
        true
    }

    open spec fn value_at(&self, point: [i64; 2]) -> int {
        crate::kernel::opensimplex_at(
            self.seed,
            crate::fixed::lat_of(point[0]),
            crate::fixed::lat_of(point[1]),
        )
    }

    fn get(&self, point: [i64; 2]) -> (r: i64) {
        let ux = crate::fixed::to_lattice(point[0]);
        let uy = crate::fixed::to_lattice(point[1]);
        self.sample_lat(ux, uy)
    }
}

/// Build the octave bank of a `Perlin`-backed fractal: `octaves`
/// generators, octave `i` seeded with `seed + i` (wrapping).
pub fn build_sources(seed: u32, octaves: usize) -> (r: Vec<Perlin>)
    requires
        octaves <= MAX_OCTAVES,
    ensures
        r.len() == octaves,
        forall|i: int| 0 <= i < octaves ==> r[i].seed == octave_seed(seed, i as u32),
{
    let mut sources: Vec<Perlin> = Vec::with_capacity(octaves);
    let mut x: usize = 0;
    while x < octaves
        invariant
            x <= octaves,
            octaves <= MAX_OCTAVES,
            sources.len() == x,
            forall|i: int| 0 <= i < x ==> sources[i].seed == octave_seed(seed, i as u32),
        decreases octaves - x,
    {
        let noise_gen = Perlin::new(seed.wrapping_add(x as u32));
        sources.push(noise_gen);
        x = x + 1;
    }
    sources
}

/// Build the octave bank of an `OpenSimplex`-backed fractal, with the same
/// per-octave seed derivation as `build_sources`.
pub fn build_opensimplex_sources(seed: u32, octaves: usize) -> (r: Vec<OpenSimplex>)
    requires
        octaves <= MAX_OCTAVES,
    ensures
        r.len() == octaves,
        forall|i: int| 0 <= i < octaves ==> r[i].seed == octave_seed(seed, i as u32),
{
    let mut sources: Vec<OpenSimplex> = Vec::with_capacity(octaves);
    let mut x: usize = 0;
    while x < octaves
        invariant
            x <= octaves,
            octaves <= MAX_OCTAVES,
            sources.len() == x,
            forall|i: int| 0 <= i < x ==> sources[i].seed == octave_seed(seed, i as u32),
        decreases octaves - x,
    {
        let noise_gen = OpenSimplex::new();
        let noise_gen = noise_gen.set_seed(seed.wrapping_add(x as u32));
        sources.push(noise_gen);
        x = x + 1;
    }
    sources
}

} // verus!
