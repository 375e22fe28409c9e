//! A procedural coherent-noise library built around a multi-fractal
//! composition engine.
//!
//! Scalars are 16.16 fixed-point numbers: an `i64` holds the value times
//! [`fixed::SCALE`] (65536), so `65536` stands for `1.0`. Points live in a
//! two-dimensional coordinate space of such scalars. Two primitive
//! generators ([`kernel::Perlin`] and [`kernel::OpenSimplex`]) supply
//! deterministic, bounded lattice noise; the fractal variants ([`fbm::Fbm`],
//! [`billow::Billow`], [`basicmulti::BasicMulti`],
//! [`hybridmulti::HybridMulti`], [`ridgedmulti::RidgedMulti`] and
//! [`fbm_opensimplex::Fbm_OpenSimplex`]) combine several independently
//! seeded octaves of a primitive into higher-level noise fields.
//!
//! Every query is a pure function of the generator's configuration and the
//! point: each `get` is proved to return exactly the value of a spec-level
//! model of its accumulation algorithm.

pub mod accum;
pub mod basicmulti;
pub mod billow;
pub mod fbm;
pub mod fbm_opensimplex;
pub mod fixed;
pub mod fractals;
pub mod hybridmulti;
pub mod kernel;
pub mod ridgedmulti;

pub use basicmulti::BasicMulti;
pub use billow::Billow;
pub use fbm::Fbm;
pub use fbm_opensimplex::Fbm_OpenSimplex;
pub use fractals::MultiFractal;
pub use fractals::NoiseError;
pub use fractals::NoiseFn;
pub use fractals::Seedable;
pub use hybridmulti::HybridMulti;
pub use kernel::OpenSimplex;
pub use kernel::Perlin;
pub use ridgedmulti::RidgedMulti;
