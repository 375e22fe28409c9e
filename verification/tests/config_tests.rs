//! Configuration-contract tests: defaults, fluent setters, parameter
//! validation, and per-octave seed derivation.

use noise::fbm::Fbm;
use noise::fractals::{
    build_opensimplex_sources, build_sources, MultiFractal, NoiseError, Seedable,
};
use noise::hybridmulti::HybridMulti;
use noise::ridgedmulti::RidgedMulti;

#[test]
fn default_configuration() {
    let f = Fbm::new();
    assert_eq!(f.seed(), 0);
    assert_eq!(f.octaves, 6);
    assert_eq!(f.frequency, 65536);
    assert_eq!(f.lacunarity, 131072);
    assert_eq!(f.persistence, 32768);
}

#[test]
fn fluent_chaining_updates_each_parameter() {
    let f = Fbm::new()
        .set_octaves(4)
        .unwrap()
        .set_frequency(32768)
        .unwrap()
        .set_lacunarity(196608)
        .unwrap()
        .set_persistence(16384)
        .unwrap()
        .set_seed(99);
    assert_eq!(f.octaves, 4);
    assert_eq!(f.frequency, 32768);
    assert_eq!(f.lacunarity, 196608);
    assert_eq!(f.persistence, 16384);
    assert_eq!(f.seed(), 99);
    assert_eq!(f.sources.len(), 4);
}

#[test]
fn zero_octaves_is_invalid() {
    let r = Fbm::new().set_octaves(0);
    assert!(matches!(r, Err(NoiseError::InvalidParameter)));
}

#[test]
fn oversized_octave_count_is_invalid() {
    let r = Fbm::new().set_octaves(33);
    assert!(matches!(r, Err(NoiseError::InvalidParameter)));
}

#[test]
fn zero_frequency_is_invalid() {
    let r = Fbm::new().set_frequency(0);
    assert!(matches!(r, Err(NoiseError::InvalidParameter)));
}

#[test]
fn negative_frequency_is_invalid() {
    let r = Fbm::new().set_frequency(-65536);
    assert!(matches!(r, Err(NoiseError::InvalidParameter)));
}

#[test]
fn zero_lacunarity_is_invalid() {
    let r = Fbm::new().set_lacunarity(0);
    assert!(matches!(r, Err(NoiseError::InvalidParameter)));
}

#[test]
fn out_of_range_persistence_is_invalid() {
    assert!(matches!(
        Fbm::new().set_persistence(65537),
        Err(NoiseError::InvalidParameter)
    ));
    assert!(matches!(
        Fbm::new().set_persistence(-65537),
        Err(NoiseError::InvalidParameter)
    ));
}

#[test]
fn validation_applies_to_every_variant() {
    assert!(matches!(
        HybridMulti::new().set_octaves(0),
        Err(NoiseError::InvalidParameter)
    ));
    assert!(matches!(
        RidgedMulti::new().set_frequency(0),
        Err(NoiseError::InvalidParameter)
    ));
}

#[test]
fn octave_bank_seeds_increment() {
    let sources = build_sources(7, 5);
    assert_eq!(sources.len(), 5);
    for (i, s) in sources.iter().enumerate() {
        assert_eq!(s.seed, 7 + i as u32);
    }
}

#[test]
fn octave_bank_seed_wraps_at_boundary() {
    let sources = build_sources(u32::MAX - 1, 3);
    assert_eq!(sources.len(), 3);
    assert_eq!(sources[0].seed, u32::MAX - 1);
    assert_eq!(sources[1].seed, u32::MAX);
    assert_eq!(sources[2].seed, 0);
}

#[test]
fn opensimplex_bank_seeds_increment_and_wrap() {
    let sources = build_opensimplex_sources(u32::MAX, 2);
    assert_eq!(sources.len(), 2);
    assert_eq!(sources[0].seed, u32::MAX);
    assert_eq!(sources[1].seed, 0);
}

#[test]
fn reseeding_rebuilds_the_bank() {
    let f = Fbm::new().set_seed(10);
    for (i, s) in f.sources.iter().enumerate() {
        assert_eq!(s.seed, 10 + i as u32);
    }
    let f = f.set_seed(11);
    for (i, s) in f.sources.iter().enumerate() {
        assert_eq!(s.seed, 11 + i as u32);
    }
}

#[test]
fn set_octaves_rebuilds_bank_and_ridged_weights() {
    let r = RidgedMulti::new().set_octaves(3).unwrap();
    assert_eq!(r.sources.len(), 3);
    assert_eq!(r.weights.len(), 3);
    // lacunarity 2.0: weights 1, 1/2, 1/4 in fixed point
    assert_eq!(r.weights[0], 65536);
    assert_eq!(r.weights[1], 32768);
    assert_eq!(r.weights[2], 16384);
    assert_eq!(r.wsum, 65536 + 32768 + 16384);
}

#[test]
fn ridged_weights_clamp_for_sub_unit_lacunarity() {
    // lacunarity 0.5 would double the weights; they are clamped at 1.0
    let r = RidgedMulti::new().set_lacunarity(32768).unwrap();
    for w in r.weights.iter() {
        assert_eq!(*w, 65536);
    }
}
