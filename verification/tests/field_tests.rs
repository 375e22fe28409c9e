//! Field-behavior tests: determinism, seed independence, octave decay,
//! frequency scaling, output ranges, and the relations between variants.

use noise::basicmulti::BasicMulti;
use noise::billow::Billow;
use noise::fbm::Fbm;
use noise::fbm_opensimplex::Fbm_OpenSimplex;
use noise::fractals::{MultiFractal, NoiseFn, Seedable};
use noise::hybridmulti::HybridMulti;
use noise::kernel::{OpenSimplex, Perlin};
use noise::ridgedmulti::RidgedMulti;

const UNIT: i64 = 65536;

fn grid() -> Vec<[i64; 2]> {
    let mut points = Vec::new();
    for i in 0..10i64 {
        for j in 0..10i64 {
            points.push([i * 37641 - 180000, j * 41389 - 200000]);
        }
    }
    points
}

#[test]
fn two_evaluations_are_bit_identical() {
    let f = Fbm::new().set_seed(5);
    for p in grid() {
        assert_eq!(f.get(p), f.get(p));
    }
}

#[test]
fn equal_configurations_agree_everywhere() {
    let a = Fbm::new().set_seed(42).set_octaves(4).unwrap();
    let b = Fbm::new().set_seed(42).set_octaves(4).unwrap();
    for p in grid() {
        assert_eq!(a.get(p), b.get(p));
    }
}

#[test]
fn different_seeds_give_different_fields() {
    let a = Fbm::new().set_seed(1);
    let b = Fbm::new().set_seed(2);
    let points = grid();
    let equal = points.iter().filter(|p| a.get(**p) == b.get(**p)).count();
    // statistically independent fields: at least 95% of samples differ
    assert!(equal * 20 <= points.len());
}

#[test]
fn octave_decay_bounds_the_added_octave() {
    // persistence 0.5: the amplitude of octave n is UNIT >> n
    for n in 1..7usize {
        let shorter = BasicMulti::new().set_seed(9).set_octaves(n).unwrap();
        let longer = BasicMulti::new().set_seed(9).set_octaves(n + 1).unwrap();
        let amp = UNIT >> n;
        for p in grid() {
            let d = (longer.get(p) - shorter.get(p)).abs();
            assert!(d <= amp);
        }
    }
}

#[test]
fn single_octave_ignores_lacunarity() {
    // octave 0 samples at the base frequency; lacunarity first acts on
    // octave 1, so a one-octave field is independent of it
    let a = Fbm::new().set_octaves(1).unwrap();
    let b = Fbm::new()
        .set_octaves(1)
        .unwrap()
        .set_lacunarity(4 * UNIT)
        .unwrap();
    for p in grid() {
        assert_eq!(a.get(p), b.get(p));
    }
}

#[test]
fn doubling_lacunarity_changes_higher_octaves() {
    let a = Fbm::new().set_seed(3);
    let b = Fbm::new().set_seed(3).set_lacunarity(4 * UNIT).unwrap();
    let points = grid();
    let equal = points.iter().filter(|p| a.get(**p) == b.get(**p)).count();
    assert!(equal * 20 <= points.len());
}

#[test]
fn ridged_output_stays_in_unit_range() {
    for seed in 0..20u32 {
        let r = RidgedMulti::new().set_seed(seed);
        for p in grid() {
            let v = r.get(p);
            assert!(-UNIT <= v && v <= UNIT);
        }
    }
}

#[test]
fn hybrid_output_is_bounded_by_damped_weights() {
    // the internal weight is clamped into [0, 1], so no octave can
    // contribute more than one unit
    for seed in 0..10u32 {
        let h = HybridMulti::new().set_seed(seed);
        let bound = h.octaves as i64 * UNIT;
        for p in grid() {
            let v = h.get(p);
            assert!(-bound <= v && v <= bound);
        }
    }
}

#[test]
fn fbm_is_half_of_basicmulti() {
    let f = Fbm::new().set_seed(13);
    let m = BasicMulti::new().set_seed(13);
    for p in grid() {
        assert_eq!(f.get(p), m.get(p) / 2);
    }
}

#[test]
fn billow_differs_from_fbm() {
    let f = Fbm::new().set_seed(8);
    let b = Billow::new().set_seed(8);
    let points = grid();
    let equal = points.iter().filter(|p| f.get(**p) == b.get(**p)).count();
    assert!(equal * 20 <= points.len());
}

#[test]
fn opensimplex_kernel_differs_from_perlin() {
    let f = Fbm::new().set_seed(8);
    let o = Fbm_OpenSimplex::new().set_seed(8);
    let points = grid();
    let equal = points.iter().filter(|p| f.get(**p) == o.get(**p)).count();
    assert!(equal * 20 <= points.len());
}

#[test]
fn variants_are_bounded_by_their_octave_sum() {
    let f = Fbm::new().set_seed(21);
    let bound = f.octaves as i64 * UNIT;
    for p in grid() {
        let v = f.get(p);
        assert!(-bound <= v && v <= bound);
    }
}

#[test]
fn primitive_kernels_are_deterministic_and_bounded() {
    let p = Perlin::new(3);
    let o = OpenSimplex::new().set_seed(3);
    let points = grid();
    for q in &points {
        assert_eq!(p.get(*q), p.get(*q));
        assert!(-UNIT <= p.get(*q) && p.get(*q) <= UNIT);
        assert!(-UNIT <= o.get(*q) && o.get(*q) <= UNIT);
    }
    let equal = points.iter().filter(|q| p.get(**q) == o.get(**q)).count();
    assert!(equal * 20 <= points.len());
}

#[test]
fn end_to_end_fbm_scenario() {
    let make = || {
        Fbm::new()
            .set_seed(1)
            .set_octaves(6)
            .unwrap()
            .set_frequency(UNIT)
            .unwrap()
            .set_lacunarity(2 * UNIT)
            .unwrap()
            .set_persistence(UNIT / 2)
            .unwrap()
    };
    let a = make();
    let b = make();
    let origin = [0i64, 0i64];
    let one_one = [UNIT, UNIT];
    assert_eq!(a.get(origin), b.get(origin));
    assert_eq!(a.get(one_one), b.get(one_one));
    assert_ne!(a.get(origin), a.get(one_one));
}
