//! The octave accumulation model shared by the additive fractal variants.
//!
//! A fractal query walks the octave bank in order, keeping a running
//! result, a per-octave amplitude (scaled by the persistence after every
//! octave) and a per-octave sampling frequency (scaled by the lacunarity
//! after every octave, modulo the lattice). The spec functions here are
//! the exact mathematical model of that walk; the executable loops return
//! precisely their value.

use vstd::prelude::*;
use vstd::arithmetic::div_mod::{
    lemma_div_multiples_vanish, lemma_mul_mod_noop_left, lemma_small_mod,
};
use vstd::arithmetic::power::{lemma_pow_distributes, pow};

use crate::fixed::{
    fmul_lat, fmul_lat_exec, fp_mul, lemma_mul_down_range, lemma_mul_down_scaled, mul_down,
    wrap64, SCALE,
};
use crate::fractals::{octave_seed, MAX_OCTAVES};
use crate::kernel::{
    lemma_cell_value_range, opensimplex_at, perlin_at, OpenSimplex, Perlin,
};

verus! {

/// Which primitive kernel an octave bank is built from.
#[derive(Clone, Copy, Debug, PartialEq, Eq, Structural)]
pub enum KernelKind {
    Perlin,
    OpenSimplex,
}

/// The chosen kernel's value at a lattice point.
pub open spec fn kernel_at(kind: KernelKind, seed: u32, ux: u64, uy: u64) -> int {
    match kind {
        KernelKind::Perlin => perlin_at(seed, ux, uy),
        KernelKind::OpenSimplex => opensimplex_at(seed, ux, uy),
    }
}

/// Every kernel value lies in `[-SCALE, SCALE]`.
pub proof fn lemma_kernel_range(kind: KernelKind, seed: u32, ux: u64, uy: u64)
    ensures
        -(SCALE as int) <= kernel_at(kind, seed, ux, uy) <= SCALE as int,
{
    match kind {
        KernelKind::Perlin => lemma_cell_value_range(
            seed,
            ux,
            uy,
            crate::kernel::PK1,
            crate::kernel::PK2,
            crate::kernel::PK3,
        ),
        KernelKind::OpenSimplex => lemma_cell_value_range(
            seed,
            ux,
            uy,
            crate::kernel::OK1,
            crate::kernel::OK2,
            crate::kernel::OK3,
        ),
    }
}

/// The sampling frequency of octave `i`: the base frequency scaled by the
/// lacunarity once per octave, in lattice (`mod 2^64`) space.
pub open spec fn freq_at(frequency: int, lacunarity: int, i: int) -> u64
    decreases i,
{
    if i <= 0 {
        wrap64(frequency)
    } else {
        fmul_lat(freq_at(frequency, lacunarity, i - 1), wrap64(lacunarity))
    }
}

/// The amplitude of octave `i`: one whole unit scaled by the persistence
/// once per octave.
pub open spec fn amp_at(persistence: int, i: int) -> int
    decreases i,
{
    if i <= 0 {
        SCALE as int
    } else {
        mul_down(amp_at(persistence, i - 1), persistence)
    }
}

/// For a persistence in `[-1, 1]` every octave amplitude stays in
/// `[-SCALE, SCALE]`.
pub proof fn lemma_amp_at_range(persistence: int, i: int)
    requires
        -(SCALE as int) <= persistence <= SCALE as int,
    ensures
        -(SCALE as int) <= amp_at(persistence, i) <= SCALE as int,
    decreases (if i <= 0 { 0int } else { i }),
{
    if i > 0 {
        lemma_amp_at_range(persistence, i - 1);
        lemma_mul_down_range(amp_at(persistence, i - 1), persistence);
    }
}

/// For a persistence in `[0, 1]` the octave amplitudes are nonnegative
/// and never increase.
pub proof fn lemma_amp_at_monotone(persistence: int, i: int)
    requires
        0 <= persistence <= SCALE as int,
    ensures
        0 <= amp_at(persistence, i) <= SCALE as int,
        i > 0 ==> amp_at(persistence, i) <= amp_at(persistence, i - 1),
    decreases (if i <= 0 { 0int } else { i }),
{
    if i > 0 {
        lemma_amp_at_monotone(persistence, i - 1);
        crate::fixed::lemma_mul_down_unit(amp_at(persistence, i - 1), persistence);
        assert(mul_down(amp_at(persistence, i - 1), persistence)
            == mul_down(persistence, amp_at(persistence, i - 1))) by {
            assert(amp_at(persistence, i - 1) * persistence
                == persistence * amp_at(persistence, i - 1));
        }
        lemma_mul_down_scaled(persistence, amp_at(persistence, i - 1));
    }
}

/// The raw kernel sample of octave `i`: the point scaled by the octave's
/// frequency, handed to the octave's independently seeded kernel.
pub open spec fn octave_sample(
    kind: KernelKind,
    seed: u32,
    frequency: int,
    lacunarity: int,
    ux: u64,
    uy: u64,
    i: int,
) -> int {
    let f = freq_at(frequency, lacunarity, i);
    kernel_at(kind, octave_seed(seed, i as u32), fmul_lat(ux, f), fmul_lat(uy, f))
}

/// The billow remap: fold a signed sample into a ridged-valley shape,
/// `2 * |v| - 1` in fixed point.
pub open spec fn billow_of(v: int) -> int {
    2 * (if v < 0 { -v } else { v }) - SCALE
}

/// The octave sum of the additive variants after `octaves` octaves: each
/// octave's (optionally billow-remapped) sample, scaled by the octave's
/// amplitude, added up.
pub open spec fn fractal_sum(
    kind: KernelKind,
    billow: bool,
    seed: u32,
    frequency: int,
    lacunarity: int,
    persistence: int,
    octaves: int,
    ux: u64,
    uy: u64,
) -> int
    decreases octaves,
{
    if octaves <= 0 {
        0
    } else {
        let i = octaves - 1;
        let v = octave_sample(kind, seed, frequency, lacunarity, ux, uy, i);
        let s = if billow {
            billow_of(v)
        } else {
            v
        };
        fractal_sum(kind, billow, seed, frequency, lacunarity, persistence, i, ux, uy)
            + mul_down(s, amp_at(persistence, i))
    }
}

/// An octave's (possibly remapped) sample lies in `[-SCALE, SCALE]`.
pub proof fn lemma_octave_term_range(
    kind: KernelKind,
    billow: bool,
    seed: u32,
    frequency: int,
    lacunarity: int,
    ux: u64,
    uy: u64,
    i: int,
)
    ensures
        ({
            let v = octave_sample(kind, seed, frequency, lacunarity, ux, uy, i);
            let s = if billow {
                billow_of(v)
            } else {
                v
            };
            -(SCALE as int) <= s <= SCALE as int
        }),
{
    let f = freq_at(frequency, lacunarity, i);
    lemma_kernel_range(kind, octave_seed(seed, i as u32), fmul_lat(ux, f), fmul_lat(uy, f));
}

/// The octave sum after `octaves` octaves lies in
/// `[-octaves * SCALE, octaves * SCALE]` whenever the persistence is in
/// `[-1, 1]`.
pub proof fn lemma_fractal_sum_range(
    kind: KernelKind,
    billow: bool,
    seed: u32,
    frequency: int,
    lacunarity: int,
    persistence: int,
    octaves: int,
    ux: u64,
    uy: u64,
)
    requires
        -(SCALE as int) <= persistence <= SCALE as int,
    ensures
        -(if octaves <= 0 { 0int } else { octaves }) * (SCALE as int)
            <= fractal_sum(kind, billow, seed, frequency, lacunarity, persistence, octaves, ux, uy)
            <= (if octaves <= 0 { 0int } else { octaves }) * (SCALE as int),
    decreases (if octaves <= 0 { 0int } else { octaves }),
{
    if octaves > 0 {
        let i = octaves - 1;
        lemma_fractal_sum_range(
            kind, billow, seed, frequency, lacunarity, persistence, i, ux, uy,
        );
        lemma_octave_term_range(kind, billow, seed, frequency, lacunarity, ux, uy, i);
        lemma_amp_at_range(persistence, i);
        let v = octave_sample(kind, seed, frequency, lacunarity, ux, uy, i);
        let s = if billow {
            billow_of(v)
        } else {
            v
        };
        lemma_mul_down_range(s, amp_at(persistence, i));
    }
}

/// Octave contributions shrink: adding one more octave moves the octave
/// sum by no more than the amplitude of that last octave. For a
/// persistence strictly inside the unit interval this is a strict decay
/// of per-octave influence.
pub proof fn lemma_octave_decay(
    kind: KernelKind,
    billow: bool,
    seed: u32,
    frequency: int,
    lacunarity: int,
    persistence: int,
    octaves: int,
    ux: u64,
    uy: u64,
)
    requires
        octaves >= 0,
        0 <= persistence <= SCALE as int,
    ensures
        ({
            let shorter = fractal_sum(
                kind, billow, seed, frequency, lacunarity, persistence, octaves, ux, uy,
            );
            let longer = fractal_sum(
                kind, billow, seed, frequency, lacunarity, persistence, octaves + 1, ux, uy,
            );
            let a = amp_at(persistence, octaves);
            -a <= longer - shorter <= a
        }),
{
    lemma_octave_term_range(kind, billow, seed, frequency, lacunarity, ux, uy, octaves);
    lemma_amp_at_monotone(persistence, octaves);
    let v = octave_sample(kind, seed, frequency, lacunarity, ux, uy, octaves);
    let s = if billow {
        billow_of(v)
    } else {
        v
    };
    lemma_mul_down_scaled(s, amp_at(persistence, octaves));
}

/// Walk a `Perlin` octave bank, returning exactly the octave sum of the
/// model, which stays within `octaves` whole units.
pub(crate) fn eval_fractal_perlin(
    seed: u32,
    sources: &Vec<Perlin>,
    billow: bool,
    frequency: i64,
    lacunarity: i64,
    persistence: i64,
    ux: u64,
    uy: u64,
) -> (r: i64)
    requires
        sources.len() <= MAX_OCTAVES,
        frequency > 0,
        lacunarity > 0,
        -SCALE <= persistence <= SCALE,
        forall|j: int| 0 <= j < sources.len() ==> sources[j].seed == octave_seed(seed, j as u32),
    ensures
        r as int == fractal_sum(
            KernelKind::Perlin,
            billow,
            seed,
            frequency as int,
            lacunarity as int,
            persistence as int,
            sources.len() as int,
            ux,
            uy,
        ),
        -(sources.len() as int) * (SCALE as int) <= r as int
            <= (sources.len() as int) * (SCALE as int),
{
    let mut result: i64 = 0;
    let mut amp: i64 = SCALE;
    let freq0: u64 = frequency as u64;
    let lac_u: u64 = lacunarity as u64;
    proof {
        lemma_small_mod(frequency as nat, 0x1_0000_0000_0000_0000nat);
        lemma_small_mod(lacunarity as nat, 0x1_0000_0000_0000_0000nat);
    }
    let mut freq: u64 = freq0;
    let n = sources.len();
    let mut i: usize = 0;
    while i < n
        invariant
            i <= n,
            n == sources.len(),
            n <= MAX_OCTAVES,
            frequency > 0,
            lacunarity > 0,
            -SCALE <= persistence <= SCALE,
            forall|j: int| 0 <= j < n ==> sources[j].seed == octave_seed(seed, j as u32),
            lac_u == wrap64(lacunarity as int),
            freq == freq_at(frequency as int, lacunarity as int, i as int),
            amp as int == amp_at(persistence as int, i as int),
            -SCALE <= amp <= SCALE,
            result as int == fractal_sum(
                KernelKind::Perlin,
                billow,
                seed,
                frequency as int,
                lacunarity as int,
                persistence as int,
                i as int,
                ux,
                uy,
            ),
            -(i as int) * (SCALE as int) <= result as int <= (i as int) * (SCALE as int),
        decreases n - i,
    {
        let sx = fmul_lat_exec(ux, freq);
        let sy = fmul_lat_exec(uy, freq);
        let v = sources[i].sample_lat(sx, sy);
        let s = if billow {
            let a = if v < 0 {
                -v
            } else {
                v
            };
            2 * a - SCALE
        } else {
            v
        };
        proof {
            assert(-0x4000_0000_0000_0000 <= s * amp <= 0x4000_0000_0000_0000)
                by (nonlinear_arith)
                requires
                    -65536 <= s <= 65536,
                    -65536 <= amp <= 65536,
            ;
            assert(-0x4000_0000_0000_0000 <= amp * persistence <= 0x4000_0000_0000_0000)
                by (nonlinear_arith)
                requires
                    -65536 <= amp <= 65536,
                    -65536 <= persistence <= 65536,
            ;
            lemma_mul_down_range(s as int, amp as int);
            lemma_mul_down_range(amp as int, persistence as int);
        }
        let term = fp_mul(s, amp);
        result = result + term;
        amp = fp_mul(amp, persistence);
        freq = fmul_lat_exec(freq, lac_u);
        i = i + 1;
    }
    result
}

/// Walk an `OpenSimplex` octave bank; the same loop as
/// `eval_fractal_perlin` over the other kernel.
pub(crate) fn eval_fractal_simplex(
    seed: u32,
    sources: &Vec<OpenSimplex>,
    billow: bool,
    frequency: i64,
    lacunarity: i64,
    persistence: i64,
    ux: u64,
    uy: u64,
) -> (r: i64)
    requires
        sources.len() <= MAX_OCTAVES,
        frequency > 0,
        lacunarity > 0,
        -SCALE <= persistence <= SCALE,
        forall|j: int| 0 <= j < sources.len() ==> sources[j].seed == octave_seed(seed, j as u32),
    ensures
        r as int == fractal_sum(
            KernelKind::OpenSimplex,
            billow,
            seed,
            frequency as int,
            lacunarity as int,
            persistence as int,
            sources.len() as int,
            ux,
            uy,
        ),
        -(sources.len() as int) * (SCALE as int) <= r as int
            <= (sources.len() as int) * (SCALE as int),
{
    let mut result: i64 = 0;
    let mut amp: i64 = SCALE;
    let freq0: u64 = frequency as u64;
    let lac_u: u64 = lacunarity as u64;
    proof {
        lemma_small_mod(frequency as nat, 0x1_0000_0000_0000_0000nat);
        lemma_small_mod(lacunarity as nat, 0x1_0000_0000_0000_0000nat);
    }
    let mut freq: u64 = freq0;
    let n = sources.len();
    let mut i: usize = 0;
    while i < n
        invariant
            i <= n,
            n == sources.len(),
            n <= MAX_OCTAVES,
            frequency > 0,
            lacunarity > 0,
            -SCALE <= persistence <= SCALE,
            forall|j: int| 0 <= j < n ==> sources[j].seed == octave_seed(seed, j as u32),
            lac_u == wrap64(lacunarity as int),
            freq == freq_at(frequency as int, lacunarity as int, i as int),
            amp as int == amp_at(persistence as int, i as int),
            -SCALE <= amp <= SCALE,
            result as int == fractal_sum(
                KernelKind::OpenSimplex,
                billow,
                seed,
                frequency as int,
                lacunarity as int,
                persistence as int,
                i as int,
                ux,
                uy,
            ),
            -(i as int) * (SCALE as int) <= result as int <= (i as int) * (SCALE as int),
        decreases n - i,
    {
        let sx = fmul_lat_exec(ux, freq);
        let sy = fmul_lat_exec(uy, freq);
        let v = sources[i].sample_lat(sx, sy);
        let s = if billow {
            let a = if v < 0 {
                -v
            } else {
                v
            };
            2 * a - SCALE
        } else {
            v
        };
        proof {
            assert(-0x4000_0000_0000_0000 <= s * amp <= 0x4000_0000_0000_0000)
                by (nonlinear_arith)
                requires
                    -65536 <= s <= 65536,
                    -65536 <= amp <= 65536,
            ;
            assert(-0x4000_0000_0000_0000 <= amp * persistence <= 0x4000_0000_0000_0000)
                by (nonlinear_arith)
                requires
                    -65536 <= amp <= 65536,
                    -65536 <= persistence <= 65536,
            ;
            lemma_mul_down_range(s as int, amp as int);
            lemma_mul_down_range(amp as int, persistence as int);
        }
        let term = fp_mul(s, amp);
        result = result + term;
        amp = fp_mul(amp, persistence);
        freq = fmul_lat_exec(freq, lac_u);
        i = i + 1;
    }
    result
}

/// Each octave's sampling frequency is the previous octave's scaled by
/// the lacunarity (one fixed-point lattice multiplication).
pub proof fn lemma_frequency_progression(frequency: int, lacunarity: int, i: int)
    requires
        i >= 0,
    ensures
        freq_at(frequency, lacunarity, i + 1)
            == fmul_lat(freq_at(frequency, lacunarity, i), wrap64(lacunarity)),
{
}

/// Closed form of the frequency ladder for a lacunarity that is a whole
/// number of units (`k * SCALE`, that is, the value `k`): octave `i`
/// samples at `frequency * k^i`, reduced into lattice space.
pub proof fn lemma_freq_at_closed_form(frequency: int, k: int, i: int)
    requires
        i >= 0,
        k >= 1,
        0 <= frequency,
        k * (SCALE as int) < 0x1_0000_0000_0000_0000,
    ensures
        freq_at(frequency, k * (SCALE as int), i) == wrap64(frequency * pow(k, i as nat)),
    decreases i,
{
    let m = 0x1_0000_0000_0000_0000int;
    let s = SCALE as int;
    let l = k * s;
    vstd::arithmetic::mul::lemma_mul_nonnegative(k, s);
    if i == 0 {
        assert(pow(k, 0nat) == 1) by {
            vstd::arithmetic::power::lemma_pow0(k);
        }
    } else {
        lemma_freq_at_closed_form(frequency, k, i - 1);
        let prev = freq_at(frequency, l, i - 1);
        let p = frequency * pow(k, (i - 1) as nat);
        vstd::arithmetic::power::lemma_pow_positive(k, (i - 1) as nat);
        vstd::arithmetic::mul::lemma_mul_nonnegative(frequency, pow(k, (i - 1) as nat));
        // prev == wrap64(p) == p % m
        lemma_small_mod((l % m) as nat, m as nat);
        assert(wrap64(l) == l) by {
            lemma_small_mod(l as nat, m as nat);
        }
        // (prev * l) / s == prev * k
        assert((prev * l) / s == prev * k) by {
            assert(prev * l == s * (prev * k)) by (nonlinear_arith)
                requires
                    l == k * s,
            ;
            lemma_div_multiples_vanish(prev * k, s);
        }
        // wrap64(prev * k) == wrap64(p * k)
        assert(((p % m) * k) % m == (p * k) % m) by {
            lemma_mul_mod_noop_left(p, k, m);
        }
        assert(p * k == frequency * pow(k, i as nat)) by {
            assert(pow(k, i as nat) == pow(k, (i - 1) as nat) * k) by {
                vstd::arithmetic::power::lemma_pow_adds(k, (i - 1) as nat, 1nat);
                vstd::arithmetic::power::lemma_pow1(k);
            }
            assert(frequency * (pow(k, (i - 1) as nat) * k)
                == (frequency * pow(k, (i - 1) as nat)) * k) by (nonlinear_arith);
        }
    }
}

/// Doubling the lacunarity (for a whole-number lacunarity) multiplies
/// octave `i`'s sampling frequency by `2^i`: the per-octave frequency
/// ladder scales multiplicatively with the lacunarity.
pub proof fn lemma_lacunarity_doubling(frequency: int, k: int, i: int)
    requires
        i >= 0,
        k >= 1,
        0 <= frequency,
        2 * k * (SCALE as int) < 0x1_0000_0000_0000_0000,
    ensures
        freq_at(frequency, 2 * k * (SCALE as int), i)
            == wrap64(freq_at(frequency, k * (SCALE as int), i) * pow(2, i as nat)),
{
    let m = 0x1_0000_0000_0000_0000int;
    lemma_freq_at_closed_form(frequency, k, i);
    assert(2 * k * (SCALE as int) == (2 * k) * (SCALE as int)) by (nonlinear_arith);
    lemma_freq_at_closed_form(frequency, 2 * k, i);
    let pk = pow(k, i as nat);
    let p2 = pow(2, i as nat);
    assert(pow(2 * k, i as nat) == p2 * pk) by {
        lemma_pow_distributes(2, k, i as nat);
    }
    vstd::arithmetic::power::lemma_pow_positive(2, i as nat);
    vstd::arithmetic::power::lemma_pow_positive(k, i as nat);
    vstd::arithmetic::mul::lemma_mul_nonnegative(frequency, pk);
    let fp = frequency * pk;
    assert(frequency * (p2 * pk) == fp * p2) by (nonlinear_arith)
        requires
            fp == frequency * pk,
    ;
    assert(((fp % m) * p2) % m == (fp * p2) % m) by {
        lemma_mul_mod_noop_left(fp, p2, m);
    }
}

} // verus!
