//! The volume model: linear loudness in fixed point, decibel conversion, and
//! the resolver that combines master volume, mute flag, category multiplier
//! and per-instance playback volume into one effective loudness.
//!
//! Linear volume is a `u64` in millionths: `VOLUME_SCALE` units stand for a
//! loudness of 1.0. Values above `VOLUME_SCALE` scale loudness beyond unity
//! and are accepted as given.

use vstd::prelude::*;
use vstd::arithmetic::div_mod::{
    lemma_basic_div, lemma_div_is_ordered, lemma_fundamental_div_mod_converse,
};
use vstd::arithmetic::mul::lemma_mul_upper_bound;

verus! {

/// Fixed-point scale for linear volume: this many units stand for 1.0.
pub const VOLUME_SCALE: u64 = 1_000_000;

/// A playback volume, either linear (in millionths) or in whole decibels.
#[derive(Clone, Copy, PartialEq, Eq, Structural, Debug)]
pub enum Volume {
    Linear(u64),
    Decibels(i64),
}

/// Fixed-point product of two linear volumes: `a * b / VOLUME_SCALE`.
pub open spec fn vol_mul(a: int, b: int) -> int {
    a * b / (VOLUME_SCALE as int)
}

/// Fixed-point product, saturating at `u64::MAX`.
pub open spec fn vol_mul_sat(a: int, b: int) -> int {
    if vol_mul(a, b) > u64::MAX { u64::MAX as int } else { vol_mul(a, b) }
}

/// Multiplies two linear volumes in fixed point, saturating at `u64::MAX`.
pub fn mul_volume(a: u64, b: u64) -> (r: u64)
    ensures
        r as int == vol_mul_sat(a as int, b as int),
{
    proof {
        lemma_mul_upper_bound(a as int, u64::MAX as int, b as int, u64::MAX as int);
        assert((u64::MAX as int) * (u64::MAX as int) <= u128::MAX as int) by (nonlinear_arith);
    }
    let p: u128 = ((a as u128) * (b as u128)) / (VOLUME_SCALE as u128);
    if p > (u64::MAX as u128) {
        u64::MAX
    } else {
        p as u64
    }
}

/// Ten to the `n`-th power, as a mathematical integer.
pub open spec fn pow10(n: nat) -> int
    decreases n,
{
    if n == 0 {
        1
    } else {
        10 * pow10((n - 1) as nat)
    }
}

pub proof fn lemma_pow10_pos(n: nat)
    ensures
        pow10(n) >= 1,
    decreases n,
{
    if n > 0 {
        lemma_pow10_pos((n - 1) as nat);
    }
}

pub proof fn lemma_pow10_monotone(a: nat, b: nat)
    requires
        a <= b,
    ensures
        pow10(a) <= pow10(b),
    decreases b,
{
    if a < b {
        lemma_pow10_monotone(a, (b - 1) as nat);
        lemma_pow10_pos((b - 1) as nat);
    }
}

/// `10^(r/20)` in millionths, for a remainder `r` of a decibel value modulo 20.
pub open spec fn db_fraction(r: int) -> int {
    if r <= 0 {
        1_000_000
    } else if r == 1 {
        1_122_018
    } else if r == 2 {
        1_258_925
    } else if r == 3 {
        1_412_538
    } else if r == 4 {
        1_584_893
    } else if r == 5 {
        1_778_279
    } else if r == 6 {
        1_995_262
    } else if r == 7 {
        2_238_721
    } else if r == 8 {
        2_511_886
    } else if r == 9 {
        2_818_383
    } else if r == 10 {
        3_162_278
    } else if r == 11 {
        3_548_134
    } else if r == 12 {
        3_981_072
    } else if r == 13 {
        4_466_836
    } else if r == 14 {
        5_011_872
    } else if r == 15 {
        5_623_413
    } else if r == 16 {
        6_309_573
    } else if r == 17 {
        7_079_458
    } else if r == 18 {
        7_943_282
    } else {
        8_912_509
    }
}

/// The linear volume (in millionths) for `db` whole decibels: `10^(db/20)`,
/// computed in fixed point by splitting `db` into a whole number of decades
/// and a fractional part taken from `db_fraction`.
pub open spec fn db_to_linear(db: int) -> int {
    let q = db / 20;
    let r = db % 20;
    if q >= 0 {
        db_fraction(r) * pow10(q as nat)
    } else {
        db_fraction(r) / pow10((-q) as nat)
    }
}

fn pow10_u64(n: u64) -> (r: u64)
    requires
        n <= 19,
    ensures
        r as int == pow10(n as nat),
{
    let mut i: u64 = 0;
    let mut acc: u64 = 1;
    while i < n
        invariant
            i <= n <= 19,
            acc as int == pow10(i as nat),
        decreases n - i,
    {
        proof {
            lemma_pow10_monotone((i + 1) as nat, 19);
            reveal_with_fuel(pow10, 20);
            assert(pow10(19) == 10_000_000_000_000_000_000);
        }
        acc = acc * 10;
        i = i + 1;
    }
    acc
}

fn db_fraction_u64(r: u64) -> (f: u64)
    requires
        r < 20,
    ensures
        f as int == db_fraction(r as int),
{
    if r == 0 {
        1_000_000
    } else if r == 1 {
        1_122_018
    } else if r == 2 {
        1_258_925
    } else if r == 3 {
        1_412_538
    } else if r == 4 {
        1_584_893
    } else if r == 5 {
        1_778_279
    } else if r == 6 {
        1_995_262
    } else if r == 7 {
        2_238_721
    } else if r == 8 {
        2_511_886
    } else if r == 9 {
        2_818_383
    } else if r == 10 {
        3_162_278
    } else if r == 11 {
        3_548_134
    } else if r == 12 {
        3_981_072
    } else if r == 13 {
        4_466_836
    } else if r == 14 {
        5_011_872
    } else if r == 15 {
        5_623_413
    } else if r == 16 {
        6_309_573
    } else if r == 17 {
        7_079_458
    } else if r == 18 {
        7_943_282
    } else {
        8_912_509
    }
}

/// Converts whole decibels to a linear volume in millionths: `10^(db/20)`.
///
/// The upper bound on `db` keeps the result within `u64`; any attenuation,
/// however deep, is accepted and rounds to zero below about -121 dB.
pub fn decibel_to_linear(db: i64) -> (r: u64)
    requires
        db <= 240,
    ensures
        r as int == db_to_linear(db as int),
{
    if db >= 0 {
        let q: u64 = (db as u64) / 20;
        let rr: u64 = (db as u64) % 20;
        let f = db_fraction_u64(rr);
        let p = pow10_u64(q);
        proof {
            lemma_pow10_monotone(q as nat, 12);
            reveal_with_fuel(pow10, 13);
            assert(pow10(12) == 1_000_000_000_000);
            lemma_mul_upper_bound(f as int, 8_912_509, p as int, 1_000_000_000_000);
        }
        f * p
    } else if db <= -121 {
        proof {
            lemma_div_is_ordered(db as int, -121, 20);
            assert((-121) / 20 == -7);
            let q = db as int / 20;
            lemma_pow10_monotone(7, (-q) as nat);
            reveal_with_fuel(pow10, 8);
            assert(pow10(7) == 10_000_000);
            lemma_basic_div(db_fraction(db as int % 20), pow10((-q) as nat));
        }
        0
    } else {
        let m: u64 = (-db) as u64;
        let qm: u64 = m / 20;
        let rm: u64 = m % 20;
        if rm == 0 {
            let p = pow10_u64(qm);
            proof {
                lemma_fundamental_div_mod_converse(db as int, 20, -(qm as int), 0);
                lemma_pow10_pos(qm as nat);
            }
            1_000_000u64 / p
        } else {
            let p = pow10_u64(qm + 1);
            proof {
                lemma_fundamental_div_mod_converse(
                    db as int,
                    20,
                    -(qm as int) - 1,
                    20 - (rm as int),
                );
                lemma_pow10_pos((qm + 1) as nat);
            }
            db_fraction_u64(20 - rm) / p
        }
    }
}

/// The linear value of a `Volume`, converting decibels through `db_to_linear`.
pub open spec fn linear_of(v: Volume) -> int {
    match v {
        Volume::Linear(x) => x as int,
        Volume::Decibels(db) => db_to_linear(db as int),
    }
}

/// A volume the engine can evaluate: decibel values are bounded so that the
/// converted linear volume fits in `u64`.
pub open spec fn volume_wf(v: Volume) -> bool {
    match v {
        Volume::Linear(_) => true,
        Volume::Decibels(db) => db <= 240,
    }
}

/// Extracts the linear volume in millionths from a `Volume`.
pub fn extract_linear_volume(volume: Volume) -> (r: u64)
    requires
        volume_wf(volume),
    ensures
        r as int == linear_of(volume),
{
    match volume {
        Volume::Linear(v) => v,
        Volume::Decibels(db) => decibel_to_linear(db),
    }
}

/// The master volume after the mute flag: zero when muted.
pub open spec fn effective_spec(master: u64, muted: bool) -> int {
    if muted {
        0
    } else {
        master as int
    }
}

/// The resolved loudness of an instance: effective master volume times the
/// category multiplier times the instance's own playback volume.
pub open spec fn resolve_spec(effective: int, multiplier: int, playback: Volume) -> int {
    vol_mul_sat(vol_mul_sat(effective, multiplier), linear_of(playback))
}

/// Combines the effective master volume, a category multiplier and a playback
/// volume into one linear loudness value.
pub fn resolve_volume(effective: u64, multiplier: u64, playback: Volume) -> (r: u64)
    requires
        volume_wf(playback),
    ensures
        r as int == resolve_spec(effective as int, multiplier as int, playback),
{
    let base = mul_volume(effective, multiplier);
    mul_volume(base, extract_linear_volume(playback))
}

/// A muted configuration always resolves to silence, and an unmuted one
/// resolves to master times multiplier times playback volume, in saturating
/// fixed-point arithmetic.
pub proof fn lemma_resolve_of_mute(master: u64, muted: bool, multiplier: u64, playback: Volume)
    ensures
        muted ==> resolve_spec(effective_spec(master, muted), multiplier as int, playback) == 0,
        !muted ==> resolve_spec(effective_spec(master, muted), multiplier as int, playback)
            == vol_mul_sat(vol_mul_sat(master as int, multiplier as int), linear_of(playback)),
{
    if muted {
        assert(0 * (multiplier as int) == 0);
        assert(vol_mul(0, multiplier as int) == 0);
        assert(0 * linear_of(playback) == 0);
        assert(vol_mul(0, linear_of(playback)) == 0);
    }
}

/// Resolution yields silence exactly when the configuration is muted, as long
/// as the unmuted product itself is not zero.
pub proof fn lemma_resolve_zero_iff_muted(master: u64, muted: bool, multiplier: u64, playback: Volume)
    requires
        !muted ==> vol_mul_sat(vol_mul_sat(master as int, multiplier as int), linear_of(playback))
            > 0,
    ensures
        (resolve_spec(effective_spec(master, muted), multiplier as int, playback) == 0) <==> muted,
{
    lemma_resolve_of_mute(master, muted, multiplier, playback);
}

} // verus!
