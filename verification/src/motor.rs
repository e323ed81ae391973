//! Axis kinematics: gear ratio to steps-per-degree, step counts and
//! pulse timing.
//!
//! The motor advances `FULL_STEPS_PER_REV` steps per revolution of its
//! own shaft; the output shaft turns through a reduction of
//! `drive_teeth : driven_teeth`.  Steps-per-degree is therefore the
//! exact rational `drive_teeth * FULL_STEPS_PER_REV / (driven_teeth * 360)`,
//! kept as a numerator/denominator pair so that every conversion is an
//! exact floor of a rational, with no rounding drift.  Angles and rates
//! come in as thousandths of a degree (per second), so fractional
//! degrees are representable without floating point.

use vstd::prelude::*;
use vstd::arithmetic::div_mod::{
    lemma_basic_div, lemma_div_is_ordered, lemma_div_is_ordered_by_denominator,
    lemma_div_pos_is_pos, lemma_fundamental_div_mod, lemma_mod_bound,
};
use vstd::arithmetic::mul::{
    lemma_mul_inequality, lemma_mul_is_commutative, lemma_mul_strict_inequality,
    lemma_mul_upper_bound,
};

verus! {

/// Full steps per motor shaft revolution (200 = 1.8 degrees per step,
/// no microstepping).
pub const FULL_STEPS_PER_REV: u32 = 200;

/// Thousandths in one unit: angles and rates are carried in
/// milli-degrees and milli-degrees per second.
pub const MILLI: u32 = 1000;

/// Steps-per-degree for one axis, as an exact rational
/// `num / den = (drive_teeth * FULL_STEPS_PER_REV) / (driven_teeth * 360)`.
#[derive(Clone, Copy, PartialEq, Eq, Structural, Debug)]
pub struct StepsPerDegree {
    pub num: u32,
    pub den: u32,
}

/// Numerator of the steps-per-degree rational for a drive gear.
pub open spec fn spd_num(drive_teeth: u16) -> int {
    drive_teeth * FULL_STEPS_PER_REV
}

/// Denominator of the steps-per-degree rational for a driven gear.
pub open spec fn spd_den(driven_teeth: u16) -> int {
    driven_teeth * 360
}

/// Steps covered by `milli` thousandths of a degree at `num / den`
/// steps per degree: `floor(milli * num / (den * 1000))`.
pub open spec fn steps_of_milli(milli: int, num: int, den: int) -> int {
    (milli * num) / (den * MILLI)
}

/// Half-period of the step square wave, in microseconds, for a step
/// rate of `sps` steps per second: `floor(1_000_000 / (2 * sps))`.
pub open spec fn delay_micros_spec(sps: int) -> int
    recommends
        sps > 0,
{
    1_000_000int / (2 * sps)
}

/// Steps-per-degree of a gear pair, as the exact rational
/// `(drive_teeth / driven_teeth) * (FULL_STEPS_PER_REV / 360)`.
pub fn steps_per_degree(drive_teeth: u16, driven_teeth: u16) -> (r: StepsPerDegree)
    requires
        drive_teeth > 0,
        driven_teeth > 0,
    ensures
        r.num == spd_num(drive_teeth),
        r.den == spd_den(driven_teeth),
        r.num > 0,
        r.den > 0,
{
    StepsPerDegree { num: drive_teeth as u32 * FULL_STEPS_PER_REV, den: driven_teeth as u32 * 360 }
}

/// Steps needed for a rotation of `degrees_milli` thousandths of a
/// degree: the floor of the exact rational product.
pub fn num_steps(degrees_milli: u32, spd: &StepsPerDegree) -> (r: u64)
    requires
        spd.den > 0,
    ensures
        r == steps_of_milli(degrees_milli as int, spd.num as int, spd.den as int),
{
    scaled_steps(degrees_milli, spd)
}

/// Step rate, in steps per second, for a rotation rate of
/// `velocity_milli` thousandths of a degree per second.
pub fn steps_per_second(velocity_milli: u32, spd: &StepsPerDegree) -> (r: u64)
    requires
        spd.den > 0,
    ensures
        r == steps_of_milli(velocity_milli as int, spd.num as int, spd.den as int),
{
    scaled_steps(velocity_milli, spd)
}

fn scaled_steps(milli: u32, spd: &StepsPerDegree) -> (r: u64)
    requires
        spd.den > 0,
    ensures
        r == steps_of_milli(milli as int, spd.num as int, spd.den as int),
{
    proof {
        lemma_mul_upper_bound(milli as int, u32::MAX as int, spd.num as int, u32::MAX as int);
        lemma_mul_upper_bound(spd.den as int, u32::MAX as int, MILLI as int, MILLI as int);
        lemma_div_pos_is_pos(milli as int * spd.num as int, spd.den as int * MILLI as int);
        lemma_div_is_ordered_by_denominator(
            milli as int * spd.num as int,
            1,
            spd.den as int * MILLI as int,
        );
    }
    (milli as u64 * spd.num as u64) / (spd.den as u64 * MILLI as u64)
}

/// Half-period of the step square wave for a step rate of
/// `steps_per_second` steps per second.  A rate above half a million
/// steps per second floors to a zero delay.
pub fn delay_micros(steps_per_second: u64) -> (r: u32)
    requires
        steps_per_second > 0,
    ensures
        r == delay_micros_spec(steps_per_second as int),
{
    if steps_per_second > 500_000 {
        proof {
            lemma_basic_div(1_000_000int, 2 * steps_per_second as int);
        }
        0
    } else {
        proof {
            lemma_div_pos_is_pos(1_000_000int, 2 * steps_per_second as int);
            lemma_div_is_ordered_by_denominator(1_000_000int, 2, 2 * steps_per_second as int);
        }
        (1_000_000u64 / (2 * steps_per_second)) as u32
    }
}

/// Steps-per-degree is strictly increasing in the drive tooth count:
/// against the same driven gear, more drive teeth give a strictly
/// larger rational value (compared by cross-multiplication).
pub proof fn lemma_spd_increasing_in_drive(drive1: u16, drive2: u16, driven: u16)
    requires
        0 < drive1 < drive2,
        0 < driven,
    ensures
        spd_num(drive1) * spd_den(driven) < spd_num(drive2) * spd_den(driven),
{
    lemma_mul_strict_inequality(drive1 as int, drive2 as int, FULL_STEPS_PER_REV as int);
    lemma_mul_is_commutative(drive1 as int, FULL_STEPS_PER_REV as int);
    lemma_mul_is_commutative(drive2 as int, FULL_STEPS_PER_REV as int);
    lemma_mul_strict_inequality(spd_num(drive1), spd_num(drive2), spd_den(driven));
    lemma_mul_is_commutative(spd_num(drive1), spd_den(driven));
    lemma_mul_is_commutative(spd_num(drive2), spd_den(driven));
}

/// Steps-per-degree is strictly decreasing in the driven tooth count:
/// with the same drive gear, more driven teeth give a strictly smaller
/// rational value; by cross-multiplication,
/// `num / spd_den(driven2) < num / spd_den(driven1)` reads
/// `num * spd_den(driven1) < num * spd_den(driven2)`.
pub proof fn lemma_spd_decreasing_in_driven(drive: u16, driven1: u16, driven2: u16)
    requires
        0 < drive,
        0 < driven1 < driven2,
    ensures
        spd_num(drive) * spd_den(driven1) < spd_num(drive) * spd_den(driven2),
{
    lemma_mul_strict_inequality(driven1 as int, driven2 as int, 360);
    lemma_mul_is_commutative(driven1 as int, 360);
    lemma_mul_is_commutative(driven2 as int, 360);
    assert(spd_num(drive) >= 200) by {
        lemma_mul_inequality(1, drive as int, FULL_STEPS_PER_REV as int);
        lemma_mul_is_commutative(drive as int, FULL_STEPS_PER_REV as int);
    }
    lemma_mul_strict_inequality(spd_den(driven1), spd_den(driven2), spd_num(drive));
    lemma_mul_is_commutative(spd_den(driven1), spd_num(drive));
    lemma_mul_is_commutative(spd_den(driven2), spd_num(drive));
}

/// The step count is monotonically non-decreasing in the requested
/// angle: turning further never takes fewer steps.
pub proof fn lemma_num_steps_monotone(deg1: int, deg2: int, num: int, den: int)
    requires
        0 <= deg1 <= deg2,
        num >= 0,
        den > 0,
    ensures
        steps_of_milli(deg1, num, den) <= steps_of_milli(deg2, num, den),
{
    lemma_mul_inequality(deg1, deg2, num);
    lemma_mul_upper_bound(den, den, MILLI as int, MILLI as int);
    lemma_div_is_ordered(deg1 * num, deg2 * num, den * MILLI as int);
}

/// The realized square wave stays within one half-period quantum of the
/// requested rate: a full step takes `2 * delay` microseconds, and
/// `2 * delay * sps` falls short of 1,000,000 microseconds by less than
/// one period `2 * sps` counts for.
pub proof fn lemma_delay_half_period(sps: int)
    requires
        0 < sps,
    ensures
        2 * delay_micros_spec(sps) * sps <= 1_000_000,
        1_000_000 < 2 * delay_micros_spec(sps) * sps + 2 * sps,
{
    let d = 2 * sps;
    lemma_fundamental_div_mod(1_000_000int, d);
    lemma_mod_bound(1_000_000int, d);
    assert(d * (1_000_000int / d) == 2 * (1_000_000int / d) * sps) by {
        lemma_mul_is_commutative(d, 1_000_000int / d);
        vstd::arithmetic::mul::lemma_mul_is_associative(2, 1_000_000int / d, sps);
        vstd::arithmetic::mul::lemma_mul_is_associative(2, sps, 1_000_000int / d);
        lemma_mul_is_commutative(sps, 1_000_000int / d);
    }
}

} // verus!
