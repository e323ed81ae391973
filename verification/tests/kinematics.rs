use gimbal_motion::gimbal::{Axis, Gimbal};
use gimbal_motion::motor::{delay_micros, num_steps, steps_per_degree, steps_per_second};
use gimbal_motion::mv::Move;

#[test]
fn steps_per_degree_exact_rational() {
    // (16 / 128) * (200 / 360) as an exact fraction.
    let spd = steps_per_degree(16, 128);
    assert_eq!(spd.num, 3200);
    assert_eq!(spd.den, 46080);
}

#[test]
fn steps_per_degree_deterministic() {
    let a = steps_per_degree(16, 128);
    let b = steps_per_degree(16, 128);
    assert_eq!(a, b);
}

#[test]
fn steps_per_degree_monotonic_in_drive() {
    // More drive teeth -> strictly larger ratio (same driven gear):
    // compare num/den by cross-multiplication.
    let lo = steps_per_degree(16, 128);
    let hi = steps_per_degree(32, 128);
    assert!((lo.num as u64) * (hi.den as u64) < (hi.num as u64) * (lo.den as u64));
}

#[test]
fn steps_per_degree_decreasing_in_driven() {
    // More driven teeth -> strictly smaller ratio (same drive gear).
    let few = steps_per_degree(16, 128);
    let many = steps_per_degree(16, 160);
    assert!((many.num as u64) * (few.den as u64) < (few.num as u64) * (many.den as u64));
}

#[test]
fn num_steps_floor_formula() {
    let spd = steps_per_degree(16, 128);
    // floor(90 * (16/128) * (200/360)) = floor(6.25) = 6
    assert_eq!(num_steps(90_000, &spd), 6);
    // 0 degrees -> 0 steps
    assert_eq!(num_steps(0, &spd), 0);
    // floor(72 * 0.069444...) = floor(5.0) = 5 exactly
    assert_eq!(num_steps(72_000, &spd), 5);
}

#[test]
fn num_steps_monotonic_in_degrees() {
    let spd = steps_per_degree(16, 128);
    let mut prev = 0u64;
    for deg_milli in [0u32, 1_000, 10_000, 72_000, 90_000, 360_000, 720_000] {
        let n = num_steps(deg_milli, &spd);
        assert!(n >= prev);
        prev = n;
    }
}

#[test]
fn delay_micros_floor_of_half_period() {
    // floor(1_000_000 / (2 * 2)) = 250_000
    assert_eq!(delay_micros(2), 250_000);
    // floor(1_000_000 / (2 * 3)) = 166_666
    assert_eq!(delay_micros(3), 166_666);
    assert_eq!(delay_micros(1), 500_000);
    // At and beyond half a million steps per second the delay floors
    // to 1 and then 0.
    assert_eq!(delay_micros(500_000), 1);
    assert_eq!(delay_micros(500_001), 0);
}

#[test]
fn delay_times_rate_within_one_period_of_a_second() {
    // 2 * delay * sps lands within one period (2 * sps counts) below
    // 1_000_000, and never above it.
    for sps in [1u64, 2, 3, 7, 100, 12_345, 499_999, 500_000] {
        let d = delay_micros(sps) as u64;
        let total = 2 * d * sps;
        assert!(total <= 1_000_000);
        assert!(1_000_000 < total + 2 * sps);
    }
}

#[test]
fn zero_rate_move_performs_no_pulses() {
    let mut g = Gimbal::new(128, 16, 160, 16);
    // 1 milli-degree/s floors to a step rate of 0: a no-op move.
    let m = Move { degrees_milli: 90_000, velocity_milli: 1, fwd: true };
    let plan = g.mv(m, Axis::Pan).unwrap();
    assert_eq!(plan.num_pulses, 0);
    assert_eq!(g.pos_steps, (0, 0));
}

#[test]
fn steps_per_second_floor_formula() {
    let spd = steps_per_degree(16, 128);
    // floor(30 * 0.069444...) = floor(2.083...) = 2
    assert_eq!(steps_per_second(30_000, &spd), 2);
}

#[test]
fn end_to_end_pan_scenario() {
    // Gear config pan drive=16 driven=128, 200 full steps/rev,
    // Move{degrees=90, velocity=30, fwd=true} on Pan: 6 steps.
    let mut g = Gimbal::new(128, 16, 160, 16);
    let m = Move { degrees_milli: 90_000, velocity_milli: 30_000, fwd: true };
    let plan = g.mv(m, Axis::Pan).unwrap();
    assert_eq!(plan.num_pulses, 6);
    assert_eq!(plan.delay_micros, 250_000);
    assert!(plan.dir_high);
    assert_eq!(plan.axis, Axis::Pan);
    assert_eq!(g.pos_steps, (6, 0));
}

#[test]
fn end_to_end_pan_scenario_keeps_tilt() {
    let mut g = Gimbal::new(128, 16, 160, 16);
    // Advance tilt first, then check a pan move leaves it alone.
    let tm = Move { degrees_milli: 360_000, velocity_milli: 60_000, fwd: false };
    g.mv(tm, Axis::Tilt).unwrap();
    let tilt_before = g.pos_steps.1;
    assert!(tilt_before > 0);
    let m = Move { degrees_milli: 90_000, velocity_milli: 30_000, fwd: true };
    g.mv(m, Axis::Pan).unwrap();
    assert_eq!(g.pos_steps, (6, tilt_before));
}

#[test]
fn reverse_move_still_advances_counter() {
    // The stored position model only ever adds steps; the direction
    // flag picks the pin level only.
    let mut g = Gimbal::new(128, 16, 160, 16);
    let m = Move { degrees_milli: 90_000, velocity_milli: 30_000, fwd: false };
    let plan = g.mv(m, Axis::Pan).unwrap();
    assert!(!plan.dir_high);
    assert_eq!(g.pos_steps, (6, 0));
}
