//! The gimbal controller: position state, gear configuration, and the
//! translation of one `Move` into a pulse plan.
//!
//! The controller owns the step counters and the per-axis gear pairs.
//! Executing a move is split from the hardware: `mv` computes the step
//! count, the step rate and the pulse timing, advances the stored
//! position, and returns a [`PulsePlan`] that the caller drives onto
//! the step/direction lines.  Pin access and busy-wait delays live with
//! the caller; everything the plan says about counts and timing is
//! decided here.

use vstd::prelude::*;
use crate::error::ServerError;
use crate::motor::{
    delay_micros, delay_micros_spec, num_steps, spd_den, spd_num, steps_of_milli,
    steps_per_degree, steps_per_second, StepsPerDegree,
};
use crate::mv::Move;

verus! {

/// One of the two rotational degrees of freedom.
#[derive(Clone, Copy, PartialEq, Eq, Structural, Debug)]
pub enum Axis {
    Pan,
    Tilt,
}

/// The pulse train one accepted move asks the hardware for: set the
/// axis's direction pin to `dir_high`, then `num_pulses` times drive
/// the step pin high, wait `delay_micros` microseconds, drive it low,
/// and wait `delay_micros` again.
#[derive(Clone, Copy, PartialEq, Eq, Structural, Debug)]
pub struct PulsePlan {
    pub axis: Axis,
    pub dir_high: bool,
    pub num_pulses: u32,
    pub delay_micros: u32,
}

/// Gimbal position state and gear configuration.
///
/// `pos_steps` is the pair of step counters `(pan, tilt)`; a move only
/// ever adds the pulses it performs.  `last_error`, once set, halts the
/// controller: further moves are dropped until the process restarts.
pub struct Gimbal {
    pub pos_steps: (u32, u32),
    pub pan_teeth: u16,
    pub tilt_teeth: u16,
    pub pan_drive_teeth: u16,
    pub tilt_drive_teeth: u16,
    pub last_error: Option<String>,
}

impl Gimbal {
    /// Driven (output pulley) tooth count of an axis.
    pub open spec fn driven_teeth(&self, axis: Axis) -> u16 {
        match axis {
            Axis::Pan => self.pan_teeth,
            Axis::Tilt => self.tilt_teeth,
        }
    }

    /// Drive (motor pulley) tooth count of an axis.
    pub open spec fn drive_teeth(&self, axis: Axis) -> u16 {
        match axis {
            Axis::Pan => self.pan_drive_teeth,
            Axis::Tilt => self.tilt_drive_teeth,
        }
    }

    /// Both gear pairs have non-zero tooth counts.
    pub open spec fn wf(&self) -> bool {
        &&& self.drive_teeth(Axis::Pan) > 0
        &&& self.driven_teeth(Axis::Pan) > 0
        &&& self.drive_teeth(Axis::Tilt) > 0
        &&& self.driven_teeth(Axis::Tilt) > 0
    }

    /// The step counter of an axis.
    pub open spec fn pos_of(&self, axis: Axis) -> u32 {
        match axis {
            Axis::Pan => self.pos_steps.0,
            Axis::Tilt => self.pos_steps.1,
        }
    }

    /// Steps the move covers on this axis:
    /// `floor(degrees * steps_per_degree)` in milli-degree fixed point.
    pub open spec fn move_steps(&self, m: Move, axis: Axis) -> int {
        steps_of_milli(
            m.degrees_milli as int,
            spd_num(self.drive_teeth(axis)),
            spd_den(self.driven_teeth(axis)),
        )
    }

    /// Step rate of the move on this axis, in steps per second:
    /// `floor(velocity * steps_per_degree)`.
    pub open spec fn move_rate(&self, m: Move, axis: Axis) -> int {
        steps_of_milli(
            m.velocity_milli as int,
            spd_num(self.drive_teeth(axis)),
            spd_den(self.driven_teeth(axis)),
        )
    }

    /// A gimbal configured with the given gear pairs, at position
    /// `(0, 0)`, with no recorded error.
    pub fn new(
        pan_teeth: u16,
        pan_drive_teeth: u16,
        tilt_teeth: u16,
        tilt_drive_teeth: u16,
    ) -> (r: Gimbal)
        requires
            pan_teeth > 0,
            pan_drive_teeth > 0,
            tilt_teeth > 0,
            tilt_drive_teeth > 0,
        ensures
            r.wf(),
            r.pos_steps == (0u32, 0u32),
            r.last_error is None,
            r.driven_teeth(Axis::Pan) == pan_teeth,
            r.drive_teeth(Axis::Pan) == pan_drive_teeth,
            r.driven_teeth(Axis::Tilt) == tilt_teeth,
            r.drive_teeth(Axis::Tilt) == tilt_drive_teeth,
    {
        Gimbal {
            pos_steps: (0, 0),
            pan_teeth,
            tilt_teeth,
            pan_drive_teeth,
            tilt_drive_teeth,
            last_error: None,
        }
    }

    fn steps_per_degree_pan(&self) -> (r: StepsPerDegree)
        requires
            self.wf(),
        ensures
            r.num == spd_num(self.drive_teeth(Axis::Pan)),
            r.den == spd_den(self.driven_teeth(Axis::Pan)),
            r.num > 0,
            r.den > 0,
    {
        steps_per_degree(self.pan_drive_teeth, self.pan_teeth)
    }

    fn steps_per_degree_tilt(&self) -> (r: StepsPerDegree)
        requires
            self.wf(),
        ensures
            r.num == spd_num(self.drive_teeth(Axis::Tilt)),
            r.den == spd_den(self.driven_teeth(Axis::Tilt)),
            r.num > 0,
            r.den > 0,
    {
        steps_per_degree(self.tilt_drive_teeth, self.tilt_teeth)
    }

    /// Apply one move to this axis: reject a malformed or out-of-range
    /// move untouched, otherwise advance the axis's step counter by the
    /// pulses of the returned plan.  A zero step rate performs no
    /// pulses and leaves the position unchanged (a no-op move).
    pub fn mv(&mut self, m: Move, axis: Axis) -> (r: Result<PulsePlan, ServerError>)
        requires
            old(self).wf(),
        ensures
            final(self).wf(),
            same_config(*old(self), *final(self)),
            final(self).last_error == old(self).last_error,
            r is Ok <==> move_accepted(*old(self), m, axis),
            !move_accepted(*old(self), m, axis) ==> *final(self) == *old(self) && (
                r matches Err(e) && e matches ServerError::BadInput(_)),
            move_accepted(*old(self), m, axis) ==> ({
                let plan = plan_of(*old(self), m, axis);
                &&& r == Ok::<PulsePlan, ServerError>(plan)
                &&& final(self).pos_steps.0 == old(self).pos_steps.0 + (
                    if axis is Pan { plan.num_pulses as int } else { 0int })
                &&& final(self).pos_steps.1 == old(self).pos_steps.1 + (
                    if axis is Tilt { plan.num_pulses as int } else { 0int })
            }),
    {
        if m.velocity_milli == 0 {
            return Err(ServerError::BadInput(String::from_str("velocity must be positive")));
        }
        let spd = match axis {
            Axis::Pan => self.steps_per_degree_pan(),
            Axis::Tilt => self.steps_per_degree_tilt(),
        };
        let steps = num_steps(m.degrees_milli, &spd);
        let pos = match axis {
            Axis::Pan => self.pos_steps.0,
            Axis::Tilt => self.pos_steps.1,
        };
        if steps > (u32::MAX - pos) as u64 {
            return Err(ServerError::BadInput(String::from_str("move exceeds position range")));
        }
        let rate = steps_per_second(m.velocity_milli, &spd);
        if rate == 0 {
            return Ok(PulsePlan { axis, dir_high: m.fwd, num_pulses: 0, delay_micros: 0 });
        }
        let delay = delay_micros(rate);
        let pulses = steps as u32;
        match axis {
            Axis::Pan => {
                self.pos_steps = (self.pos_steps.0 + pulses, self.pos_steps.1);
            }
            Axis::Tilt => {
                self.pos_steps = (self.pos_steps.0, self.pos_steps.1 + pulses);
            }
        }
        Ok(PulsePlan { axis, dir_high: m.fwd, num_pulses: pulses, delay_micros: delay })
    }
}

/// The two gimbals carry the same gear configuration.
pub open spec fn same_config(a: Gimbal, b: Gimbal) -> bool {
    &&& a.drive_teeth(Axis::Pan) == b.drive_teeth(Axis::Pan)
    &&& a.driven_teeth(Axis::Pan) == b.driven_teeth(Axis::Pan)
    &&& a.drive_teeth(Axis::Tilt) == b.drive_teeth(Axis::Tilt)
    &&& a.driven_teeth(Axis::Tilt) == b.driven_teeth(Axis::Tilt)
}

/// A move the controller takes on: its velocity is positive and its
/// step count keeps the axis's counter within range.
pub open spec fn move_accepted(g: Gimbal, m: Move, axis: Axis) -> bool {
    m.valid() && g.move_steps(m, axis) + g.pos_of(axis) <= u32::MAX
}

/// The pulse train an accepted move turns into.  A zero step rate
/// yields zero pulses (the divide-by-zero guard of the generator);
/// otherwise the plan carries the full step count and the half-period
/// `floor(1_000_000 / (2 * rate))` microseconds.
pub open spec fn plan_of(g: Gimbal, m: Move, axis: Axis) -> PulsePlan
    recommends
        move_accepted(g, m, axis),
{
    let steps = g.move_steps(m, axis);
    let rate = g.move_rate(m, axis);
    if rate == 0 {
        PulsePlan { axis, dir_high: m.fwd, num_pulses: 0, delay_micros: 0 }
    } else {
        PulsePlan {
            axis,
            dir_high: m.fwd,
            num_pulses: steps as u32,
            delay_micros: delay_micros_spec(rate) as u32,
        }
    }
}

} // verus!
