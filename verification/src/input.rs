//! Ramped control-axis values.
//!
//! Each of the six control axes carries a current intensity and a set-point,
//! both in thousandths of a unit, clamped to [-1000, 1000] (that is, to
//! [-1.0, 1.0] in axis units).  The current intensity moves toward the
//! set-point by at most `speed * time` per tick and never overshoots it.

use vstd::prelude::*;

pub mod bindings;
pub mod keyboard;

verus! {

/// One full unit of control-axis intensity, in thousandths.
pub const AXIS_UNIT: i32 = 1000;

/// Whether an intensity lies within one axis unit of zero.
pub open spec fn axis_bounded(v: int) -> bool {
    -(AXIS_UNIT as int) <= v <= AXIS_UNIT as int
}

/// An intensity clamped to the valid axis range.
pub open spec fn clamp_axis(v: int) -> int {
    if v < -(AXIS_UNIT as int) {
        -(AXIS_UNIT as int)
    } else if v > AXIS_UNIT as int {
        AXIS_UNIT as int
    } else {
        v
    }
}

/// The value a ramp reaches from `value` after moving toward `target` by at
/// most `step`: it advances the full `step` unless that would pass `target`,
/// in which case it stops exactly on `target`.
pub open spec fn ramp_step(value: int, target: int, step: int) -> int {
    if value < target {
        if value + step < target {
            value + step
        } else {
            target
        }
    } else if value > target {
        if value - step > target {
            value - step
        } else {
            target
        }
    } else {
        value
    }
}

/// A scalar that ramps toward a set-point at a bounded rate instead of
/// jumping to it.
pub struct GradientValue {
    /// The current intensity, in thousandths of a unit.
    pub value: i32,
    /// The set-point the current intensity ramps toward, in thousandths.
    pub set_value: i32,
    /// The ramp rate, in thousandths of a unit per time unit.
    pub speed: u32,
}

impl GradientValue {
    /// Both the current intensity and the set-point lie in the axis range.
    pub open spec fn wf(self) -> bool {
        axis_bounded(self.value as int) && axis_bounded(self.set_value as int)
    }

    /// The state after ramping for `time` time units.
    pub open spec fn spec_update(self, time: u32) -> GradientValue {
        GradientValue {
            value: ramp_step(
                self.value as int,
                self.set_value as int,
                (self.speed as int) * (time as int),
            ) as i32,
            ..self
        }
    }

    /// Returns a ramp at rest: intensity and set-point both zero.
    pub fn new(speed: u32) -> (g: GradientValue)
        ensures
            g.wf(),
            g.value == 0,
            g.set_value == 0,
            g.speed == speed,
    {
        GradientValue { value: 0, set_value: 0, speed }
    }

    /// Moves the current intensity toward the set-point by at most
    /// `speed * time`, stopping exactly on the set-point.
    pub fn update(&mut self, time: u32)
        requires
            old(self).wf(),
        ensures
            *final(self) == old(self).spec_update(time),
            final(self).wf(),
    {
        proof {
            assert((self.speed as int) * (time as int) <= 0xffff_ffff * 0xffff_ffff)
                by (nonlinear_arith)
                requires
                    self.speed <= 0xffff_ffffu32,
                    time <= 0xffff_ffffu32,
            ;
        }
        let raw: u64 = (self.speed as u64) * (time as u64);
        let step: i32 = if raw > 2 * (AXIS_UNIT as u64) {
            2 * AXIS_UNIT
        } else {
            raw as i32
        };
        if self.value < self.set_value {
            let moved = self.value + step;
            self.value = if moved < self.set_value {
                moved
            } else {
                self.set_value
            };
        } else if self.value > self.set_value {
            let moved = self.value - step;
            self.value = if moved > self.set_value {
                moved
            } else {
                self.set_value
            };
        }
    }
}

/// The six ramped control axes a camera consumes each frame.
pub struct Control {
    /// Forward/backward intensity.
    pub thrust: GradientValue,
    /// Left/right sidestep intensity.
    pub strafe: GradientValue,
    /// Up/down intensity.
    pub ascend: GradientValue,
    /// Turn left/right intensity.
    pub yaw: GradientValue,
    /// Pitch up/down intensity.
    pub pitch: GradientValue,
    /// Roll left/right intensity.
    pub roll: GradientValue,
}

impl Control {
    /// Every axis is well formed.
    pub open spec fn wf(self) -> bool {
        &&& self.thrust.wf()
        &&& self.strafe.wf()
        &&& self.ascend.wf()
        &&& self.yaw.wf()
        &&& self.pitch.wf()
        &&& self.roll.wf()
    }

    /// The state with every axis at rest and ramping at `gradient_speed`.
    pub open spec fn spec_init(gradient_speed: u32) -> Control {
        Control {
            thrust: GradientValue { value: 0, set_value: 0, speed: gradient_speed },
            strafe: GradientValue { value: 0, set_value: 0, speed: gradient_speed },
            ascend: GradientValue { value: 0, set_value: 0, speed: gradient_speed },
            yaw: GradientValue { value: 0, set_value: 0, speed: gradient_speed },
            pitch: GradientValue { value: 0, set_value: 0, speed: gradient_speed },
            roll: GradientValue { value: 0, set_value: 0, speed: gradient_speed },
        }
    }

    /// The state after every axis has ramped for `time` time units.
    pub open spec fn spec_update(self, time: u32) -> Control {
        Control {
            thrust: self.thrust.spec_update(time),
            strafe: self.strafe.spec_update(time),
            ascend: self.ascend.spec_update(time),
            yaw: self.yaw.spec_update(time),
            pitch: self.pitch.spec_update(time),
            roll: self.roll.spec_update(time),
        }
    }

    /// The state with the thrust set-point replaced by `v` clamped to the
    /// axis range; every other field is unchanged.
    pub open spec fn spec_set_thrust(self, v: int) -> Control {
        Control { thrust: GradientValue { set_value: clamp_axis(v) as i32, ..self.thrust }, ..self }
    }

    /// As `spec_set_thrust`, for the strafe axis.
    pub open spec fn spec_set_strafe(self, v: int) -> Control {
        Control { strafe: GradientValue { set_value: clamp_axis(v) as i32, ..self.strafe }, ..self }
    }

    /// As `spec_set_thrust`, for the ascend axis.
    pub open spec fn spec_set_ascend(self, v: int) -> Control {
        Control { ascend: GradientValue { set_value: clamp_axis(v) as i32, ..self.ascend }, ..self }
    }

    /// As `spec_set_thrust`, for the yaw axis.
    pub open spec fn spec_set_yaw(self, v: int) -> Control {
        Control { yaw: GradientValue { set_value: clamp_axis(v) as i32, ..self.yaw }, ..self }
    }

    /// As `spec_set_thrust`, for the pitch axis.
    pub open spec fn spec_set_pitch(self, v: int) -> Control {
        Control { pitch: GradientValue { set_value: clamp_axis(v) as i32, ..self.pitch }, ..self }
    }

    /// As `spec_set_thrust`, for the roll axis.
    pub open spec fn spec_set_roll(self, v: int) -> Control {
        Control { roll: GradientValue { set_value: clamp_axis(v) as i32, ..self.roll }, ..self }
    }

    /// Returns a control state with every axis at rest, ramping at
    /// `gradient_speed` thousandths per time unit.
    pub fn new(gradient_speed: u32) -> (c: Control)
        ensures
            c == Control::spec_init(gradient_speed),
            c.wf(),
    {
        Control {
            thrust: GradientValue::new(gradient_speed),
            strafe: GradientValue::new(gradient_speed),
            ascend: GradientValue::new(gradient_speed),
            yaw: GradientValue::new(gradient_speed),
            pitch: GradientValue::new(gradient_speed),
            roll: GradientValue::new(gradient_speed),
        }
    }

    /// Ramps every axis toward its set-point for `time` time units.
    pub fn update(&mut self, time: u32)
        requires
            old(self).wf(),
        ensures
            *final(self) == old(self).spec_update(time),
            final(self).wf(),
    {
        self.thrust.update(time);
        self.strafe.update(time);
        self.ascend.update(time);
        self.yaw.update(time);
        self.pitch.update(time);
        self.roll.update(time);
    }

    /// Sets the thrust set-point to `value` clamped to the axis range.
    pub fn set_thrust(&mut self, value: i32)
        requires
            old(self).wf(),
        ensures
            *final(self) == old(self).spec_set_thrust(value as int),
            final(self).wf(),
    {
        self.thrust.set_value = clamp_value(value);
    }

    /// Sets the strafe set-point to `value` clamped to the axis range.
    pub fn set_strafe(&mut self, value: i32)
        requires
            old(self).wf(),
        ensures
            *final(self) == old(self).spec_set_strafe(value as int),
            final(self).wf(),
    {
        self.strafe.set_value = clamp_value(value);
    }

    /// Sets the ascend set-point to `value` clamped to the axis range.
    pub fn set_ascend(&mut self, value: i32)
        requires
            old(self).wf(),
        ensures
            *final(self) == old(self).spec_set_ascend(value as int),
            final(self).wf(),
    {
        self.ascend.set_value = clamp_value(value);
    }

    /// Sets the yaw set-point to `value` clamped to the axis range.
    pub fn set_yaw(&mut self, value: i32)
        requires
            old(self).wf(),
        ensures
            *final(self) == old(self).spec_set_yaw(value as int),
            final(self).wf(),
    {
        self.yaw.set_value = clamp_value(value);
    }

    /// Sets the pitch set-point to `value` clamped to the axis range.
    pub fn set_pitch(&mut self, value: i32)
        requires
            old(self).wf(),
        ensures
            *final(self) == old(self).spec_set_pitch(value as int),
            final(self).wf(),
    {
        self.pitch.set_value = clamp_value(value);
    }

    /// Sets the roll set-point to `value` clamped to the axis range.
    pub fn set_roll(&mut self, value: i32)
        requires
            old(self).wf(),
        ensures
            *final(self) == old(self).spec_set_roll(value as int),
            final(self).wf(),
    {
        self.roll.set_value = clamp_value(value);
    }
}

/// The value a ramp reaches from `value` after the whole sequence of step
/// budgets in `steps` has been spent, one `ramp_step` at a time.  A call
/// `update(time)` spends a budget of `speed * time`, so a run of updates is a
/// run of `ramp_step`s.
pub open spec fn ramp_run(value: int, target: int, steps: Seq<int>) -> int
    decreases steps.len(),
{
    if steps.len() == 0 {
        value
    } else {
        ramp_run(ramp_step(value, target, steps[0]), target, steps.drop_first())
    }
}

/// The sum of a sequence of step budgets.
pub open spec fn sum_steps(steps: Seq<int>) -> int
    decreases steps.len(),
{
    if steps.len() == 0 {
        0
    } else {
        steps[0] + sum_steps(steps.drop_first())
    }
}

/// The distance between two intensities.
pub open spec fn dist(a: int, b: int) -> int {
    if a >= b {
        a - b
    } else {
        b - a
    }
}

/// A sum of non-negative step budgets is non-negative.
proof fn lemma_sum_steps_nonneg(steps: Seq<int>)
    requires
        forall|i: int| 0 <= i < steps.len() ==> steps[i] >= 0,
    ensures
        sum_steps(steps) >= 0,
    decreases steps.len(),
{
    if steps.len() > 0 {
        lemma_sum_steps_nonneg(steps.drop_first());
    }
}

/// Ramp monotonic convergence law: over any run of ramp steps with
/// non-negative budgets, the value stays between its starting point and the
/// target (it never overshoots), its distance to the target is exactly the
/// starting distance less the total budget spent (bottoming out at zero), and
/// once the total budget reaches the starting distance the value sits exactly
/// on the target.
pub proof fn lemma_ramp_monotonic_convergence(value: int, target: int, steps: Seq<int>)
    requires
        forall|i: int| 0 <= i < steps.len() ==> steps[i] >= 0,
    ensures
        value <= target ==> value <= ramp_run(value, target, steps) <= target,
        value >= target ==> target <= ramp_run(value, target, steps) <= value,
        dist(ramp_run(value, target, steps), target) == if sum_steps(steps) >= dist(
            value,
            target,
        ) {
            0
        } else {
            dist(value, target) - sum_steps(steps)
        },
        sum_steps(steps) >= dist(value, target) ==> ramp_run(value, target, steps) == target,
    decreases steps.len(),
{
    if steps.len() > 0 {
        let next = ramp_step(value, target, steps[0]);
        assert(forall|i: int|
            0 <= i < steps.drop_first().len() ==> steps.drop_first()[i] >= 0);
        lemma_sum_steps_nonneg(steps.drop_first());
        lemma_ramp_monotonic_convergence(next, target, steps.drop_first());
    }
}

/// Clamps an intensity to the axis range.
fn clamp_value(value: i32) -> (c: i32)
    ensures
        c as int == clamp_axis(value as int),
{
    if value < -AXIS_UNIT {
        -AXIS_UNIT
    } else if value > AXIS_UNIT {
        AXIS_UNIT
    } else {
        value
    }
}

} // verus!
