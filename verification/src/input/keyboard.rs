//! Key-state tracking: held-key flags per opposite-direction pair, and the
//! translation of key press/release events into axis set-points.

use vstd::prelude::*;

use crate::input::bindings::Bindings;
use crate::input::bindings::Key;
use crate::input::AXIS_UNIT;

verus! {

/// The logical function a key can be bound to.
#[derive(Copy, Clone, Debug, PartialEq, Eq, Structural)]
pub enum KeyFunction {
    Accelerate,
    Decelerate,
    StrafeRight,
    StrafeLeft,
    Ascend,
    Descend,
    YawLeft,
    YawRight,
    PitchUp,
    PitchDown,
    RollLeft,
    RollRight,
}

/// The held flags of one opposite-direction key pair.  Combining them yields
/// a signed direction in {-1, 0, 1}; holding both keys cancels out to 0.
#[derive(Copy, Clone, Debug, PartialEq, Eq, Structural)]
pub struct Orientation {
    /// Whether the key for the positive direction is held.
    pub positive: bool,
    /// Whether the key for the negative direction is held.
    pub negative: bool,
}

impl Orientation {
    /// The signed direction the held flags combine to.
    pub open spec fn spec_value(self) -> int {
        (if self.positive {
            1int
        } else {
            0int
        }) - (if self.negative {
            1int
        } else {
            0int
        })
    }

    /// Records whether the positive-direction key is held and reports
    /// whether that changed the flag.  Repeated events with the same pressed
    /// state report no change.
    pub fn set_positive(&mut self, positive: bool) -> (changed: bool)
        ensures
            *final(self) == (Orientation { positive, negative: old(self).negative }),
            changed == (positive != old(self).positive),
    {
        let changed = positive != self.positive;
        self.positive = positive;
        changed
    }

    /// Records whether the negative-direction key is held and reports
    /// whether that changed the flag.  Repeated events with the same pressed
    /// state report no change.
    pub fn set_negative(&mut self, negative: bool) -> (changed: bool)
        ensures
            *final(self) == (Orientation { positive: old(self).positive, negative }),
            changed == (negative != old(self).negative),
    {
        let changed = negative != self.negative;
        self.negative = negative;
        changed
    }

    /// Returns the signed direction the held flags combine to.
    pub fn value(self) -> (v: i8)
        ensures
            v as int == self.spec_value(),
    {
        (if self.positive {
            1i8
        } else {
            0i8
        }) - (if self.negative {
            1i8
        } else {
            0i8
        })
    }
}

impl Default for Orientation {
    /// Returns the state with neither key of the pair held.
    fn default() -> (o: Orientation)
        ensures
            o == (Orientation { positive: false, negative: false }),
    {
        Orientation { positive: false, negative: false }
    }
}

/// The key-state half of the control mapper: a binding table and the held
/// flags of the six opposite-direction key pairs.
pub struct Control {
    /// The key-binding table consulted for every event.
    pub bindings: Bindings,
    /// Held flags for accelerate/decelerate.
    pub thrust: Orientation,
    /// Held flags for strafe right/left.
    pub strafe: Orientation,
    /// Held flags for ascend/descend.
    pub ascend: Orientation,
    /// Held flags for yaw left/right.
    pub yaw: Orientation,
    /// Held flags for pitch up/down.
    pub pitch: Orientation,
    /// Held flags for roll left/right.
    pub roll: Orientation,
}

/// The flag pair after recording a press (or release) of the key for one of
/// its directions, together with whether the flag changed.
pub open spec fn spec_flag_update(o: Orientation, positive: bool, pressed: bool) -> (
    Orientation,
    bool,
) {
    if positive {
        (Orientation { positive: pressed, negative: o.negative }, pressed != o.positive)
    } else {
        (Orientation { positive: o.positive, negative: pressed }, pressed != o.negative)
    }
}

impl Control {
    /// The set-point pushed for a flag pair: its signed direction, scaled to
    /// a full axis unit.
    pub open spec fn spec_target(o: Orientation) -> int {
        o.spec_value() * (AXIS_UNIT as int)
    }

    /// The key state and the ramped control state after one key event: the
    /// bound function's flag is brought up to date, and where that changed
    /// the flag, the axis's set-point is recomputed from the pair.  Unbound
    /// keys change nothing.
    pub open spec fn spec_process(self, key: Key, pressed: bool, c: super::Control) -> (
        Control,
        super::Control,
    ) {
        match self.bindings.spec_lookup(key) {
            None => (self, c),
            Some(f) => match f {
                KeyFunction::Accelerate => {
                    let (o, ch) = spec_flag_update(self.thrust, true, pressed);
                    (
                        Control { thrust: o, ..self },
                        if ch {
                            c.spec_set_thrust(Self::spec_target(o))
                        } else {
                            c
                        },
                    )
                },
                KeyFunction::Decelerate => {
                    let (o, ch) = spec_flag_update(self.thrust, false, pressed);
                    (
                        Control { thrust: o, ..self },
                        if ch {
                            c.spec_set_thrust(Self::spec_target(o))
                        } else {
                            c
                        },
                    )
                },
                KeyFunction::StrafeRight => {
                    let (o, ch) = spec_flag_update(self.strafe, true, pressed);
                    (
                        Control { strafe: o, ..self },
                        if ch {
                            c.spec_set_strafe(Self::spec_target(o))
                        } else {
                            c
                        },
                    )
                },
                KeyFunction::StrafeLeft => {
                    let (o, ch) = spec_flag_update(self.strafe, false, pressed);
                    (
                        Control { strafe: o, ..self },
                        if ch {
                            c.spec_set_strafe(Self::spec_target(o))
                        } else {
                            c
                        },
                    )
                },
                KeyFunction::Ascend => {
                    let (o, ch) = spec_flag_update(self.ascend, true, pressed);
                    (
                        Control { ascend: o, ..self },
                        if ch {
                            c.spec_set_ascend(Self::spec_target(o))
                        } else {
                            c
                        },
                    )
                },
                KeyFunction::Descend => {
                    let (o, ch) = spec_flag_update(self.ascend, false, pressed);
                    (
                        Control { ascend: o, ..self },
                        if ch {
                            c.spec_set_ascend(Self::spec_target(o))
                        } else {
                            c
                        },
                    )
                },
                KeyFunction::YawLeft => {
                    let (o, ch) = spec_flag_update(self.yaw, true, pressed);
                    (
                        Control { yaw: o, ..self },
                        if ch {
                            c.spec_set_yaw(Self::spec_target(o))
                        } else {
                            c
                        },
                    )
                },
                KeyFunction::YawRight => {
                    let (o, ch) = spec_flag_update(self.yaw, false, pressed);
                    (
                        Control { yaw: o, ..self },
                        if ch {
                            c.spec_set_yaw(Self::spec_target(o))
                        } else {
                            c
                        },
                    )
                },
                KeyFunction::PitchUp => {
                    let (o, ch) = spec_flag_update(self.pitch, true, pressed);
                    (
                        Control { pitch: o, ..self },
                        if ch {
                            c.spec_set_pitch(Self::spec_target(o))
                        } else {
                            c
                        },
                    )
                },
                KeyFunction::PitchDown => {
                    let (o, ch) = spec_flag_update(self.pitch, false, pressed);
                    (
                        Control { pitch: o, ..self },
                        if ch {
                            c.spec_set_pitch(Self::spec_target(o))
                        } else {
                            c
                        },
                    )
                },
                KeyFunction::RollLeft => {
                    let (o, ch) = spec_flag_update(self.roll, true, pressed);
                    (
                        Control { roll: o, ..self },
                        if ch {
                            c.spec_set_roll(Self::spec_target(o))
                        } else {
                            c
                        },
                    )
                },
                KeyFunction::RollRight => {
                    let (o, ch) = spec_flag_update(self.roll, false, pressed);
                    (
                        Control { roll: o, ..self },
                        if ch {
                            c.spec_set_roll(Self::spec_target(o))
                        } else {
                            c
                        },
                    )
                },
            },
        }
    }

    /// Brings the thrust pair's flag for the given direction up to date and,
    /// where it changed, pushes the pair's recomputed set-point.
    fn apply_thrust(&mut self, positive: bool, pressed: bool, control: &mut super::Control)
        requires
            old(control).wf(),
        ensures
            ({
                let (o, ch) = spec_flag_update(old(self).thrust, positive, pressed);
                &&& *final(self) == (Control { thrust: o, ..*old(self) })
                &&& *final(control) == if ch {
                    old(control).spec_set_thrust(Self::spec_target(o))
                } else {
                    *old(control)
                }
            }),
            final(control).wf(),
    {
        let changed = if positive {
            self.thrust.set_positive(pressed)
        } else {
            self.thrust.set_negative(pressed)
        };
        if changed {
            control.set_thrust((self.thrust.value() as i32) * AXIS_UNIT);
        }
    }

    /// As `apply_thrust`, for the strafe pair.
    fn apply_strafe(&mut self, positive: bool, pressed: bool, control: &mut super::Control)
        requires
            old(control).wf(),
        ensures
            ({
                let (o, ch) = spec_flag_update(old(self).strafe, positive, pressed);
                &&& *final(self) == (Control { strafe: o, ..*old(self) })
                &&& *final(control) == if ch {
                    old(control).spec_set_strafe(Self::spec_target(o))
                } else {
                    *old(control)
                }
            }),
            final(control).wf(),
    {
        let changed = if positive {
            self.strafe.set_positive(pressed)
        } else {
            self.strafe.set_negative(pressed)
        };
        if changed {
            control.set_strafe((self.strafe.value() as i32) * AXIS_UNIT);
        }
    }

    /// As `apply_thrust`, for the ascend pair.
    fn apply_ascend(&mut self, positive: bool, pressed: bool, control: &mut super::Control)
        requires
            old(control).wf(),
        ensures
            ({
                let (o, ch) = spec_flag_update(old(self).ascend, positive, pressed);
                &&& *final(self) == (Control { ascend: o, ..*old(self) })
                &&& *final(control) == if ch {
                    old(control).spec_set_ascend(Self::spec_target(o))
                } else {
                    *old(control)
                }
            }),
            final(control).wf(),
    {
        let changed = if positive {
            self.ascend.set_positive(pressed)
        } else {
            self.ascend.set_negative(pressed)
        };
        if changed {
            control.set_ascend((self.ascend.value() as i32) * AXIS_UNIT);
        }
    }

    /// As `apply_thrust`, for the yaw pair.
    fn apply_yaw(&mut self, positive: bool, pressed: bool, control: &mut super::Control)
        requires
            old(control).wf(),
        ensures
            ({
                let (o, ch) = spec_flag_update(old(self).yaw, positive, pressed);
                &&& *final(self) == (Control { yaw: o, ..*old(self) })
                &&& *final(control) == if ch {
                    old(control).spec_set_yaw(Self::spec_target(o))
                } else {
                    *old(control)
                }
            }),
            final(control).wf(),
    {
        let changed = if positive {
            self.yaw.set_positive(pressed)
        } else {
            self.yaw.set_negative(pressed)
        };
        if changed {
            control.set_yaw((self.yaw.value() as i32) * AXIS_UNIT);
        }
    }

    /// As `apply_thrust`, for the pitch pair.
    fn apply_pitch(&mut self, positive: bool, pressed: bool, control: &mut super::Control)
        requires
            old(control).wf(),
        ensures
            ({
                let (o, ch) = spec_flag_update(old(self).pitch, positive, pressed);
                &&& *final(self) == (Control { pitch: o, ..*old(self) })
                &&& *final(control) == if ch {
                    old(control).spec_set_pitch(Self::spec_target(o))
                } else {
                    *old(control)
                }
            }),
            final(control).wf(),
    {
        let changed = if positive {
            self.pitch.set_positive(pressed)
        } else {
            self.pitch.set_negative(pressed)
        };
        if changed {
            control.set_pitch((self.pitch.value() as i32) * AXIS_UNIT);
        }
    }

    /// As `apply_thrust`, for the roll pair.
    fn apply_roll(&mut self, positive: bool, pressed: bool, control: &mut super::Control)
        requires
            old(control).wf(),
        ensures
            ({
                let (o, ch) = spec_flag_update(old(self).roll, positive, pressed);
                &&& *final(self) == (Control { roll: o, ..*old(self) })
                &&& *final(control) == if ch {
                    old(control).spec_set_roll(Self::spec_target(o))
                } else {
                    *old(control)
                }
            }),
            final(control).wf(),
    {
        let changed = if positive {
            self.roll.set_positive(pressed)
        } else {
            self.roll.set_negative(pressed)
        };
        if changed {
            control.set_roll((self.roll.value() as i32) * AXIS_UNIT);
        }
    }

    /// Applies one key press/release event: looks the key up in the binding
    /// table, brings the bound function's held flag up to date, and where
    /// the flag actually changed pushes the pair's recomputed set-point into
    /// the ramped control state.
    #[verifier::rlimit(100)]
    #[verifier::spinoff_prover]
    pub fn process_keyboard_input(&mut self, key: Key, pressed: bool, control: &mut super::Control)
        requires
            old(control).wf(),
        ensures
            *final(self) == old(self).spec_process(key, pressed, *old(control)).0,
            *final(control) == old(self).spec_process(key, pressed, *old(control)).1,
            final(control).wf(),
    {
        match self.bindings.map(key) {
            None => (),
            Some(f) => match f {
                KeyFunction::Accelerate => self.apply_thrust(true, pressed, control),
                KeyFunction::Decelerate => self.apply_thrust(false, pressed, control),
                KeyFunction::StrafeRight => self.apply_strafe(true, pressed, control),
                KeyFunction::StrafeLeft => self.apply_strafe(false, pressed, control),
                KeyFunction::Ascend => self.apply_ascend(true, pressed, control),
                KeyFunction::Descend => self.apply_ascend(false, pressed, control),
                KeyFunction::YawLeft => self.apply_yaw(true, pressed, control),
                KeyFunction::YawRight => self.apply_yaw(false, pressed, control),
                KeyFunction::PitchUp => self.apply_pitch(true, pressed, control),
                KeyFunction::PitchDown => self.apply_pitch(false, pressed, control),
                KeyFunction::RollLeft => self.apply_roll(true, pressed, control),
                KeyFunction::RollRight => self.apply_roll(false, pressed, control),
            },
        }
    }
}

/// Key cancellation law: from a state where neither yaw key is held,
/// pressing the keys bound to yaw-left and yaw-right, in that order, leaves
/// the yaw pair cancelled out: its signed direction and the pushed yaw
/// set-point are both zero.  Releasing either key afterwards leaves the
/// direction and the set-point at the sign of the still-held key.
pub proof fn lemma_key_cancellation(s: Control, c: super::Control, key_left: Key, key_right: Key)
    requires
        s.bindings.spec_lookup(key_left) == Some(KeyFunction::YawLeft),
        s.bindings.spec_lookup(key_right) == Some(KeyFunction::YawRight),
        !s.yaw.positive,
        !s.yaw.negative,
    ensures
        ({
            let (s1, c1) = s.spec_process(key_left, true, c);
            let (s2, c2) = s1.spec_process(key_right, true, c1);
            let (s3, c3) = s2.spec_process(key_left, false, c2);
            let (s4, c4) = s2.spec_process(key_right, false, c2);
            &&& s2.yaw.spec_value() == 0
            &&& c2.yaw.set_value == 0
            &&& s3.yaw.spec_value() == -1
            &&& c3.yaw.set_value as int == -(AXIS_UNIT as int)
            &&& s4.yaw.spec_value() == 1
            &&& c4.yaw.set_value as int == AXIS_UNIT as int
        }),
{
}

impl Default for Control {
    /// Returns the key state with the default binding table and no key held.
    fn default() -> (c: Control)
        ensures
            c.bindings.entries@ == crate::input::bindings::default_entries(),
            c.thrust == (Orientation { positive: false, negative: false }),
            c.strafe == (Orientation { positive: false, negative: false }),
            c.ascend == (Orientation { positive: false, negative: false }),
            c.yaw == (Orientation { positive: false, negative: false }),
            c.pitch == (Orientation { positive: false, negative: false }),
            c.roll == (Orientation { positive: false, negative: false }),
    {
        Control {
            bindings: Bindings::default(),
            thrust: Orientation::default(),
            strafe: Orientation::default(),
            ascend: Orientation::default(),
            yaw: Orientation::default(),
            pitch: Orientation::default(),
            roll: Orientation::default(),
        }
    }
}

} // verus!
