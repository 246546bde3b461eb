//! Bounded six-axis command vectors.
//!
//! An axis value is a signed integer in thousandths of full deflection, so
//! the legal range `[-AXIS_UNIT, AXIS_UNIT]` stands for the interval
//! [-1.0, 1.0] of normalized input. Producing a fresh, clamped vector every
//! sample tick is the safety core of the input path.

use vstd::prelude::*;

verus! {

/// One full axis deflection, in thousandths.
pub const AXIS_UNIT: i32 = 1000;

/// Inputs closer to neutral than this (in thousandths) are treated as noise.
pub const DEAD_ZONE: i32 = 50;

/// Clamp of an arbitrary axis sum into the legal range.
pub open spec fn clamp_axis_spec(v: int) -> int {
    if v < -(AXIS_UNIT as int) {
        -(AXIS_UNIT as int)
    } else if v > AXIS_UNIT as int {
        AXIS_UNIT as int
    } else {
        v
    }
}

/// True when an axis value already lies in the legal range.
pub open spec fn axis_in_range(v: int) -> bool {
    -(AXIS_UNIT as int) <= v <= AXIS_UNIT as int
}

/// A normalized 6-degree-of-freedom command: surge, sway, heave, pitch, yaw,
/// roll, each in thousandths of full deflection.
#[derive(Clone, Copy, PartialEq, Eq, Structural, Debug)]
pub struct CommandVector {
    pub surge: i32,
    pub sway: i32,
    pub heave: i32,
    pub pitch: i32,
    pub yaw: i32,
    pub roll: i32,
}

impl CommandVector {
    /// Every element lies in the legal range.
    pub open spec fn in_range(self) -> bool {
        &&& axis_in_range(self.surge as int)
        &&& axis_in_range(self.sway as int)
        &&& axis_in_range(self.heave as int)
        &&& axis_in_range(self.pitch as int)
        &&& axis_in_range(self.yaw as int)
        &&& axis_in_range(self.roll as int)
    }

    /// The all-neutral command, as a spec value.
    pub open spec fn zero_spec() -> CommandVector {
        CommandVector { surge: 0, sway: 0, heave: 0, pitch: 0, yaw: 0, roll: 0 }
    }

    /// Test that every element lies in the legal range.
    pub fn is_in_range(&self) -> (r: bool)
        ensures
            r == self.in_range(),
    {
        -AXIS_UNIT <= self.surge && self.surge <= AXIS_UNIT && -AXIS_UNIT <= self.sway
            && self.sway <= AXIS_UNIT && -AXIS_UNIT <= self.heave && self.heave <= AXIS_UNIT
            && -AXIS_UNIT <= self.pitch && self.pitch <= AXIS_UNIT && -AXIS_UNIT <= self.yaw
            && self.yaw <= AXIS_UNIT && -AXIS_UNIT <= self.roll && self.roll <= AXIS_UNIT
    }

    /// The all-neutral command.
    pub fn zero() -> (r: CommandVector)
        ensures
            r == CommandVector::zero_spec(),
    {
        CommandVector { surge: 0, sway: 0, heave: 0, pitch: 0, yaw: 0, roll: 0 }
    }
}

/// Clamp one axis value into the legal range.
pub fn clamp_axis(v: i32) -> (r: i32)
    ensures
        r as int == clamp_axis_spec(v as int),
        axis_in_range(r as int),
{
    if v < -AXIS_UNIT {
        -AXIS_UNIT
    } else if v > AXIS_UNIT {
        AXIS_UNIT
    } else {
        v
    }
}

/// Clamping an already clamped value changes nothing.
pub proof fn lemma_clamp_idempotent(v: int)
    ensures
        clamp_axis_spec(clamp_axis_spec(v)) == clamp_axis_spec(v),
{
}

/// A value already in range is left exactly as it is by the clamp.
pub proof fn lemma_clamp_in_range_identity(v: int)
    requires
        axis_in_range(v),
    ensures
        clamp_axis_spec(v) == v,
{
}

/// The merge of two axis values: their sum, clamped into the legal range.
pub open spec fn merge_axis_spec(a: int, b: int) -> int {
    clamp_axis_spec(a + b)
}

/// Element-wise merge of two command vectors, as a spec value.
pub open spec fn merge_spec(a: CommandVector, b: CommandVector) -> CommandVector {
    CommandVector {
        surge: merge_axis_spec(a.surge as int, b.surge as int) as i32,
        sway: merge_axis_spec(a.sway as int, b.sway as int) as i32,
        heave: merge_axis_spec(a.heave as int, b.heave as int) as i32,
        pitch: merge_axis_spec(a.pitch as int, b.pitch as int) as i32,
        yaw: merge_axis_spec(a.yaw as int, b.yaw as int) as i32,
        roll: merge_axis_spec(a.roll as int, b.roll as int) as i32,
    }
}

/// Merge the keyboard and gamepad vectors: element-wise sum, then clamp.
/// The result is in range whatever the inputs were.
pub fn merge_inputs(keyboard: &CommandVector, gamepad: &CommandVector) -> (r: CommandVector)
    requires
        keyboard.in_range(),
        gamepad.in_range(),
    ensures
        r == merge_spec(*keyboard, *gamepad),
        r.in_range(),
{
    CommandVector {
        surge: clamp_axis(keyboard.surge + gamepad.surge),
        sway: clamp_axis(keyboard.sway + gamepad.sway),
        heave: clamp_axis(keyboard.heave + gamepad.heave),
        pitch: clamp_axis(keyboard.pitch + gamepad.pitch),
        yaw: clamp_axis(keyboard.yaw + gamepad.yaw),
        roll: clamp_axis(keyboard.roll + gamepad.roll),
    }
}

/// Merging is commutative, and the merge of two vectors is always in range,
/// however far out of range the inputs were.
pub proof fn lemma_merge_commutative(a: CommandVector, b: CommandVector)
    ensures
        merge_spec(a, b) == merge_spec(b, a),
        merge_spec(a, b).in_range(),
{
}

/// Merging with the neutral vector leaves an in-range vector unchanged.
pub proof fn lemma_merge_zero_identity(a: CommandVector)
    requires
        a.in_range(),
    ensures
        merge_spec(a, CommandVector::zero_spec()) == a,
{
}

/// Suppression of near-neutral analog noise: values inside the dead zone
/// collapse to exactly zero, all others pass through unchanged.
pub open spec fn dead_zone_spec(v: int) -> int {
    if -(DEAD_ZONE as int) < v < DEAD_ZONE as int {
        0
    } else {
        v
    }
}

/// Apply the dead-zone threshold to one axis value.
pub fn apply_dead_zone(v: i32) -> (r: i32)
    ensures
        r as int == dead_zone_spec(v as int),
        axis_in_range(v as int) ==> axis_in_range(r as int),
{
    if -DEAD_ZONE < v && v < DEAD_ZONE {
        0
    } else {
        v
    }
}

} // verus!
