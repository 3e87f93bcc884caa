//! The tank's facing angle and the per-frame input system that drives it.

use vstd::prelude::*;

verus! {

use crate::input::KeyState;

/// Degrees added or removed by one turn tick.
pub const TURN_STEP: i32 = 2;

/// Degrees between the model's forward axis and the world axis the tank
/// drives along: movement heads along `angle + 90`.
pub const HEADING_OFFSET: i32 = 90;

/// Forward speed per frame, in thousandths of a world unit (0.25 units).
pub const MOVE_SPEED_MILLI: i64 = 250;

/// A drivable object: its facing angle in whole degrees, wrapped to stay
/// within [0, 360].
pub struct TankControllable {
    /// Facing angle in degrees.
    pub angle: i32,
}

impl TankControllable {
    /// The angle field is kept within [0, 360] by every turn tick.
    pub open spec fn wf(self) -> bool {
        0 <= self.angle <= 360
    }
}

/// One left-turn tick: add two degrees, and restart from 0 once the value
/// passes 360 (the check is strict, so 360 itself is kept).
pub open spec fn angle_after_left(angle: int) -> int {
    if angle + TURN_STEP > 360 {
        0
    } else {
        angle + TURN_STEP
    }
}

/// One right-turn tick: remove two degrees, and restart from 360 once the
/// value passes 0 (the check is strict, so 0 itself is kept).
pub open spec fn angle_after_right(angle: int) -> int {
    if angle - TURN_STEP < 0 {
        360
    } else {
        angle - TURN_STEP
    }
}

/// The angle after one frame of input: the left key wins over the right key,
/// and with neither held the angle is unchanged.
pub open spec fn angle_after_input(angle: int, keys: KeyState) -> int {
    if keys.left {
        angle_after_left(angle)
    } else if keys.right {
        angle_after_right(angle)
    } else {
        angle
    }
}

/// A turn tick with wraparound keeps a stored angle within [0, 360],
/// whichever keys are held. Angles already outside that range are not pulled
/// back into it, so the bound is asked of the input.
pub proof fn lemma_angle_wrap_in_range(angle: int, keys: KeyState)
    requires
        0 <= angle <= 360,
    ensures
        0 <= angle_after_input(angle, keys) <= 360,
{
}

/// What the frame asks the scene to do with the tank's transform after the
/// angle update: rotate to the new facing angle, and advance if the forward
/// key is held.
pub struct MoveCommand {
    /// New rotation about the vertical axis, in degrees.
    pub rotation_deg: i32,
    /// Whether the tank advances this frame.
    pub advance: bool,
    /// Direction of travel in degrees: the facing angle plus the model's
    /// heading offset.
    pub heading_deg: i32,
    /// Distance covered this frame, in thousandths of a world unit.
    pub speed_milli: i64,
}

/// One frame of tank input: adjust the facing angle by the held turn key
/// with wraparound, and report the rotation to apply and the advance to make
/// (at fixed speed along `angle + 90`) when the forward key is held.
pub fn manage_tank_input(tank: &mut TankControllable, keys: KeyState) -> (cmd: MoveCommand)
    requires
        old(tank).wf(),
    ensures
        final(tank).angle == angle_after_input(old(tank).angle as int, keys),
        final(tank).wf(),
        cmd.rotation_deg == final(tank).angle,
        cmd.advance == keys.up,
        cmd.heading_deg == final(tank).angle + HEADING_OFFSET,
        cmd.speed_milli == MOVE_SPEED_MILLI,
{
    if keys.left {
        tank.angle = tank.angle + TURN_STEP;
        if tank.angle > 360 {
            tank.angle = 0;
        }
    } else if keys.right {
        tank.angle = tank.angle - TURN_STEP;
        if tank.angle < 0 {
            tank.angle = 360;
        }
    }
    let heading: i32 = tank.angle + HEADING_OFFSET;
    MoveCommand {
        rotation_deg: tank.angle,
        advance: keys.up,
        heading_deg: heading,
        speed_milli: MOVE_SPEED_MILLI,
    }
}

} // verus!
