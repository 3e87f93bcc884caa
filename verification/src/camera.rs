//! Where the trailing camera sits relative to the tank.

use vstd::prelude::*;

verus! {

use crate::tank::TankControllable;

/// Angular lag of the trailing camera behind the tank's facing angle, in
/// degrees.
pub const TRAIL_ANGLE_OFFSET: i32 = 270;

/// Radial distance from the tank to the trailing camera: 15 world units, in
/// thousandths.
pub const TRAIL_DISTANCE_MILLI: i64 = 15000;

/// Where to place the trailing camera this frame, as a polar offset from the
/// tank's position.
pub struct CameraOffset {
    /// Direction from the tank to the camera, in degrees.
    pub heading_deg: i32,
    /// Distance from the tank to the camera, in thousandths of a world unit.
    pub distance_milli: i64,
}

/// One frame of the trailing camera: it is re-placed at the fixed distance
/// from the tank, along the tank's facing angle plus the fixed angular lag,
/// with no smoothing.
pub fn focus_tracking_camera(tank: &TankControllable) -> (off: CameraOffset)
    requires
        tank.wf(),
    ensures
        off.heading_deg == tank.angle + TRAIL_ANGLE_OFFSET,
        off.distance_milli == TRAIL_DISTANCE_MILLI,
{
    CameraOffset {
        heading_deg: tank.angle + TRAIL_ANGLE_OFFSET,
        distance_milli: TRAIL_DISTANCE_MILLI,
    }
}

} // verus!
