//! Blender-style camera controller: the pose's orientation is held as
//! yaw/pitch/roll Euler angles, mutated in place. Holding the wheel turns
//! pointer-motion deltas into yaw and pitch increments; holding shift as
//! well pans the camera in its own local XY plane; the scroll-wheel zoom is
//! declared but intentionally left unimplemented.
//!
//! Units: angles in nano-radians, pointer deltas in milli-pixels, pan
//! offsets in micro-units of world distance. The orbit sensitivity is
//! 0.0025 radians per pixel and the pan sensitivity 0.01 units per pixel,
//! both exact in these units.

use vstd::prelude::*;

verus! {

/// Orbit sensitivity: 0.0025 radians per pixel is 2500 nano-radians per
/// milli-pixel.
pub const ORBIT_NANO_PER_MP: i64 = 2500;

/// Pan sensitivity: 0.01 units per pixel is 10 micro-units per milli-pixel.
pub const PAN_MICRO_PER_MP: i64 = 10;

/// Largest pointer-motion delta the controller accepts, in milli-pixels.
pub const DELTA_LIMIT_MP: i64 = 0x4000_0000;

/// Largest angle magnitude the controller holds, in nano-radians; far
/// beyond any number of revolutions a session can accumulate.
pub const ANGLE_LIMIT_NANO: i64 = 0x1000_0000_0000_0000;

/// The camera's orientation as Euler angles, in nano-radians.
#[derive(Clone, Copy, Debug)]
pub struct CamPose {
    /// Rotation about the vertical axis.
    pub yaw_nano: i64,
    /// Rotation about the local horizontal axis.
    pub pitch_nano: i64,
    /// Roll; the controller never changes it.
    pub roll_nano: i64,
}

impl CamPose {
    /// All angles are within the accepted magnitude.
    pub open spec fn wf(self) -> bool {
        &&& -ANGLE_LIMIT_NANO <= self.yaw_nano <= ANGLE_LIMIT_NANO
        &&& -ANGLE_LIMIT_NANO <= self.pitch_nano <= ANGLE_LIMIT_NANO
        &&& -ANGLE_LIMIT_NANO <= self.roll_nano <= ANGLE_LIMIT_NANO
    }

    /// Wheel-hold orbit: one pointer-motion delta becomes yaw and pitch
    /// increments at the orbit sensitivity; roll is preserved unchanged.
    pub fn orbit(&mut self, dx_mp: i64, dy_mp: i64)
        requires
            old(self).wf(),
            -DELTA_LIMIT_MP <= dx_mp <= DELTA_LIMIT_MP,
            -DELTA_LIMIT_MP <= dy_mp <= DELTA_LIMIT_MP,
            -ANGLE_LIMIT_NANO <= old(self).yaw_nano + dx_mp * ORBIT_NANO_PER_MP
                <= ANGLE_LIMIT_NANO,
            -ANGLE_LIMIT_NANO <= old(self).pitch_nano + dy_mp * ORBIT_NANO_PER_MP
                <= ANGLE_LIMIT_NANO,
        ensures
            final(self).yaw_nano == old(self).yaw_nano + dx_mp * ORBIT_NANO_PER_MP,
            final(self).pitch_nano == old(self).pitch_nano + dy_mp * ORBIT_NANO_PER_MP,
            final(self).roll_nano == old(self).roll_nano,
            final(self).wf(),
    {
        self.yaw_nano = self.yaw_nano + dx_mp * ORBIT_NANO_PER_MP;
        self.pitch_nano = self.pitch_nano + dy_mp * ORBIT_NANO_PER_MP;
    }

    /// Scroll-wheel zoom: declared but intentionally unimplemented, so the
    /// pose is left exactly as it was. A documented gap, not a bug.
    pub fn scroll_zoom(&mut self)
        ensures
            *final(self) == *old(self),
    {
    }
}

/// Wheel-hold-plus-shift pan: one pointer-motion delta becomes an offset in
/// the camera's local XY plane, at the pan sensitivity and with the x axis
/// inverted. The caller carries the offset along the camera's actual local
/// axes; this computes its exact coordinates.
pub fn pan_delta(dx_mp: i64, dy_mp: i64) -> (r: (i64, i64))
    requires
        -DELTA_LIMIT_MP <= dx_mp <= DELTA_LIMIT_MP,
        -DELTA_LIMIT_MP <= dy_mp <= DELTA_LIMIT_MP,
    ensures
        r.0 == -dx_mp * PAN_MICRO_PER_MP,
        r.1 == dy_mp * PAN_MICRO_PER_MP,
{
    (-dx_mp * PAN_MICRO_PER_MP, dy_mp * PAN_MICRO_PER_MP)
}

} // verus!
