//! Camera orientation state.
//!
//! The camera keeps its angles as integers: yaw and pitch in tenths of a
//! degree, field of view in whole degrees.  One cursor count scaled by
//! `mouse_sensitivity` moves an angle by that many tenths of a degree, so
//! the default sensitivity of one tenth per count matches a factor of 0.1
//! in degrees.  The renderer turns these angles into basis vectors and a
//! view matrix; this module owns the update rules and their bounds.

use vstd::prelude::*;

use crate::num::{clamp_i64, sat_add_i64, sat_i64, sat_mul_i64};

verus! {

/// Direction of a camera movement request, one per movement key.
#[derive(Debug, PartialEq, Eq, Structural)]
pub enum CameraMovement {
    Forward,
    Bakcward,
    Left,
    Right,
}

/// Basis vector along which a movement request displaces the camera.
#[derive(Debug, PartialEq, Eq, Structural, Clone, Copy)]
pub enum MoveAxis {
    Front,
    Right,
}

/// Lowest pitch the camera may take, in tenths of a degree.
pub const PITCH_MIN: i64 = -890;

/// Highest pitch the camera may take, in tenths of a degree.
pub const PITCH_MAX: i64 = 890;

/// Narrowest field of view, in degrees.
pub const FOV_MIN: i64 = 1;

/// Widest field of view, in degrees.
pub const FOV_MAX: i64 = 45;

/// Orientation state of the scene camera.
///
/// Position and the derived basis vectors are continuous quantities owned
/// by the rendering layer; the camera here carries the angular state those
/// are recomputed from, together with the movement parameters.
pub struct Camera {
    /// Heading around the vertical axis, in tenths of a degree.
    pub yaw: i64,
    /// Elevation of the view direction, in tenths of a degree.
    pub pitch: i64,
    /// Movement speed, in thousandths of a world unit per second.
    pub move_speed: i64,
    /// Tenths of a degree of rotation per cursor count.
    pub mouse_sensitivity: i64,
    /// Vertical field of view, in degrees.
    pub fov: i64,
}

impl Camera {
    /// Pitch and field of view inside their documented bounds.
    pub open spec fn wf(self) -> bool {
        &&& PITCH_MIN <= self.pitch <= PITCH_MAX
        &&& FOV_MIN <= self.fov <= FOV_MAX
    }

    /// A camera looking along the negative depth axis with the default
    /// movement parameters.
    pub fn new() -> (c: Camera)
        ensures
            c.yaw == -900,
            c.pitch == 0,
            c.move_speed == 2500,
            c.mouse_sensitivity == 1,
            c.fov == FOV_MAX,
            c.wf(),
    {
        Camera { yaw: -900, pitch: 0, move_speed: 2500, mouse_sensitivity: 1, fov: FOV_MAX }
    }

    /// Current field of view, in degrees.
    pub fn get_fov(&self) -> (r: i64)
        ensures
            r == self.fov,
    {
        self.fov
    }

    /// Turns the camera by a cursor offset: each count moves the angles by
    /// `mouse_sensitivity` tenths of a degree, and the pitch is then held
    /// to `[PITCH_MIN, PITCH_MAX]`.
    pub fn process_mouse_move(&mut self, x_offset: i64, y_offset: i64)
        requires
            old(self).wf(),
        ensures
            final(self).yaw == sat_i64(
                old(self).yaw + sat_i64(x_offset * old(self).mouse_sensitivity),
            ),
            final(self).pitch == clamp_i64(
                old(self).pitch + sat_i64(y_offset * old(self).mouse_sensitivity),
                PITCH_MIN as int,
                PITCH_MAX as int,
            ),
            final(self).move_speed == old(self).move_speed,
            final(self).mouse_sensitivity == old(self).mouse_sensitivity,
            final(self).fov == old(self).fov,
            final(self).wf(),
    {
        let x_scaled = sat_mul_i64(x_offset, self.mouse_sensitivity);
        let y_scaled = sat_mul_i64(y_offset, self.mouse_sensitivity);

        self.yaw = sat_add_i64(self.yaw, x_scaled);

        let raised = sat_add_i64(self.pitch, y_scaled);
        if raised > PITCH_MAX {
            self.pitch = PITCH_MAX;
        } else if raised < PITCH_MIN {
            self.pitch = PITCH_MIN;
        } else {
            self.pitch = raised;
        }
    }

    /// Zooms by a scroll offset: the field of view shrinks by the offset
    /// and is held to `[FOV_MIN, FOV_MAX]`.
    pub fn process_mouse_scroll(&mut self, y_offset: i64)
        requires
            old(self).wf(),
        ensures
            final(self).fov == clamp_i64(
                old(self).fov - y_offset,
                FOV_MIN as int,
                FOV_MAX as int,
            ),
            final(self).yaw == old(self).yaw,
            final(self).pitch == old(self).pitch,
            final(self).move_speed == old(self).move_speed,
            final(self).mouse_sensitivity == old(self).mouse_sensitivity,
            final(self).wf(),
    {
        let lowered = match self.fov.checked_sub(y_offset) {
            Some(v) => v,
            None => if y_offset < 0 { FOV_MAX } else { FOV_MIN },
        };
        if lowered < FOV_MIN {
            self.fov = FOV_MIN;
        } else if lowered > FOV_MAX {
            self.fov = FOV_MAX;
        } else {
            self.fov = lowered;
        }
    }
}

/// Basis vector and orientation of the displacement for one movement
/// request, in the order the renderer applies it: forward and backward
/// move along the front vector, strafing moves along the right vector,
/// and the flag says whether the displacement is added or subtracted.
pub open spec fn movement_step_spec(direction: CameraMovement) -> (MoveAxis, bool) {
    match direction {
        CameraMovement::Forward => (MoveAxis::Front, true),
        CameraMovement::Bakcward => (MoveAxis::Front, false),
        CameraMovement::Left => (MoveAxis::Right, false),
        CameraMovement::Right => (MoveAxis::Right, true),
    }
}

/// Axis and sign of the displacement requested by `direction`.
pub fn movement_step(direction: &CameraMovement) -> (r: (MoveAxis, bool))
    ensures
        r == movement_step_spec(*direction),
{
    match direction {
        CameraMovement::Forward => (MoveAxis::Front, true),
        CameraMovement::Bakcward => (MoveAxis::Front, false),
        CameraMovement::Left => (MoveAxis::Right, false),
        CameraMovement::Right => (MoveAxis::Right, true),
    }
}

/// Every well-formed camera state keeps its pitch in `[PITCH_MIN,
/// PITCH_MAX]` and its field of view in `[FOV_MIN, FOV_MAX]`; since the
/// constructor establishes well-formedness and every update preserves it,
/// the bounds hold after any sequence of mouse moves and scrolls.
pub proof fn lemma_camera_bounds(c: Camera)
    requires
        c.wf(),
    ensures
        PITCH_MIN <= c.pitch <= PITCH_MAX,
        FOV_MIN <= c.fov <= FOV_MAX,
{
}

} // verus!
