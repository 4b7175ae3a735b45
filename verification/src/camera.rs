//! The free-look camera: a position that is advanced once per frame by the
//! velocity the direction keys set, seen through yaw and pitch.
//!
//! Lengths are whole numbers of subunits, `SUBUNITS_PER_UNIT` to one world
//! unit; angles are whole microradians.

use crate::event::Keycode;
use vstd::prelude::*;

verus! {

/// How many subunits make one world unit.
pub const SUBUNITS_PER_UNIT: i64 = 65536;

/// Speed along an axis while its key is held: 25 world units per frame.
pub const CAMERA_VELOCITY: i64 = 25 * 65536;

/// Rotation per pixel of pointer motion, in microradians.
pub const MOUSELOOK_ROTATION_SPEED: i64 = 7000;

/// A vector of three lengths in subunits.
#[derive(Clone, Copy, Debug, PartialEq, Eq, Structural)]
pub struct Vector3 {
    pub x: i64,
    pub y: i64,
    pub z: i64,
}

/// Position and velocity in subunits, yaw and pitch in microradians. The
/// velocity is in the camera's own frame; the position is in the world.
#[derive(Clone, Copy, Debug, PartialEq, Eq, Structural)]
pub struct CameraState {
    pub position: Vector3,
    pub velocity: Vector3,
    pub yaw: i64,
    pub pitch: i64,
}

/// What the camera asks of a frame.
#[derive(Clone, Copy, Debug, PartialEq, Eq, Structural)]
pub enum CameraMotion {
    /// The velocity is zero: the position stays where it is.
    Idle,
    /// The velocity, to be rotated from the camera's frame into the world by
    /// `-yaw` and `-pitch` and then added to the position.
    Moving { velocity: Vector3, yaw: i64, pitch: i64 },
}

/// `value` limited to the range of `i64`.
pub open spec fn clamp_i64(value: int) -> int {
    if value < i64::MIN {
        i64::MIN as int
    } else if value > i64::MAX {
        i64::MAX as int
    } else {
        value
    }
}

/// `a + b`, limited to the range of `i64`.
pub fn saturating_sum(a: i64, b: i64) -> (sum: i64)
    ensures
        sum == clamp_i64(a + b),
{
    if b > 0 && a > i64::MAX - b {
        i64::MAX
    } else if b < 0 && a < i64::MIN - b {
        i64::MIN
    } else {
        a + b
    }
}

impl Vector3 {
    pub open spec fn zero() -> Vector3 {
        Vector3 { x: 0, y: 0, z: 0 }
    }

    /// The componentwise sum, each component limited to the range of `i64`.
    pub open spec fn plus(self, other: Vector3) -> Vector3 {
        Vector3 {
            x: clamp_i64(self.x + other.x) as i64,
            y: clamp_i64(self.y + other.y) as i64,
            z: clamp_i64(self.z + other.z) as i64,
        }
    }

    pub fn new(x: i64, y: i64, z: i64) -> (vector: Vector3)
        ensures
            vector == (Vector3 { x, y, z }),
    {
        Vector3 { x, y, z }
    }

    pub fn is_zero(&self) -> (zero: bool)
        ensures
            zero == (*self == Vector3::zero()),
    {
        self.x == 0 && self.y == 0 && self.z == 0
    }

    pub fn saturating_add(self, other: Vector3) -> (sum: Vector3)
        ensures
            sum == self.plus(other),
    {
        Vector3 {
            x: saturating_sum(self.x, other.x),
            y: saturating_sum(self.y, other.y),
            z: saturating_sum(self.z, other.z),
        }
    }
}

impl CameraState {
    /// The camera at rest at its starting place, looking straight ahead.
    pub open spec fn initial() -> CameraState {
        CameraState {
            position: Vector3 {
                x: (500 * SUBUNITS_PER_UNIT) as i64,
                y: (500 * SUBUNITS_PER_UNIT) as i64,
                z: (3000 * SUBUNITS_PER_UNIT) as i64,
            },
            velocity: Vector3::zero(),
            yaw: 0,
            pitch: 0,
        }
    }

    /// The same camera with another velocity.
    pub open spec fn with_velocity(self, velocity: Vector3) -> CameraState {
        CameraState { velocity, ..self }
    }

    /// The state after a key went down: W and S set the z velocity to minus
    /// and plus the camera speed, A and D the x velocity; other keys change
    /// nothing.
    pub open spec fn after_key_down(self, key: Keycode) -> CameraState {
        match key {
            Keycode::W => self.with_velocity(
                Vector3 { z: (-CAMERA_VELOCITY) as i64, ..self.velocity },
            ),
            Keycode::S => self.with_velocity(Vector3 { z: CAMERA_VELOCITY, ..self.velocity }),
            Keycode::A => self.with_velocity(
                Vector3 { x: (-CAMERA_VELOCITY) as i64, ..self.velocity },
            ),
            Keycode::D => self.with_velocity(Vector3 { x: CAMERA_VELOCITY, ..self.velocity }),
            _ => self,
        }
    }

    /// The state after a key went up: W and S clear the z velocity, A and D
    /// the x velocity; other keys change nothing.
    pub open spec fn after_key_up(self, key: Keycode) -> CameraState {
        match key {
            Keycode::W | Keycode::S => self.with_velocity(Vector3 { z: 0, ..self.velocity }),
            Keycode::A | Keycode::D => self.with_velocity(Vector3 { x: 0, ..self.velocity }),
            _ => self,
        }
    }

    /// The state after the pointer moved in free-look: yaw grows and pitch
    /// shrinks by the rotation speed for each pixel, both limited to `i64`.
    pub open spec fn after_look(self, xrel: i32, yrel: i32) -> CameraState {
        CameraState {
            yaw: clamp_i64(self.yaw + xrel * MOUSELOOK_ROTATION_SPEED) as i64,
            pitch: clamp_i64(self.pitch - yrel * MOUSELOOK_ROTATION_SPEED) as i64,
            ..self
        }
    }

    /// What this frame's integration step needs.
    pub open spec fn motion_spec(self) -> CameraMotion {
        if self.velocity == Vector3::zero() {
            CameraMotion::Idle
        } else {
            CameraMotion::Moving { velocity: self.velocity, yaw: self.yaw, pitch: self.pitch }
        }
    }

    /// The state after one integration step, where `rotated_velocity` is the
    /// velocity as the rotation returned it, if it was asked for. An idle
    /// camera keeps its position whatever is handed in.
    pub open spec fn after_step(self, rotated_velocity: Option<Vector3>) -> CameraState {
        match rotated_velocity {
            Some(displacement) if self.velocity != Vector3::zero() => CameraState {
                position: self.position.plus(displacement),
                ..self
            },
            _ => self,
        }
    }

    pub fn new() -> (camera: CameraState)
        ensures
            camera == CameraState::initial(),
    {
        CameraState {
            position: Vector3 {
                x: 500 * SUBUNITS_PER_UNIT,
                y: 500 * SUBUNITS_PER_UNIT,
                z: 3000 * SUBUNITS_PER_UNIT,
            },
            velocity: Vector3 { x: 0, y: 0, z: 0 },
            yaw: 0,
            pitch: 0,
        }
    }

    pub fn key_down(&mut self, key: Keycode)
        ensures
            *final(self) == old(self).after_key_down(key),
    {
        match key {
            Keycode::W => { self.velocity.z = -CAMERA_VELOCITY; },
            Keycode::S => { self.velocity.z = CAMERA_VELOCITY; },
            Keycode::A => { self.velocity.x = -CAMERA_VELOCITY; },
            Keycode::D => { self.velocity.x = CAMERA_VELOCITY; },
            _ => {},
        }
    }

    pub fn key_up(&mut self, key: Keycode)
        ensures
            *final(self) == old(self).after_key_up(key),
    {
        match key {
            Keycode::W | Keycode::S => { self.velocity.z = 0; },
            Keycode::A | Keycode::D => { self.velocity.x = 0; },
            _ => {},
        }
    }

    pub fn look(&mut self, xrel: i32, yrel: i32)
        ensures
            *final(self) == old(self).after_look(xrel, yrel),
    {
        let yaw_step: i64 = (xrel as i64) * MOUSELOOK_ROTATION_SPEED;
        let pitch_step: i64 = -((yrel as i64) * MOUSELOOK_ROTATION_SPEED);
        self.yaw = saturating_sum(self.yaw, yaw_step);
        self.pitch = saturating_sum(self.pitch, pitch_step);
    }

    pub fn motion(&self) -> (motion: CameraMotion)
        ensures
            motion == self.motion_spec(),
    {
        if self.velocity.is_zero() {
            CameraMotion::Idle
        } else {
            CameraMotion::Moving { velocity: self.velocity, yaw: self.yaw, pitch: self.pitch }
        }
    }

    /// One integration step: a moving camera's position advances by the
    /// rotated velocity, with no scaling by elapsed time.
    pub fn step(&mut self, rotated_velocity: Option<Vector3>)
        ensures
            *final(self) == old(self).after_step(rotated_velocity),
    {
        if let Some(displacement) = rotated_velocity {
            if !self.velocity.is_zero() {
                self.position = self.position.saturating_add(displacement);
            }
        }
    }
}

/// Where the rotation leaves the velocity as it is, as it does for a level
/// gaze straight ahead, one step moves a moving camera by its velocity: with
/// the forward key held, 25 world units along minus z and not at all along x
/// and y.
pub proof fn unrotated_step_moves_by_the_velocity(camera: CameraState)
    requires
        camera.velocity != Vector3::zero(),
        i64::MIN <= camera.position.x + camera.velocity.x <= i64::MAX,
        i64::MIN <= camera.position.y + camera.velocity.y <= i64::MAX,
        i64::MIN <= camera.position.z + camera.velocity.z <= i64::MAX,
    ensures
        camera.after_step(Some(camera.velocity)).position.x == camera.position.x
            + camera.velocity.x,
        camera.after_step(Some(camera.velocity)).position.y == camera.position.y
            + camera.velocity.y,
        camera.after_step(Some(camera.velocity)).position.z == camera.position.z
            + camera.velocity.z,
        camera.velocity == (Vector3 { x: 0, y: 0, z: (-CAMERA_VELOCITY) as i64 }) ==> {
            let moved = camera.after_step(Some(camera.velocity)).position;
            &&& moved.x == camera.position.x
            &&& moved.y == camera.position.y
            &&& moved.z == camera.position.z - 25 * SUBUNITS_PER_UNIT
        },
{
}

/// A camera at rest keeps its position through a step, whatever its yaw and
/// pitch are and whatever the rotation returned.
pub proof fn step_at_rest_keeps_the_position(
    camera: CameraState,
    rotated_velocity: Option<Vector3>,
)
    requires
        camera.velocity == Vector3::zero(),
    ensures
        camera.after_step(rotated_velocity) == camera,
{
}

} // verus!
