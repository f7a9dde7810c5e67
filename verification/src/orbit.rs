//! Orbit-camera input handling.
//!
//! The controller accumulates pointer movement into two rotation angles
//! while the control button is held, and wheel movement into a distance
//! from the target.  All values are fixed-point (`UNIT` steps per radian
//! or model unit).  The distance is clamped to a small positive minimum so
//! the camera never crosses through the target; angles are clamped to a
//! range far beyond any reachable value so that accumulation stays exact
//! in practice and bounded in principle.
//!
//! Turning the angles and distance into a placement is the renderer's
//! concern: the transform is the composition
//! `translate(target) * rotate_yaw(vertical axis) * rotate_pitch(horizontal
//! axis) * translate(0, 0, distance)`, and the orientation is the pitch
//! rotation followed by the yaw rotation.

use vstd::prelude::*;

verus! {

use crate::UNIT;
use crate::math::{clamp, div_trunc, clamp_i64, div_trunc_i64};
use crate::mesh::{Vertex, coord_bounded};
use vstd::arithmetic::mul::{lemma_mul_nonnegative, lemma_mul_upper_bound};
use vstd::arithmetic::div_mod::{lemma_div_pos_is_pos, lemma_div_is_ordered};

/// Largest magnitude of a pointer delta in one sample: pointer movement is
/// normalized to a device-independent range of two model units.
pub const POINTER_LIMIT: i64 = 2_000_000;

/// Largest magnitude of a wheel delta in one sample.
pub const WHEEL_LIMIT: i64 = 1_000_000_000;

/// Largest rotation speed a controller may be configured with.
pub const SPEED_LIMIT: i64 = 1_000_000_000;

/// Range the accumulated angles are kept in.
pub const ANGLE_LIMIT: i64 = 1_000_000_000_000_000;

/// Smallest distance the camera may take to the target: keeping it
/// positive stops the camera from crossing through the target.
pub const DISTANCE_MIN: i64 = 10_000;

/// Largest distance the camera may take to the target.
pub const DISTANCE_MAX: i64 = 1_000_000_000_000_000;

/// Divisor turning a raw wheel delta into a distance change.
pub const WHEEL_DIVISOR: i64 = 1_000;

/// One frame's worth of pointer and wheel input.
#[derive(Clone, Copy, PartialEq, Eq, Structural, Debug)]
pub struct InputSample {
    /// Whether the designated control button is currently held.
    pub button_held: bool,
    /// Horizontal pointer movement since the last sample.
    pub pointer_dx: i64,
    /// Vertical pointer movement since the last sample.
    pub pointer_dy: i64,
    /// Wheel movement since the last sample.
    pub wheel_delta: i64,
}

impl InputSample {
    /// A sample within the device-independent input ranges; a malformed
    /// sample is ignored for its frame.
    pub open spec fn valid(self) -> bool {
        &&& -POINTER_LIMIT <= self.pointer_dx <= POINTER_LIMIT
        &&& -POINTER_LIMIT <= self.pointer_dy <= POINTER_LIMIT
        &&& -WHEEL_LIMIT <= self.wheel_delta <= WHEEL_LIMIT
    }

    /// Runtime check of `valid`.
    pub fn is_valid(&self) -> (b: bool)
        ensures
            b == self.valid(),
    {
        -POINTER_LIMIT <= self.pointer_dx && self.pointer_dx <= POINTER_LIMIT && -POINTER_LIMIT
            <= self.pointer_dy && self.pointer_dy <= POINTER_LIMIT && -WHEEL_LIMIT
            <= self.wheel_delta && self.wheel_delta <= WHEEL_LIMIT
    }
}

/// A pointer delta scaled by the rotation speed: `speed * d / UNIT`,
/// rounded toward zero.
pub open spec fn scaled_delta(speed: int, d: int) -> int {
    div_trunc(speed * d, UNIT as int)
}

/// Executable form of `scaled_delta`.
fn scaled_delta_i64(speed: i64, d: i64) -> (r: i64)
    requires
        0 <= speed <= SPEED_LIMIT,
        -POINTER_LIMIT <= d <= POINTER_LIMIT,
    ensures
        r as int == scaled_delta(speed as int, d as int),
        -(SPEED_LIMIT as int) * (POINTER_LIMIT as int) / (UNIT as int) <= r as int <= (
        SPEED_LIMIT as int) * (POINTER_LIMIT as int) / (UNIT as int),
{
    if d >= 0 {
        proof {
            lemma_mul_nonnegative(speed as int, d as int);
            lemma_mul_upper_bound(speed as int, SPEED_LIMIT as int, d as int, POINTER_LIMIT as int);
            lemma_div_pos_is_pos(speed as int * d as int, UNIT as int);
            lemma_div_is_ordered(
                speed as int * d as int,
                SPEED_LIMIT as int * POINTER_LIMIT as int,
                UNIT as int,
            );
        }
        (speed * d) / UNIT
    } else {
        let nd = -d;
        proof {
            lemma_mul_nonnegative(speed as int, nd as int);
            lemma_mul_upper_bound(
                speed as int,
                SPEED_LIMIT as int,
                nd as int,
                POINTER_LIMIT as int,
            );
            lemma_div_pos_is_pos(speed as int * nd as int, UNIT as int);
            lemma_div_is_ordered(
                speed as int * nd as int,
                SPEED_LIMIT as int * POINTER_LIMIT as int,
                UNIT as int,
            );
            assert(speed as int * d as int == -(speed as int * nd as int)) by (nonlinear_arith)
                requires
                    nd as int == -(d as int),
            ;
        }
        -((speed * nd) / UNIT)
    }
}

/// Orbit state: two rotation angles around the target, a distance, and the
/// target point, with the configured rotation speed.
#[derive(Clone, Copy, PartialEq, Eq, Structural, Debug)]
pub struct OrbitController {
    /// Rotation around the vertical axis.
    pub yaw: i64,
    /// Rotation around the horizontal axis.
    pub pitch: i64,
    /// Distance from the target along the local forward axis.
    pub distance: i64,
    /// Angle accumulated per unit of pointer movement.
    pub speed: i64,
    /// The point the camera orbits.
    pub target: Vertex,
}

impl OrbitController {
    /// All fields are within their working ranges.
    pub open spec fn wf(self) -> bool {
        &&& -ANGLE_LIMIT <= self.yaw <= ANGLE_LIMIT
        &&& -ANGLE_LIMIT <= self.pitch <= ANGLE_LIMIT
        &&& DISTANCE_MIN <= self.distance <= DISTANCE_MAX
        &&& 0 <= self.speed <= SPEED_LIMIT
        &&& coord_bounded(self.target)
    }

    /// A controller at rest: no rotation, unit distance, unit speed,
    /// orbiting the origin.
    pub fn new() -> (c: OrbitController)
        ensures
            c.wf(),
            c.yaw == 0,
            c.pitch == 0,
            c.distance == UNIT,
            c.speed == UNIT,
            c.target == (Vertex { x: 0, y: 0, z: 0 }),
    {
        OrbitController {
            yaw: 0,
            pitch: 0,
            distance: UNIT,
            speed: UNIT,
            target: Vertex { x: 0, y: 0, z: 0 },
        }
    }

    /// Change the rotation speed.
    pub fn set_speed(&mut self, speed: i64)
        requires
            old(self).wf(),
            0 <= speed <= SPEED_LIMIT,
        ensures
            final(self).wf(),
            *final(self) == (OrbitController { speed, ..*old(self) }),
    {
        self.speed = speed;
    }

    /// Fold one frame's input into the orbit state.
    ///
    /// While the control button is held, pointer movement accumulates into
    /// the angles; otherwise the angles are unchanged this frame.  Wheel
    /// movement, divided by `WHEEL_DIVISOR`, moves the distance, which is
    /// then clamped to stay positive and in range.  A sample outside the
    /// input ranges is ignored for this frame.
    pub fn update(&mut self, input: &InputSample)
        requires
            old(self).wf(),
        ensures
            final(self).wf(),
            final(self).speed == old(self).speed,
            final(self).target == old(self).target,
            !input.valid() ==> *final(self) == *old(self),
            input.valid() && input.button_held ==> {
                &&& final(self).yaw == clamp(
                    old(self).yaw + scaled_delta(old(self).speed as int, input.pointer_dx as int),
                    -ANGLE_LIMIT as int,
                    ANGLE_LIMIT as int,
                )
                &&& final(self).pitch == clamp(
                    old(self).pitch + scaled_delta(old(self).speed as int, input.pointer_dy as int),
                    -ANGLE_LIMIT as int,
                    ANGLE_LIMIT as int,
                )
            },
            input.valid() && !input.button_held ==> final(self).yaw == old(self).yaw
                && final(self).pitch == old(self).pitch,
            input.valid() ==> final(self).distance == clamp(
                old(self).distance + div_trunc(input.wheel_delta as int, WHEEL_DIVISOR as int),
                DISTANCE_MIN as int,
                DISTANCE_MAX as int,
            ),
    {
        if !input.is_valid() {
            return ;
        }
        if input.button_held {
            let dyaw = scaled_delta_i64(self.speed, input.pointer_dx);
            let dpitch = scaled_delta_i64(self.speed, input.pointer_dy);
            self.yaw = clamp_i64(self.yaw + dyaw, -ANGLE_LIMIT, ANGLE_LIMIT);
            self.pitch = clamp_i64(self.pitch + dpitch, -ANGLE_LIMIT, ANGLE_LIMIT);
        }
        let ddist = div_trunc_i64(input.wheel_delta, WHEEL_DIVISOR);
        self.distance = clamp_i64(self.distance + ddist, DISTANCE_MIN, DISTANCE_MAX);
    }
}

} // verus!
