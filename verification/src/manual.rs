//! Latched joystick state.
//!
//! Each axis keeps the last value commanded for it, limited to -1..1; an
//! axis that was never set reads as zero. The three axes of motion drive a
//! velocity that ramps toward its target at the configured acceleration.

use crate::config::Config;
use crate::fixed::{
    clamped, clamped_sym, fx_add, fx_clamp, fx_clamp_sym, fx_diff, fx_mul, fx_product, fx_sub,
    fx_sum, lemma_product_bound, magnitude, ONE,
};
use crate::message::ManualControlAxis;
use vstd::prelude::*;

verus! {

/// The latched value of every axis, and the ramped velocity.
pub struct ManualControls {
    camera_yaw: i64,
    camera_pitch: i64,
    relative_x: i64,
    relative_y: i64,
    relative_z: i64,
    velocity: [i64; 3],
}

/// One step of a ramp: `current` moved toward `target` by at most `|step|`.
pub open spec fn ramped(current: i64, target: i64, step: i64) -> i64 {
    fx_sum(current, clamped_sym(fx_diff(target, current), step))
}

/// Whether the vector `v` is shorter than `deadzone`.
pub open spec fn shorter_than(v: [i64; 2], deadzone: i64) -> bool {
    deadzone > 0 && v[0] * v[0] + v[1] * v[1] < deadzone * deadzone
}

/// A ramp never overshoots: one step leaves the value between where it was
/// and its target, and no further from where it was than the step.
pub proof fn lemma_ramp_limited(current: i64, target: i64, step: i64)
    ensures
        current <= target ==> current <= ramped(current, target, step) <= target,
        current >= target ==> target <= ramped(current, target, step) <= current,
        ramped(current, target, step) - current <= magnitude(step),
        current - ramped(current, target, step) <= magnitude(step),
{
}

proof fn lemma_square_range(a: int)
    requires
        -0x8000_0000_0000_0000 <= a <= 0x8000_0000_0000_0000,
    ensures
        0 <= a * a <= 0x4000_0000_0000_0000_0000_0000_0000_0000,
{
    lemma_product_bound(a, a);
    assert(0 <= a * a) by (nonlinear_arith);
}

impl ManualControls {
    /// The latched value of an axis.
    pub closed spec fn value(&self, axis: ManualControlAxis) -> i64 {
        match axis {
            ManualControlAxis::CameraYaw => self.camera_yaw,
            ManualControlAxis::CameraPitch => self.camera_pitch,
            ManualControlAxis::RelativeX => self.relative_x,
            ManualControlAxis::RelativeY => self.relative_y,
            ManualControlAxis::RelativeZ => self.relative_z,
        }
    }

    /// The ramped velocity, in metres per second on X, Y and Z.
    pub closed spec fn velocity(&self) -> [i64; 3] {
        self.velocity
    }

    /// Every axis lies between -1 and 1.
    pub open spec fn in_range(&self) -> bool {
        forall|axis: ManualControlAxis| -ONE <= #[trigger] self.value(axis) <= ONE
    }

    /// Every axis reads zero.
    pub open spec fn centered(&self) -> bool {
        forall|axis: ManualControlAxis| #[trigger] self.value(axis) == 0
    }

    /// The velocity that axis `i` of X, Y, Z asks for.
    pub open spec fn target_velocity(&self, config: &Config, i: int) -> i64 {
        let axis = if i == 0 {
            ManualControlAxis::RelativeX
        } else if i == 1 {
            ManualControlAxis::RelativeY
        } else {
            ManualControlAxis::RelativeZ
        };
        fx_product(self.value(axis), config.params.manual_control_velocity_m_per_sec)
    }

    /// Manual controls with every axis centred and no velocity.
    pub fn new() -> (m: ManualControls)
        ensures
            m.centered(),
            m.in_range(),
            m.velocity()@ == seq![0i64, 0i64, 0i64],
    {
        let m = ManualControls {
            camera_yaw: 0,
            camera_pitch: 0,
            relative_x: 0,
            relative_y: 0,
            relative_z: 0,
            velocity: [0, 0, 0],
        };
        assert(m.velocity@ =~= seq![0i64, 0i64, 0i64]);
        m
    }

    /// The latched value of an axis.
    pub fn get(&self, axis: ManualControlAxis) -> (v: i64)
        ensures
            v == self.value(axis),
    {
        match axis {
            ManualControlAxis::CameraYaw => self.camera_yaw,
            ManualControlAxis::CameraPitch => self.camera_pitch,
            ManualControlAxis::RelativeX => self.relative_x,
            ManualControlAxis::RelativeY => self.relative_y,
            ManualControlAxis::RelativeZ => self.relative_z,
        }
    }

    /// Latches `value`, limited to -1..1, on one axis.
    pub fn control_value(&mut self, axis: ManualControlAxis, value: i64)
        ensures
            final(self).value(axis) == clamped(value, (-ONE) as i64, ONE),
            forall|other: ManualControlAxis|
                other != axis ==> final(self).value(other) == old(self).value(other),
            final(self).velocity() == old(self).velocity(),
            old(self).in_range() ==> final(self).in_range(),
    {
        let v = fx_clamp(value, -ONE, ONE);
        match axis {
            ManualControlAxis::CameraYaw => {
                self.camera_yaw = v;
            },
            ManualControlAxis::CameraPitch => {
                self.camera_pitch = v;
            },
            ManualControlAxis::RelativeX => {
                self.relative_x = v;
            },
            ManualControlAxis::RelativeY => {
                self.relative_y = v;
            },
            ManualControlAxis::RelativeZ => {
                self.relative_z = v;
            },
        }
        proof {
            if old(self).in_range() {
                assert forall|a: ManualControlAxis| -ONE <= #[trigger] self.value(a) <= ONE by {
                    if a != axis {
                        assert(self.value(a) == old(self).value(a));
                    }
                }
            }
        }
    }

    /// Zeroes every axis. The ramped velocity keeps its history.
    pub fn control_reset(&mut self)
        ensures
            final(self).centered(),
            final(self).in_range(),
            final(self).velocity() == old(self).velocity(),
    {
        self.camera_yaw = 0;
        self.camera_pitch = 0;
        self.relative_x = 0;
        self.relative_y = 0;
        self.relative_z = 0;
    }

    /// Zeroes every axis and forgets the ramped velocity.
    pub fn full_reset(&mut self)
        ensures
            final(self).centered(),
            final(self).in_range(),
            final(self).velocity()@ == seq![0i64, 0i64, 0i64],
    {
        self.camera_yaw = 0;
        self.camera_pitch = 0;
        self.relative_x = 0;
        self.relative_y = 0;
        self.relative_z = 0;
        self.velocity = [0, 0, 0];
        assert(self.velocity@ =~= seq![0i64, 0i64, 0i64]);
    }

    /// Advances the ramp by `dt` seconds: each component of the velocity
    /// moves toward its target by at most the configured acceleration times
    /// `dt`.
    pub fn control_tick(&mut self, config: &Config, dt: i64)
        ensures
            forall|axis: ManualControlAxis| final(self).value(axis) == old(self).value(axis),
            forall|i: int|
                0 <= i < 3 ==> final(self).velocity()[i] == ramped(
                    old(self).velocity()[i],
                    old(self).target_velocity(config, i),
                    fx_product(config.params.accel_rate_m_per_sec2, dt),
                ),
    {
        let step = fx_mul(config.params.accel_rate_m_per_sec2, dt);
        let speed = config.params.manual_control_velocity_m_per_sec;
        let tx = fx_mul(self.relative_x, speed);
        let ty = fx_mul(self.relative_y, speed);
        let tz = fx_mul(self.relative_z, speed);
        let vx = fx_add(self.velocity[0], fx_clamp_sym(fx_sub(tx, self.velocity[0]), step));
        let vy = fx_add(self.velocity[1], fx_clamp_sym(fx_sub(ty, self.velocity[1]), step));
        let vz = fx_add(self.velocity[2], fx_clamp_sym(fx_sub(tz, self.velocity[2]), step));
        self.velocity = [vx, vy, vz];
    }

    /// The ramped velocity, in metres per second on X, Y and Z.
    pub fn limited_velocity(&self) -> (v: [i64; 3])
        ensures
            v == self.velocity(),
    {
        self.velocity
    }

    /// The camera steering vector: yaw, then pitch.
    pub fn camera_vector(&self) -> (v: [i64; 2])
        ensures
            v[0] == self.value(ManualControlAxis::CameraYaw),
            v[1] == self.value(ManualControlAxis::CameraPitch),
    {
        [self.camera_yaw, self.camera_pitch]
    }

    /// Whether a steering vector is too short to count as input.
    pub fn camera_vector_in_deadzone(vec: [i64; 2], config: &Config) -> (b: bool)
        ensures
            b == shorter_than(vec, config.vision.manual_camera_deadzone),
    {
        let dz = config.vision.manual_camera_deadzone;
        if dz <= 0 {
            return false;
        }
        proof {
            lemma_square_range(vec[0] as int);
            lemma_square_range(vec[1] as int);
            lemma_square_range(dz as int);
        }
        let x = vec[0] as i128;
        let y = vec[1] as i128;
        let d = dz as i128;
        let len2: u128 = (x * x) as u128 + (y * y) as u128;
        len2 < (d * d) as u128
    }

    /// Whether either camera axis is off centre.
    pub fn camera_control_active(&self) -> (b: bool)
        ensures
            b == (self.value(ManualControlAxis::CameraYaw) != 0 || self.value(
                ManualControlAxis::CameraPitch,
            ) != 0),
    {
        self.camera_yaw != 0 || self.camera_pitch != 0
    }
}

} // verus!
