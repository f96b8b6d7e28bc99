//! What the light animator is told about the robot.

use crate::gimbal::GimbalControlStatus;
use crate::winch::{MechStatus, WinchController};
use vstd::prelude::*;

verus! {

/// A full turn in radians.
pub const TAU: i64 = 6_283_185;

/// How many encoder counts of the gimbal make a full turn.
pub const GIMBAL_COUNTS_PER_TURN: i64 = 4096;

/// Which of its configured colours the flyer's ring shows.
#[derive(Clone, Copy, Debug, PartialEq, Eq, Structural)]
pub enum RingState {
    Halted,
    /// The same region has been tracked for longer than the boredom
    /// threshold.
    Bored,
    Tracking,
}

/// What the lights of one winch show.
#[derive(Clone, Copy, Debug, PartialEq, Eq, Structural)]
pub struct WinchLighting {
    /// The velocity that the winch last reported.
    pub motion: i64,
    /// The velocity that the winch was last commanded.
    pub command: i64,
    pub status: MechStatus,
}

/// What the light animator is to know of the robot.
#[derive(Clone, Debug, PartialEq)]
pub struct LightEnvironment {
    pub winches: Vec<WinchLighting>,
    /// The camera's yaw in radians.
    pub camera_yaw_angle: i64,
    pub ring: RingState,
}

/// What the lights of `winch` show.
pub open spec fn winch_lighting_of(winch: WinchController) -> WinchLighting {
    WinchLighting {
        motion: winch.velocity,
        command: winch.commanded_velocity,
        status: winch.mech_status,
    }
}

/// The camera's yaw for the lights: that of the yaw motor in the gimbal
/// status of the last tick, in radians; zero while there is no such status.
pub open spec fn camera_yaw(gimbal_status: Option<GimbalControlStatus>) -> i64 {
    match gimbal_status {
        Some(status) => yaw_radians(status.angles[0]),
        None => 0,
    }
}

/// The angle in radians of a gimbal encoder reading.
pub open spec fn yaw_radians(counts: i16) -> i64 {
    if counts >= 0 {
        ((counts * TAU) / (GIMBAL_COUNTS_PER_TURN as int)) as i64
    } else {
        (-((-(counts * TAU)) / (GIMBAL_COUNTS_PER_TURN as int))) as i64
    }
}

/// What the lights of `winch` show.
pub fn winch_lighting(winch: &WinchController) -> (l: WinchLighting)
    ensures
        l == winch_lighting_of(*winch),
{
    WinchLighting {
        motion: winch.velocity,
        command: winch.commanded_velocity,
        status: winch.mech_status,
    }
}

/// The angle in radians of a gimbal encoder reading, rounded toward zero.
pub fn yaw_angle(counts: i16) -> (r: i64)
    ensures
        r == yaw_radians(counts),
{
    ((counts as i64) * TAU) / GIMBAL_COUNTS_PER_TURN
}

} // verus!
