//! Steering the camera gimbal after the tracked region.
//!
//! The configuration lists regions of the image, each with a gain vector.
//! Every tick the commanded rate is the sum, over those regions, of the gain
//! times the area in which the tracked rectangle overlaps the region. While
//! the centre of the tracked rectangle lies outside the central tolerance an
//! error lasts; one that lasts too long asks for the gimbal to rehome.

use crate::config::{Config, GimbalTrackingRect};
use crate::fixed::{clamped_sym, fx_abs, fx_clamp_sym, magnitude, trunc_div, ONE};
use crate::message::{CameraTrackedRegion, GimbalCommand, GimbalValueData};
use crate::vector::{
    rect_area, rect_area_of, rect_center, rect_center_of, rect_intersect, rect_intersection,
    v2_add, v2_scale, v2_scaled, v2_sum,
};
use vstd::prelude::*;

verus! {

/// The value index under which a gimbal motor reports its encoder angle.
pub const ENCODER_ANGLE_INDEX: u8 = 0x2c;

/// What the controller knows of the gimbal between ticks.
#[derive(Clone, Copy, Debug, PartialEq)]
pub struct GimbalController {
    /// The last reported encoder angle of each of the three motors.
    pub current_angles: [i16; 3],
    /// Since when the tracked rectangle has been off centre.
    pub error_since: Option<u64>,
    pub motor_on: bool,
}

/// What the gimbal controller did in one tick.
#[derive(Clone, Copy, Debug, PartialEq)]
pub struct GimbalControlStatus {
    pub angles: [i16; 3],
    pub rates: [i16; 2],
    /// For how long, in microseconds, the tracked rectangle has been off
    /// centre without interruption.
    pub current_error_duration: u64,
}

/// The rate that the first `n` configured regions ask for.
pub open spec fn tracking_rate(rects: Seq<GimbalTrackingRect>, region: [i64; 4], n: int) -> [i64; 2]
    decreases n,
{
    if n <= 0 {
        [0i64, 0i64]
    } else {
        v2_sum(
            tracking_rate(rects, region, n - 1),
            v2_scaled(rects[n - 1].gain, rect_area_of(rect_intersection(region, rects[n - 1].rect))),
        )
    }
}

/// A fixed-point rate as a whole number of gimbal units, limited to
/// magnitude `|max_rate|`.
pub open spec fn rate_command(rate: i64, max_rate: i16) -> i16 {
    let bound: i64 = if max_rate == i16::MIN {
        i16::MAX as i64
    } else {
        magnitude(max_rate as i64)
    };
    clamped_sym(trunc_div(rate as int, ONE as int) as i64, bound) as i16
}

/// Whether the centre of `rect` lies outside the central tolerance.
pub open spec fn off_center(config: &Config, rect: [i64; 4]) -> bool {
    let c = rect_center_of(rect);
    let tol = config.gimbal.center_tolerance;
    c[0] > tol || c[0] < -tol || c[1] > tol || c[1] < -tol
}

/// Since when an error has lasted, after a tick at `now`.
pub open spec fn error_since_after(since: Option<u64>, error: bool, now: u64) -> Option<u64> {
    if error {
        match since {
            Some(t) => Some(t),
            None => Some(now),
        }
    } else {
        None
    }
}

/// How long an error that began at `since` has lasted at `now`.
pub open spec fn error_duration(since: Option<u64>, now: u64) -> u64 {
    match since {
        Some(t) => if now >= t {
            (now - t) as u64
        } else {
            0
        },
        None => 0,
    }
}

impl GimbalController {
    /// A gimbal controller before anything was reported: all angles zero, no
    /// error, motors off.
    pub open spec fn initial() -> GimbalController {
        GimbalController { current_angles: [0i16, 0i16, 0i16], error_since: None, motor_on: false }
    }

    /// A gimbal controller before anything was reported.
    pub fn new() -> (g: GimbalController)
        ensures
            g == Self::initial(),
    {
        let g = GimbalController { current_angles: [0, 0, 0], error_since: None, motor_on: false };
        assert(g.current_angles =~= Self::initial().current_angles);
        g
    }

    /// The angles after the motor report `data`.
    pub open spec fn angles_after(&self, data: GimbalValueData) -> Seq<i16> {
        if data.addr.index == ENCODER_ANGLE_INDEX && data.addr.target < 3 {
            self.current_angles@.update(data.addr.target as int, data.value)
        } else {
            self.current_angles@
        }
    }

    /// Takes in a value that a gimbal motor reported. An encoder angle of
    /// one of the three motors replaces the estimate for that motor; any
    /// other value is ignored.
    pub fn value_received(&mut self, data: GimbalValueData)
        ensures
            final(self).current_angles@ == old(self).angles_after(data),
            final(self).error_since == old(self).error_since,
            final(self).motor_on == old(self).motor_on,
    {
        if data.addr.index == ENCODER_ANGLE_INDEX {
            let a = self.current_angles;
            if data.addr.target == 0 {
                self.current_angles = [data.value, a[1], a[2]];
            } else if data.addr.target == 1 {
                self.current_angles = [a[0], data.value, a[2]];
            } else if data.addr.target == 2 {
                self.current_angles = [a[0], a[1], data.value];
            }
        }
        assert(self.current_angles@ =~= old(self).angles_after(data));
    }

    /// Notes whether the motors are to be powered.
    pub fn set_motor_enable(&mut self, enable: bool)
        ensures
            final(self).motor_on == enable,
            final(self).current_angles == old(self).current_angles,
            final(self).error_since == old(self).error_since,
    {
        self.motor_on = enable;
    }

    /// The command of one tick: for each axis the summed rate as a whole
    /// number, limited to the configured maximum.
    pub open spec fn command_for(&self, config: &Config, region: [i64; 4]) -> GimbalCommand {
        let rate = tracking_rate(
            config.gimbal.tracking_rects@,
            region,
            config.gimbal.tracking_rects@.len() as int,
        );
        GimbalCommand {
            motor_on: self.motor_on,
            rates: [
                rate_command(rate[0], config.gimbal.max_rate),
                rate_command(rate[1], config.gimbal.max_rate),
            ],
        }
    }

    /// The controller after a tick at `now`.
    pub open spec fn after_tick(&self, config: &Config, rect: [i64; 4], now: u64) -> GimbalController {
        GimbalController {
            error_since: error_since_after(self.error_since, off_center(config, rect), now),
            ..*self
        }
    }

    /// What a tick at `now` reports.
    pub open spec fn status_for(&self, config: &Config, rect: [i64; 4], now: u64) -> GimbalControlStatus {
        GimbalControlStatus {
            angles: self.current_angles,
            rates: self.command_for(config, rect).rates,
            current_error_duration: error_duration(
                self.after_tick(config, rect, now).error_since,
                now,
            ),
        }
    }

    /// One tick at `now`: returns the rate command for the gimbal and the
    /// status to publish, and keeps track of how long the tracked rectangle
    /// has been off centre.
    pub fn tick(&mut self, config: &Config, region: &CameraTrackedRegion, now: u64) -> (r: (
        GimbalCommand,
        GimbalControlStatus,
    ))
        ensures
            r.0 == old(self).command_for(config, region.rect),
            r.1 == old(self).status_for(config, region.rect, now),
            *final(self) == old(self).after_tick(config, region.rect, now),
    {
        let rects = &config.gimbal.tracking_rects;
        let mut rate: [i64; 2] = [0, 0];
        let mut n: usize = 0;
        assert(rate@ =~= tracking_rate(rects@, region.rect, 0)@);
        while n < rects.len()
            invariant
                n <= rects.len(),
                rate == tracking_rate(rects@, region.rect, n as int),
            decreases rects.len() - n,
        {
            let overlap = rect_area(rect_intersect(region.rect, rects[n].rect));
            rate = v2_add(rate, v2_scale(rects[n].gain, overlap));
            n += 1;
        }
        let bound: i64 = if config.gimbal.max_rate == i16::MIN {
            i16::MAX as i64
        } else {
            fx_abs(config.gimbal.max_rate as i64)
        };
        let rx = fx_clamp_sym(rate[0] / ONE, bound) as i16;
        let ry = fx_clamp_sym(rate[1] / ONE, bound) as i16;
        let c = rect_center(region.rect);
        let tol = config.gimbal.center_tolerance;
        let error = tol == i64::MIN || c[0] > tol || c[0] < -tol || c[1] > tol || c[1] < -tol;
        let since = if error {
            match self.error_since {
                Some(t) => Some(t),
                None => Some(now),
            }
        } else {
            None
        };
        let duration = match since {
            Some(t) => if now >= t {
                now - t
            } else {
                0
            },
            None => 0,
        };
        self.error_since = since;
        let rates = [rx, ry];
        assert(rates =~= old(self).command_for(config, region.rect).rates);
        (
            GimbalCommand { motor_on: self.motor_on, rates },
            GimbalControlStatus {
                angles: self.current_angles,
                rates,
                current_error_duration: duration,
            },
        )
    }
}

} // verus!
