//! The controller's timers.
//!
//! A timer is polled, never waited on. It fires when at least one period
//! has passed since it last fired; periods that were missed meanwhile are
//! not made up for, and the next period starts at the instant of the poll.

use crate::message::TICK_PERIOD_US;
use vstd::prelude::*;

verus! {

/// The period of the video-frame timer, in microseconds: 30 frames a second.
pub const VIDEO_FRAME_PERIOD_US: u64 = 33_333;

/// The period at which the shared configuration is looked at, in
/// microseconds.
pub const CONFIG_POLL_PERIOD_US: u64 = 250_000;

/// A polled timer: its period and when it last fired, in microseconds.
#[derive(Clone, Copy, Debug, PartialEq, Eq, Structural)]
pub struct Timer {
    pub period_us: u64,
    pub last_fire: u64,
}

impl Timer {
    /// A timer that has just fired at `now`.
    pub fn new(period_us: u64, now: u64) -> (t: Timer)
        ensures
            t == (Timer { period_us, last_fire: now }),
    {
        Timer { period_us, last_fire: now }
    }

    /// Whether a full period has passed at `now`.
    pub open spec fn elapsed(&self, now: u64) -> bool {
        now >= self.last_fire && now - self.last_fire >= self.period_us
    }

    /// Fires if a full period has passed, and then returns the time since
    /// the last fire.
    pub fn poll(&mut self, now: u64) -> (r: Option<u64>)
        ensures
            final(self).period_us == old(self).period_us,
            match r {
                Some(dt) => old(self).elapsed(now) && dt == now - old(self).last_fire
                    && final(self).last_fire == now,
                None => !old(self).elapsed(now) && final(self).last_fire == old(self).last_fire,
            },
    {
        if now >= self.last_fire && now - self.last_fire >= self.period_us {
            let dt = now - self.last_fire;
            self.last_fire = now;
            Some(dt)
        } else {
            None
        }
    }
}

/// The three timers of the event loop.
#[derive(Clone, Copy, Debug, PartialEq, Eq, Structural)]
pub struct ControllerTimers {
    pub tick: Timer,
    pub video_frame: Timer,
    pub config_poll: Timer,
}

impl ControllerTimers {
    /// The timers with their standard periods, all just fired at `now`.
    pub open spec fn started(now: u64) -> ControllerTimers {
        ControllerTimers {
            tick: Timer { period_us: TICK_PERIOD_US, last_fire: now },
            video_frame: Timer { period_us: VIDEO_FRAME_PERIOD_US, last_fire: now },
            config_poll: Timer { period_us: CONFIG_POLL_PERIOD_US, last_fire: now },
        }
    }

    /// The timers with their standard periods, all started at `now`.
    pub fn new(now: u64) -> (t: ControllerTimers)
        ensures
            t == Self::started(now),
    {
        ControllerTimers {
            tick: Timer::new(TICK_PERIOD_US, now),
            video_frame: Timer::new(VIDEO_FRAME_PERIOD_US, now),
            config_poll: Timer::new(CONFIG_POLL_PERIOD_US, now),
        }
    }
}

} // verus!
