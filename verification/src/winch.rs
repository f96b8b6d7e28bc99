//! The control loop of one winch.
//!
//! Each status report from a winch is answered with one command. Between
//! the two the controller refreshes its filtered view of the cable force,
//! classifies the winch's mechanical state, advances the position setpoint by
//! the commanded velocity unless an interlock forbids it, and runs the PID
//! loop whose output accompanies the command.
//!
//! Positions and forces are in sensor counts, velocities in counts per
//! second, all fixed-point unless the field is an `i32`.

use crate::config::{Config, ControllerMode, WinchCalibration};
use crate::fixed::{
    clamped, clamped_sym, fx_add, fx_clamp, fx_clamp_sym, fx_diff, fx_from_i32, fx_lerp,
    fx_lerped, fx_mul, fx_product, fx_sub, fx_sum, fx_to_i32, sat32, sat64, trunc_div, ONE,
};
use crate::message::{
    ForceCommand, PIDGains, WinchCommand, WinchDeadband, WinchPWM, WinchStatus,
};
use vstd::prelude::*;

verus! {

/// The length of one control tick in seconds.
pub const TICK_DT: i64 = 4_000;

/// What the mechanics of a winch allow.
#[derive(Clone, Copy, Debug, PartialEq, Eq, Structural)]
pub enum MechStatus {
    Normal,
    /// Commanded to move, yet stopped for longer than the stuck timeout.
    Stuck,
    /// The filtered force is at or beyond a limit: 1 at the upper limit, -1
    /// at the lower. Motion in the direction of the sign is forbidden.
    ForceLimited(i8),
}

/// The control loop of one winch between statuses.
#[derive(Clone, Copy, Debug, PartialEq, Eq, Structural)]
pub struct WinchController {
    pub id: usize,
    /// The tick counter of the last status, if there was one.
    pub last_tick_counter: Option<u32>,
    /// When the last status arrived; before the first, when the controller
    /// was made.
    pub last_update: u64,
    /// The position that the last status reported.
    pub position: i32,
    /// The velocity that the last status reported.
    pub velocity: i64,
    pub filtered_force: i64,
    pub position_err_filtered: i64,
    pub velocity_err_filtered: i64,
    pub position_err_integral: i64,
    pub mech_status: MechStatus,
    /// What quantizing the PWM has left over so far, under one clock tick.
    pub quant_residual: i64,
    /// The position that the PID loop steers to.
    pub setpoint: i64,
    /// The velocity that the last tick applied to the setpoint.
    pub commanded_velocity: i64,
    /// Since when the winch has been stopped although commanded to move.
    pub still_since: Option<u64>,
}

/// `x` brought into the range of an `i16`.
pub open spec fn sat16(x: int) -> i16 {
    if x < i16::MIN as int {
        i16::MIN
    } else if x > i16::MAX as int {
        i16::MAX
    } else {
        x as i16
    }
}

/// The upper force limit in counts.
pub open spec fn force_max_counts(config: &Config, cal: &WinchCalibration) -> i64 {
    cal.force_of_kg(config.params.force_max_kg)
}

/// The lower force limit in counts.
pub open spec fn force_min_counts(config: &Config, cal: &WinchCalibration) -> i64 {
    cal.force_of_kg(config.params.force_min_kg)
}

/// The mechanical state for a filtered force and a stuck verdict. Stuck
/// wins over a force limit, the upper limit over the lower.
pub open spec fn classified(stuck: bool, force: i64, force_min: i64, force_max: i64) -> MechStatus {
    if stuck {
        MechStatus::Stuck
    } else if force >= force_max {
        MechStatus::ForceLimited(1i8)
    } else if force <= force_min {
        MechStatus::ForceLimited(-1i8)
    } else {
        MechStatus::Normal
    }
}

/// Whether `x` points the way of `sign`: up for a positive sign, down for a
/// negative one.
pub open spec fn points_toward(sign: i8, x: i64) -> bool {
    (sign > 0 && x > 0) || (sign < 0 && x < 0)
}

/// The velocity `v_target`, in metres per second, limited to the configured
/// manual velocity.
pub open spec fn limited_target(config: &Config, v_target: i64) -> i64 {
    clamped_sym(v_target, config.params.manual_control_velocity_m_per_sec)
}

/// The step in counts that one tick at the velocity `v_target` makes: the
/// limited velocity over one tick, in metres, turned into counts by the
/// winch's calibration.
pub open spec fn step_counts(config: &Config, cal: &WinchCalibration, v_target: i64) -> i64 {
    cal.dist_of_m(fx_product(limited_target(config, v_target), TICK_DT))
}

/// The step in counts that one tick at the velocity `v_target` makes.
pub fn tick_step(config: &Config, cal: &WinchCalibration, v_target: i64) -> (step: i64)
    ensures
        step == step_counts(config, cal, v_target),
{
    let v = fx_clamp_sym(v_target, config.params.manual_control_velocity_m_per_sec);
    cal.dist_from_m(fx_mul(v, TICK_DT))
}

/// The force limits and filter that accompany every command.
pub open spec fn force_command_of(config: &Config, cal: &WinchCalibration) -> ForceCommand {
    ForceCommand {
        filter_param: config.params.force_filter_param,
        neg_motion_min: cal.force_of_kg(config.params.force_min_kg),
        pos_motion_max: cal.force_of_kg(config.params.force_max_kg),
        lockout_below: cal.force_of_kg(config.params.force_lockout_below_kg),
        lockout_above: cal.force_of_kg(config.params.force_lockout_above_kg),
    }
}

/// The PID gains that accompany every command.
pub open spec fn pid_gains_of(config: &Config) -> PIDGains {
    PIDGains {
        gain_p: config.params.pwm_gain_p,
        gain_i: config.params.pwm_gain_i,
        gain_d: config.params.pwm_gain_d,
        p_filter_param: config.params.pos_err_filter_param,
        i_decay_param: config.params.integral_err_decay_param,
        d_filter_param: config.params.vel_err_filter_param,
    }
}

/// The deadband that accompanies every command.
pub open spec fn deadband_of(config: &Config) -> WinchDeadband {
    WinchDeadband {
        position: config.params.deadband_position,
        velocity: config.params.deadband_velocity,
    }
}

impl WinchController {
    /// A winch that has not reported yet.
    pub open spec fn initial(id: usize, now: u64) -> WinchController {
        WinchController {
            id,
            last_tick_counter: None,
            last_update: now,
            position: 0,
            velocity: 0,
            filtered_force: 0,
            position_err_filtered: 0,
            velocity_err_filtered: 0,
            position_err_integral: 0,
            mech_status: MechStatus::Normal,
            quant_residual: 0,
            setpoint: 0,
            commanded_velocity: 0,
            still_since: None,
        }
    }

    /// A winch that has not reported yet, made at `now`.
    pub fn new(id: usize, now: u64) -> (w: WinchController)
        ensures
            w == Self::initial(id, now),
    {
        WinchController {
            id,
            last_tick_counter: None,
            last_update: now,
            position: 0,
            velocity: 0,
            filtered_force: 0,
            position_err_filtered: 0,
            velocity_err_filtered: 0,
            position_err_integral: 0,
            mech_status: MechStatus::Normal,
            quant_residual: 0,
            setpoint: 0,
            commanded_velocity: 0,
            still_since: None,
        }
    }

    /// Whether the winch has gone without a status for longer than the
    /// watchdog allows.
    pub open spec fn stale(&self, config: &Config, now: u64) -> bool {
        now > self.last_update && now - self.last_update > config.params.watchdog_timeout_us
    }

    /// Whether the winch has gone without a status for longer than the
    /// watchdog allows.
    pub fn is_stale(&self, config: &Config, now: u64) -> (b: bool)
        ensures
            b == self.stale(config, now),
    {
        now > self.last_update && now - self.last_update > config.params.watchdog_timeout_us
    }

    /// Whether a status reporting `velocity` shows the winch stopped while
    /// it is commanded to move.
    pub open spec fn stopped_under_command(&self, config: &Config, velocity: i64) -> bool {
        self.commanded_velocity != 0 && -config.params.deadband_velocity < velocity
            < config.params.deadband_velocity
    }

    /// Since when the winch has been stopped under command, after a status
    /// at `now` that reports `velocity`.
    pub open spec fn still_since_after(&self, config: &Config, velocity: i64, now: u64) -> Option<
        u64,
    > {
        if self.stopped_under_command(config, velocity) {
            match self.still_since {
                Some(t) => Some(t),
                None => Some(now),
            }
        } else {
            None
        }
    }

    /// Whether a winch stopped since `since` counts as stuck at `now`.
    pub open spec fn stuck_at(config: &Config, since: Option<u64>, now: u64) -> bool {
        match since {
            Some(t) => now >= t && now - t >= config.params.stuck_timeout_us,
            None => false,
        }
    }

    /// The state after the status `status` has arrived at `now`.
    pub open spec fn updated(
        &self,
        config: &Config,
        cal: &WinchCalibration,
        status: &WinchStatus,
        now: u64,
    ) -> WinchController {
        let force = fx_lerped(
            self.filtered_force,
            (status.sensors.force.measure * ONE) as i64,
            config.params.force_filter_param,
        );
        let since = self.still_since_after(config, status.sensors.velocity, now);
        WinchController {
            last_tick_counter: Some(status.tick_counter),
            last_update: now,
            position: status.sensors.position,
            velocity: status.sensors.velocity,
            filtered_force: force,
            still_since: since,
            mech_status: classified(
                Self::stuck_at(config, since, now),
                force,
                force_min_counts(config, cal),
                force_max_counts(config, cal),
            ),
            ..*self
        }
    }

    /// Takes in a status: filters the force, notes position and velocity,
    /// and classifies the mechanical state.
    pub fn update(
        &mut self,
        config: &Config,
        cal: &WinchCalibration,
        status: &WinchStatus,
        now: u64,
    )
        ensures
            *final(self) == old(self).updated(config, cal, status, now),
    {
        let force = fx_lerp(
            self.filtered_force,
            fx_from_i32(status.sensors.force.measure),
            config.params.force_filter_param,
        );
        let v = status.sensors.velocity;
        let dead = config.params.deadband_velocity;
        let stopped = self.commanded_velocity != 0 && v < dead && (dead == i64::MIN || -dead < v);
        let since = if stopped {
            match self.still_since {
                Some(t) => Some(t),
                None => Some(now),
            }
        } else {
            None
        };
        let stuck = match since {
            Some(t) => now >= t && now - t >= config.params.stuck_timeout_us,
            None => false,
        };
        let force_max = cal.force_from_kg(config.params.force_max_kg);
        let force_min = cal.force_from_kg(config.params.force_min_kg);
        self.last_tick_counter = Some(status.tick_counter);
        self.last_update = now;
        self.position = status.sensors.position;
        self.velocity = v;
        self.filtered_force = force;
        self.still_since = since;
        self.mech_status = if stuck {
            MechStatus::Stuck
        } else if force >= force_max {
            MechStatus::ForceLimited(1)
        } else if force <= force_min {
            MechStatus::ForceLimited(-1)
        } else {
            MechStatus::Normal
        };
    }

    /// Whether the force interlock forbids a tick at the velocity
    /// `v_target`. Under a force limit nothing moves toward the limit:
    /// neither a velocity that points at it, nor a step that leads toward it
    /// in counts, whatever the sign of the calibration, nor a step that leads
    /// further beyond a limit that the filtered force has reached.
    pub open spec fn interlocked(
        &self,
        config: &Config,
        cal: &WinchCalibration,
        v_target: i64,
    ) -> bool {
        let step = step_counts(config, cal, v_target);
        match self.mech_status {
            MechStatus::ForceLimited(sign) => {
                ||| points_toward(sign, v_target)
                ||| points_toward(sign, step)
                ||| (self.filtered_force >= force_max_counts(config, cal) && step > 0)
                ||| (self.filtered_force <= force_min_counts(config, cal) && step < 0)
            },
            _ => false,
        }
    }

    /// Whether the force interlock forbids a tick at the velocity
    /// `v_target`.
    pub fn is_interlocked(&self, config: &Config, cal: &WinchCalibration, v_target: i64) -> (b:
        bool)
        ensures
            b == self.interlocked(config, cal, v_target),
    {
        match self.mech_status {
            MechStatus::ForceLimited(sign) => {
                let step = tick_step(config, cal, v_target);
                (sign > 0 && (v_target > 0 || step > 0)) || (sign < 0 && (v_target < 0 || step
                    < 0)) || (step > 0 && self.filtered_force >= cal.force_from_kg(
                    config.params.force_max_kg,
                )) || (step < 0 && self.filtered_force <= cal.force_from_kg(
                    config.params.force_min_kg,
                ))
            },
            _ => false,
        }
    }

    /// The velocity, in metres per second, that one tick applies for the
    /// target `v_target`: nothing when halted or interlocked, else the
    /// target limited to the configured manual velocity.
    pub open spec fn applied_velocity(
        &self,
        config: &Config,
        cal: &WinchCalibration,
        v_target: i64,
    ) -> i64 {
        if config.mode == ControllerMode::Halted || self.interlocked(config, cal, v_target) {
            0
        } else {
            limited_target(config, v_target)
        }
    }

    /// The state after one tick toward the velocity `v_target`.
    pub open spec fn ticked(
        &self,
        config: &Config,
        cal: &WinchCalibration,
        v_target: i64,
    ) -> WinchController {
        if config.mode == ControllerMode::Halted {
            WinchController {
                setpoint: (self.position * ONE) as i64,
                position_err_integral: 0,
                commanded_velocity: 0,
                ..*self
            }
        } else if self.interlocked(config, cal, v_target) {
            WinchController { commanded_velocity: 0, ..*self }
        } else {
            WinchController {
                setpoint: fx_sum(self.setpoint, step_counts(config, cal, v_target)),
                commanded_velocity: limited_target(config, v_target),
                ..*self
            }
        }
    }

    /// The interlock holds whatever the calibration: outside `Halted`, a
    /// tick of a winch at the upper force limit does not raise the setpoint,
    /// and a tick of a winch at the lower limit does not lower it; and a
    /// velocity that points at the limit leaves the setpoint where it is.
    pub proof fn lemma_tick_interlocked(&self, config: &Config, cal: &WinchCalibration, v_target: i64)
        requires
            config.mode != ControllerMode::Halted,
            self.mech_status is ForceLimited,
        ensures
            ({
                let sign = self.mech_status->ForceLimited_0;
                let after = self.ticked(config, cal, v_target).setpoint;
                &&& sign > 0 ==> after <= self.setpoint
                &&& sign < 0 ==> after >= self.setpoint
                &&& self.filtered_force >= force_max_counts(config, cal) ==> after
                    <= self.setpoint
                &&& self.filtered_force <= force_min_counts(config, cal) ==> after
                    >= self.setpoint
                &&& points_toward(sign, v_target) ==> after == self.setpoint
            }),
    {
    }

    /// Advances the setpoint by one tick at the velocity `v_target`, in
    /// metres per second. Halted, the setpoint snaps to the last reported
    /// position and the integrator is cleared. Under a force limit, a
    /// velocity that points at the limit, or whose step would move the
    /// setpoint further against the limit in counts, leaves the setpoint
    /// frozen.
    pub fn velocity_tick(&mut self, config: &Config, cal: &WinchCalibration, v_target: i64)
        ensures
            *final(self) == old(self).ticked(config, cal, v_target),
    {
        if config.mode == ControllerMode::Halted {
            self.setpoint = fx_from_i32(self.position);
            self.position_err_integral = 0;
            self.commanded_velocity = 0;
        } else if self.is_interlocked(config, cal, v_target) {
            self.commanded_velocity = 0;
        } else {
            self.setpoint = fx_add(self.setpoint, tick_step(config, cal, v_target));
            self.commanded_velocity = fx_clamp_sym(
                v_target,
                config.params.manual_control_velocity_m_per_sec,
            );
        }
    }

    /// The position error of the setpoint against a reported position.
    pub open spec fn position_error(&self, status: &WinchStatus) -> i64 {
        fx_diff(self.setpoint, (status.sensors.position * ONE) as i64)
    }

    /// The filtered position error after `status`.
    pub open spec fn next_position_err_filtered(&self, config: &Config, status: &WinchStatus) -> i64 {
        fx_lerped(
            self.position_err_filtered,
            self.position_error(status),
            config.params.pos_err_filter_param,
        )
    }

    /// The filtered velocity error after `status`; the target velocity at
    /// the setpoint is zero.
    pub open spec fn next_velocity_err_filtered(&self, config: &Config, status: &WinchStatus) -> i64 {
        fx_lerped(
            self.velocity_err_filtered,
            fx_diff(0, status.sensors.velocity),
            config.params.vel_err_filter_param,
        )
    }

    /// The integral of the position error after `status`: the old integral
    /// decayed, plus the error over one tick.
    pub open spec fn next_position_err_integral(&self, config: &Config, status: &WinchStatus) -> i64 {
        fx_sum(
            fx_product(
                self.position_err_integral,
                fx_diff(ONE, config.params.integral_err_decay_param),
            ),
            fx_product(self.position_error(status), TICK_DT),
        )
    }

    /// The PWM before quantizing: the three PID terms and their sum limited
    /// to -1..1.
    pub open spec fn pid_terms(&self, config: &Config, status: &WinchStatus) -> (i64, i64, i64, i64) {
        let p = fx_product(config.params.pwm_gain_p, self.next_position_err_filtered(config, status));
        let i = fx_product(config.params.pwm_gain_i, self.next_position_err_integral(config, status));
        let d = fx_product(config.params.pwm_gain_d, self.next_velocity_err_filtered(config, status));
        (p, i, d, clamped(fx_sum(fx_sum(p, i), d), (-ONE) as i64, ONE))
    }

    /// The PWM in clock ticks with what earlier quantizing left over, before
    /// it is split into whole ticks and a new residual.
    pub open spec fn quant_accumulated(&self, config: &Config, total: i64) -> i64 {
        fx_sum((total * config.params.pwm_full_scale) as i64, self.quant_residual)
    }

    /// The command that answers `status`.
    pub open spec fn command_for(
        &self,
        config: &Config,
        cal: &WinchCalibration,
        status: &WinchStatus,
        watchdog_ok: bool,
    ) -> WinchCommand {
        let (p, i, d, total) = self.pid_terms(config, status);
        WinchCommand {
            position: sat32(trunc_div(self.setpoint as int, ONE as int)),
            force: force_command_of(config, cal),
            pid: pid_gains_of(config),
            deadband: deadband_of(config),
            pwm: WinchPWM {
                total,
                p,
                i,
                d,
                quant: sat16(trunc_div(self.quant_accumulated(config, total) as int, ONE as int)),
                enabled: config.mode != ControllerMode::Halted && watchdog_ok,
            },
        }
    }

    /// The state after the command for `status` has been made.
    pub open spec fn after_command(&self, config: &Config, status: &WinchStatus) -> WinchController {
        let total = self.pid_terms(config, status).3;
        let acc = self.quant_accumulated(config, total);
        WinchController {
            position_err_filtered: self.next_position_err_filtered(config, status),
            velocity_err_filtered: self.next_velocity_err_filtered(config, status),
            position_err_integral: self.next_position_err_integral(config, status),
            quant_residual: sat64(acc - sat16(trunc_div(acc as int, ONE as int)) * ONE),
            ..*self
        }
    }

    /// Runs the PID loop against `status` and makes the command for the
    /// winch. The PWM total is quantized into whole clock ticks; what is
    /// left over is carried into the next command, so that the average duty
    /// is kept: the ticks commanded and the new residual add up to the ticks
    /// asked for and the old residual, and the residual stays under one
    /// tick. The H-bridge is enabled unless the controller is halted or the
    /// watchdog has found a silent winch.
    pub fn make_command(
        &mut self,
        config: &Config,
        cal: &WinchCalibration,
        status: &WinchStatus,
        watchdog_ok: bool,
    ) -> (command: WinchCommand)
        ensures
            command == old(self).command_for(config, cal, status, watchdog_ok),
            *final(self) == old(self).after_command(config, status),
            -ONE <= command.pwm.total <= ONE,
            command.pwm.enabled == (config.mode != ControllerMode::Halted && watchdog_ok),
            -ONE < old(self).quant_residual < ONE && config.params.pwm_full_scale > i16::MIN ==> {
                &&& -ONE < final(self).quant_residual < ONE
                &&& command.pwm.quant * ONE + final(self).quant_residual == command.pwm.total
                    * config.params.pwm_full_scale + old(self).quant_residual
            },
    {
        let params = &config.params;
        let pos_err = fx_sub(self.setpoint, fx_from_i32(status.sensors.position));
        let pos_err_f = fx_lerp(self.position_err_filtered, pos_err, params.pos_err_filter_param);
        let vel_err = fx_sub(0, status.sensors.velocity);
        let vel_err_f = fx_lerp(self.velocity_err_filtered, vel_err, params.vel_err_filter_param);
        let integral = fx_add(
            fx_mul(self.position_err_integral, fx_sub(ONE, params.integral_err_decay_param)),
            fx_mul(pos_err, TICK_DT),
        );
        let p = fx_mul(params.pwm_gain_p, pos_err_f);
        let i = fx_mul(params.pwm_gain_i, integral);
        let d = fx_mul(params.pwm_gain_d, vel_err_f);
        let total = fx_clamp(fx_add(fx_add(p, i), d), -ONE, ONE);
        assert(-32_768_000_000 <= total * params.pwm_full_scale <= 32_768_000_000)
            by (nonlinear_arith)
            requires
                -1_000_000 <= total <= 1_000_000,
                -32_768 <= params.pwm_full_scale <= 32_767,
        ;
        proof {
            if params.pwm_full_scale > i16::MIN {
                assert(-32_767_000_000 <= total * params.pwm_full_scale <= 32_767_000_000)
                    by (nonlinear_arith)
                    requires
                        -1_000_000 <= total <= 1_000_000,
                        -32_767 <= params.pwm_full_scale <= 32_767,
                ;
            }
        }
        let acc = fx_add(total * (params.pwm_full_scale as i64), self.quant_residual);
        let whole: i64 = acc / ONE;
        let quant: i16 = if whole < i16::MIN as i64 {
            i16::MIN
        } else if whole > i16::MAX as i64 {
            i16::MAX
        } else {
            whole as i16
        };
        let position = fx_to_i32(self.setpoint);
        self.position_err_filtered = pos_err_f;
        self.velocity_err_filtered = vel_err_f;
        self.position_err_integral = integral;
        self.quant_residual = fx_sub(acc, (quant as i64) * ONE);
        WinchCommand {
            position,
            force: ForceCommand {
                filter_param: params.force_filter_param,
                neg_motion_min: cal.force_from_kg(params.force_min_kg),
                pos_motion_max: cal.force_from_kg(params.force_max_kg),
                lockout_below: cal.force_from_kg(params.force_lockout_below_kg),
                lockout_above: cal.force_from_kg(params.force_lockout_above_kg),
            },
            pid: PIDGains {
                gain_p: params.pwm_gain_p,
                gain_i: params.pwm_gain_i,
                gain_d: params.pwm_gain_d,
                p_filter_param: params.pos_err_filter_param,
                i_decay_param: params.integral_err_decay_param,
                d_filter_param: params.vel_err_filter_param,
            },
            deadband: WinchDeadband {
                position: params.deadband_position,
                velocity: params.deadband_velocity,
            },
            pwm: WinchPWM {
                total,
                p,
                i,
                d,
                quant,
                enabled: config.mode != ControllerMode::Halted && watchdog_ok,
            },
        }
    }
}

} // verus!
