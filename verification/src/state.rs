//! The state that the controller keeps between events: the manual controls,
//! one control loop per winch, the latest sensor readings and detections,
//! the tracked region of the camera image, and the gimbal controller.

use crate::config::{Config, ControllerMode};
use crate::fixed::{
    fx_product, fx_root, fx_sqrt, fx_sum, lemma_product_monotone, lemma_product_sign,
    lemma_root_exists, lemma_trunc_div_error, sat32, sat64, trunc_div, ONE,
};
use crate::gimbal::{GimbalControlStatus, GimbalController};
use crate::lights::{
    camera_yaw, winch_lighting, winch_lighting_of, yaw_angle, LightEnvironment, RingState,
    WinchLighting,
};
use crate::manual::{shorter_than, ManualControls};
use crate::message::{
    CameraDetectedObjects, CameraTrackedRegion, FlyerSensors, GimbalCommand, GimbalValueData,
    ManualControlAxis, WinchCommand, WinchStatus,
};
use crate::snap::{best_snap, best_snap_object};
use crate::vector::{
    lemma_constrained_within, lesser, rect_area, rect_area_of, rect_center, rect_center_of,
    rect_constrain, rect_constrained, rect_translate, rect_translated, rect_within, v2_add,
    v2_mul, v2_product, v2_scale, v2_scaled, v2_sum,
};
use crate::winch::{
    force_max_counts, force_min_counts, limited_target, step_counts, MechStatus,
    WinchController, TICK_DT,
};
use vstd::prelude::*;

verus! {

/// For how long, in microseconds, a detection may capture the tracked
/// region.
pub const DETECTION_FRESH_US: u64 = 500_000;

/// The state of the controller between events.
pub struct ControllerState {
    pub manual: ManualControls,
    pub winches: Vec<WinchController>,
    pub flyer_sensors: Option<FlyerSensors>,
    /// The latest detections and when they arrived.
    pub detected: CameraDetectedObjects,
    pub detected_at: u64,
    /// Whether the latest detections have yet to capture the tracked region.
    pub pending_snap: bool,
    /// The tracked region of the camera image.
    pub region: CameraTrackedRegion,
    pub last_mode: ControllerMode,
    pub gimbal: GimbalController,
}

/// The velocity that a winch in mechanical state `status` may follow when
/// the manual controls ask for `v`: none when stuck, and none under a force
/// limit whose interlock forbids it.
pub open spec fn permitted_velocity(status: MechStatus, v: i64, interlocked: bool) -> i64 {
    match status {
        MechStatus::Normal => v,
        MechStatus::Stuck => 0,
        MechStatus::ForceLimited(_) => if interlocked {
            0
        } else {
            v
        },
    }
}

/// Whether some configured winch has been silent for longer than the
/// watchdog allows.
pub open spec fn watchdog_tripped(winches: Seq<WinchController>, config: &Config, now: u64) -> bool {
    exists|i: int|
        0 <= i < winches.len() && i < config.winches@.len() && (#[trigger] winches[i]).stale(
            config,
            now,
        )
}

/// The step on one axis that steering makes in `dt` seconds: the steering
/// `steer` less the pull of the restoring force `restore` at the centre
/// `center`, over `dt`.
pub open spec fn steer_step(steer: i64, restore: i64, center: i64, dt: i64) -> i64 {
    fx_product(fx_sum(steer, fx_product(center, fx_product((-ONE) as i64, restore))), dt)
}

/// The largest magnitude, a million units, up to which the laws of
/// steering against a restoring force are stated: within it no step
/// saturates.
pub open spec fn steering_range() -> int {
    1_000_000_000_000
}

/// A step toward the equilibrium of steering and restoring force does not
/// pass it: where the restoring force over the step is at most one, and a
/// centre is stepped from not backward, no centre between it and where the
/// step leads is stepped from backward either.
proof fn lemma_no_overshoot(steer: i64, restore: i64, center: i64, reached: i64, dt: i64)
    requires
        0 <= dt < ONE,
        0 <= restore <= steering_range(),
        restore * dt <= ONE * ONE,
        -steering_range() <= steer <= steering_range(),
        -steering_range() <= center <= steering_range(),
        steer_step(steer, restore, center, dt) >= 0,
        center <= reached <= center + steer_step(steer, restore, center, dt),
    ensures
        steer_step(steer, restore, reached, dt) >= 0,
{
    let one = ONE as int;
    let r = restore as int;
    let c = center as int;
    let c2 = reached as int;
    let s = steer as int;
    let minus = (-ONE) as i64;
    assert(minus * r == -(1_000_000 * r)) by (nonlinear_arith)
        requires
            minus == -1_000_000,
    ;
    assert((1_000_000 * r) / 1_000_000 == r);
    let m = fx_product(minus, restore);
    assert(m == -r);
    let tc = trunc_div(c * r, one);
    assert(-1_000_000_000_000_000_000_000_000 <= c * r <= 1_000_000_000_000_000_000_000_000)
        by (nonlinear_arith)
        requires
            -1_000_000_000_000 <= c <= 1_000_000_000_000,
            0 <= r <= 1_000_000_000_000,
    ;
    assert(-1_000_000_000_000_000_000 <= tc <= 1_000_000_000_000_000_000);
    lemma_trunc_div_error(c * r, one);
    assert(c * m == -(c * r)) by (nonlinear_arith)
        requires
            m == -r,
    ;
    assert(fx_product(center, m) == -tc);
    let v = s - tc;
    assert(fx_sum(steer, fx_product(center, m)) == v);
    let p = trunc_div(v * dt, one);
    assert(-2_000_000_000_000_000_000_000_000 <= v * dt <= 2_000_000_000_000_000_000_000_000)
        by (nonlinear_arith)
        requires
            -2_000_000_000_000_000_000 <= v <= 2_000_000_000_000_000_000,
            0 <= dt < 1_000_000,
    ;
    lemma_trunc_div_error(v * dt, one);
    assert(steer_step(steer, restore, center, dt) == p);
    if p == 0 {
        assert(c2 == c);
    } else {
        assert(v * dt >= one);
        assert(v > 0) by (nonlinear_arith)
            requires
                v * dt >= 1,
                dt >= 0,
        ;
        assert(p * one <= v * dt);
        assert(p * r * one <= v * one * one) by (nonlinear_arith)
            requires
                p * one <= v * dt,
                r * dt <= one * one,
                r >= 0,
                v > 0,
                dt >= 0,
                p > 0,
        ;
        assert(p * r <= v * one) by (nonlinear_arith)
            requires
                p * r * one <= v * one * one,
                one > 0,
        ;
        let q = c + p;
        assert(c2 * r <= q * r) by (nonlinear_arith)
            requires
                c2 <= q,
                r >= 0,
        ;
        assert(q * r == c * r + p * r) by (nonlinear_arith)
            requires
                q == c + p,
        ;
        assert(c * r <= c2 * r) by (nonlinear_arith)
            requires
                c <= c2,
                r >= 0,
        ;
        let t2 = trunc_div(c2 * r, one);
        lemma_trunc_div_error(c2 * r, one);
        assert(t2 * one < (tc + v + 2) * one) by (nonlinear_arith)
            requires
                t2 * one - one < c2 * r,
                c2 * r <= c * r + p * r,
                c * r < tc * one + one,
                p * r <= v * one,
        ;
        assert(t2 < tc + v + 2) by (nonlinear_arith)
            requires
                t2 * one < (tc + v + 2) * one,
                one > 0,
        ;
        assert(c2 * m == -(c2 * r)) by (nonlinear_arith)
            requires
                m == -r,
        ;
        assert(-2_000_000_000_000_000_000 <= t2 <= 2_000_000_000_000_000_000);
        assert(fx_product(reached, m) == -t2);
        let v2 = s - t2;
        assert(fx_sum(steer, fx_product(reached, m)) == v2);
        assert(v2 * dt > -one) by (nonlinear_arith)
            requires
                v2 >= -1,
                0 <= dt < one,
        ;
        assert(-4_000_000_000_000_000_000_000_000 <= v2 * dt
            <= 4_000_000_000_000_000_000_000_000) by (nonlinear_arith)
            requires
                -1 <= v2 <= 4_000_000_000_000_000_000,
                0 <= dt < 1_000_000,
        ;
    }
}

impl ControllerState {
    /// The square whose area is the configured default area, centred on the
    /// image.
    pub open spec fn default_rect(config: &Config) -> [i64; 4] {
        let side = fx_root(config.vision.tracking_default_area);
        [(-(side / 2)) as i64, (-(side / 2)) as i64, side, side]
    }

    /// Whether the tracker has lost its object: a tracked region of poor
    /// quality, or one too small or too large, or a gimbal that gave up.
    pub open spec fn tracking_is_bad(&self, config: &Config, reset: bool) -> bool {
        let area = rect_area_of(self.region.rect);
        ||| (self.region.age > 0 && self.region.psr < config.vision.tracking_min_psr)
        ||| area < config.vision.tracking_min_area
        ||| area > config.vision.tracking_max_area
        ||| reset
    }

    /// Whether the manual controls steer the camera.
    pub open spec fn manual_active(&self) -> bool {
        self.manual.value(ManualControlAxis::CameraYaw) != 0 || self.manual.value(
            ManualControlAxis::CameraPitch,
        ) != 0
    }

    /// The steering vector of the manual controls: yaw and pitch, or
    /// nothing where the two together stay inside the deadzone.
    pub open spec fn steering(&self, config: &Config) -> [i64; 2] {
        let v = [
            self.manual.value(ManualControlAxis::CameraYaw),
            self.manual.value(ManualControlAxis::CameraPitch),
        ];
        if shorter_than(v, config.vision.manual_camera_deadzone) {
            [0i64, 0i64]
        } else {
            v
        }
    }

    /// The velocity at which the steering vector `steering` moves a
    /// rectangle whose centre is `center`: the steering vector at the
    /// configured speed, pitch flipped, less a restoring pull toward the
    /// image centre that grows with the distance from it.
    pub open spec fn steering_velocity_at(
        config: &Config,
        steering: [i64; 2],
        center: [i64; 2],
    ) -> [i64; 2] {
        let steer = v2_product(
            steering,
            v2_scaled([ONE, (-ONE) as i64], config.vision.manual_control_speed),
        );
        let restoring = v2_scaled(
            [(-ONE) as i64, (-ONE) as i64],
            config.vision.manual_control_restoring_force,
        );
        v2_sum(steer, v2_product(center, restoring))
    }

    /// The velocity at which manual steering moves the centre of the
    /// tracked rectangle.
    pub open spec fn steering_velocity(&self, config: &Config) -> [i64; 2] {
        Self::steering_velocity_at(
            config,
            self.steering(config),
            rect_center_of(self.region.rect),
        )
    }

    /// Where `dt` seconds of manual steering put the tracked rectangle: the
    /// default rectangle around the old centre moved by the steering
    /// velocity; then fitted into the border.
    pub open spec fn steered_rect(&self, config: &Config, dt: i64) -> [i64; 4] {
        let center = rect_center_of(self.region.rect);
        let moved = v2_sum(center, v2_scaled(self.steering_velocity(config), dt));
        rect_constrained(
            rect_translated(Self::default_rect(config), moved),
            config.vision.border_rect,
        )
    }

    /// The furthest right that the centre of a steered rectangle can lie:
    /// that of the default rectangle, shrunk to the border's width where it
    /// is wider, against the right edge of the border.
    pub open spec fn rightmost_center(config: &Config) -> i64 {
        let border = config.vision.border_rect;
        let width = lesser(Self::default_rect(config)[2], border[2]);
        fx_sum(sat64(border[0] + border[2] - width), sat64(trunc_div(width as int, 2)))
    }

    /// The furthest left that the centre of a steered rectangle can lie.
    pub open spec fn leftmost_center(config: &Config) -> i64 {
        let border = config.vision.border_rect;
        let width = lesser(Self::default_rect(config)[2], border[2]);
        fx_sum(border[0], sat64(trunc_div(width as int, 2)))
    }

    /// The steering, on X, that the manual controls ask for: the steering
    /// vector at the configured speed.
    pub open spec fn steer_x(&self, config: &Config) -> i64 {
        fx_product(self.steering(config)[0], fx_product(ONE, config.vision.manual_control_speed))
    }

    /// Steering against a restoring force settles and does not swing back:
    /// where one tracking update does not step the centre backward on X, the
    /// next does not either. So with `lemma_steering_monotone` the centre
    /// moves right, update after update, until it stands at the border or
    /// at the equilibrium of steering and restoring force.
    ///
    /// This holds for updates of less than a second over which the
    /// restoring force is at most one, for a centre between the leftmost and
    /// the rightmost, and within the range that `steering_range` gives.
    pub proof fn lemma_steering_settles(&self, config: &Config, dt: i64)
        requires
            0 <= dt < ONE,
            0 <= config.vision.manual_control_restoring_force <= steering_range(),
            config.vision.manual_control_restoring_force * dt <= ONE * ONE,
            -steering_range() <= self.steer_x(config) <= steering_range(),
            -steering_range() <= Self::leftmost_center(config),
            Self::rightmost_center(config) <= steering_range(),
            Self::leftmost_center(config) <= rect_center_of(self.region.rect)[0]
                <= Self::rightmost_center(config),
            fx_product(self.steering_velocity(config)[0], dt) >= 0,
        ensures
            ({
                let before = rect_center_of(self.region.rect);
                let after = rect_center_of(self.steered_rect(config, dt));
                &&& before[0] <= after[0]
                &&& Self::leftmost_center(config) <= after[0] <= Self::rightmost_center(config)
                &&& fx_product(
                    Self::steering_velocity_at(config, self.steering(config), after)[0],
                    dt,
                ) >= 0
            }),
    {
        let before = rect_center_of(self.region.rect);
        let after = rect_center_of(self.steered_rect(config, dt));
        let restore = config.vision.manual_control_restoring_force;
        self.lemma_steering_monotone(config, dt);
        lemma_root_exists(config.vision.tracking_default_area);
        assert(self.steering_velocity(config)[0] == fx_sum(
            self.steer_x(config),
            fx_product(before[0], fx_product((-ONE) as i64, restore)),
        ));
        assert(Self::steering_velocity_at(config, self.steering(config), after)[0] == fx_sum(
            self.steer_x(config),
            fx_product(after[0], fx_product((-ONE) as i64, restore)),
        ));
        let step = steer_step(self.steer_x(config), restore, before[0], dt);
        assert(step == fx_product(self.steering_velocity(config)[0], dt));
        assert(after[0] <= before[0] + step);
        lemma_no_overshoot(self.steer_x(config), restore, before[0], after[0], dt);
    }

    /// Steering that still moves a rectangle at the rightmost centre to
    /// the right moves every rectangle left of it to the right: with a
    /// restoring force that is not negative, the steering velocity on X is
    /// not negative wherever the centre is not beyond the rightmost centre,
    /// if it is not negative at the rightmost centre; and the step that it
    /// makes in `dt` seconds is not negative either. With
    /// `lemma_steering_monotone`, whose result keeps the centre from passing
    /// the rightmost centre, this makes the motion monotone over any number
    /// of tracking updates, until the border is reached.
    pub proof fn lemma_steering_velocity_kept(&self, config: &Config, dt: i64)
        requires
            dt >= 0,
            config.vision.manual_control_restoring_force >= 0,
            rect_center_of(self.region.rect)[0] <= Self::rightmost_center(config),
            Self::steering_velocity_at(
                config,
                self.steering(config),
                [Self::rightmost_center(config), rect_center_of(self.region.rect)[1]],
            )[0] >= 0,
        ensures
            self.steering_velocity(config)[0] >= 0,
            fx_product(self.steering_velocity(config)[0], dt) >= 0,
    {
        lemma_product_sign(self.steering_velocity(config)[0], dt);
        let pull = fx_product((-ONE) as i64, config.vision.manual_control_restoring_force);
        lemma_product_sign((-ONE) as i64, config.vision.manual_control_restoring_force);
        lemma_product_monotone(
            rect_center_of(self.region.rect)[0],
            Self::rightmost_center(config),
            pull,
        );
    }

    /// Manual steering to the right moves the tracked rectangle to the
    /// right and never back: while the step that the steering velocity makes
    /// on X in `dt` seconds is not negative, a tracked rectangle whose
    /// centre is not beyond the rightmost centre has, after the update, a
    /// centre that lies no further left than before and not beyond the
    /// rightmost centre either; and where the step is positive, the centre
    /// has moved right or stands at the rightmost centre.
    pub proof fn lemma_steering_monotone(&self, config: &Config, dt: i64)
        requires
            fx_product(self.steering_velocity(config)[0], dt) >= 0,
            rect_center_of(self.region.rect)[0] <= Self::rightmost_center(config),
        ensures
            ({
                let before = rect_center_of(self.region.rect)[0];
                let after = rect_center_of(self.steered_rect(config, dt))[0];
                &&& before <= after <= Self::rightmost_center(config)
                &&& fx_product(self.steering_velocity(config)[0], dt) > 0 ==> after > before
                    || after == Self::rightmost_center(config)
            }),
    {
        lemma_root_exists(config.vision.tracking_default_area);
    }

    /// Whether the latest detections are too old to act on.
    pub open spec fn detection_stale(&self, now: u64) -> bool {
        self.detected_at + DETECTION_FRESH_US < now
    }

    /// The index of the detection that the tracked region snaps to at
    /// `now`, if any: none unless a snap is pending, the detections are
    /// fresh and the controller is not halted.
    pub open spec fn snap_index(&self, config: &Config, now: u64) -> Option<int> {
        if !self.pending_snap || self.detection_stale(now) || config.mode
            == ControllerMode::Halted {
            None
        } else {
            best_snap(self.detected.objects@, config.vision.snap_tracked_region_to@)
        }
    }

    /// The tracked region after a tracking update.
    pub open spec fn region_after_tracking(
        &self,
        config: &Config,
        dt: i64,
        reset: bool,
        now: u64,
    ) -> CameraTrackedRegion {
        if self.manual_active() {
            CameraTrackedRegion { rect: self.steered_rect(config, dt), ..self.region }
        } else {
            match self.snap_index(config, now) {
                Some(i) => CameraTrackedRegion {
                    rect: rect_constrained(
                        self.detected.objects@[i].rect,
                        config.vision.border_rect,
                    ),
                    frame: self.detected.frame,
                    ..self.region
                },
                None => if self.tracking_is_bad(config, reset) {
                    CameraTrackedRegion {
                        rect: Self::default_rect(config),
                        ..CameraTrackedRegion::initial()
                    }
                } else {
                    self.region
                },
            }
        }
    }

    /// Whether a snap is still pending after a tracking update: a snap and
    /// stale detections both clear it.
    pub open spec fn pending_after_tracking(&self, config: &Config, now: u64) -> bool {
        if self.manual_active() {
            self.pending_snap
        } else {
            self.pending_snap && !self.detection_stale(now) && self.snap_index(config, now)
                is None
        }
    }

    /// Whether a tracking update moves the tracked rectangle.
    pub open spec fn tracking_moves(&self, config: &Config, reset: bool, now: u64) -> bool {
        self.manual_active() || self.snap_index(config, now) is Some || self.tracking_is_bad(
            config,
            reset,
        )
    }

    /// After a tracking update the tracked rectangle lies inside the
    /// configured border if steering or a snap moved it; and if a reset
    /// moved it, as long as the default rectangle lies inside the border.
    pub proof fn lemma_tracking_contained(&self, config: &Config, dt: i64, reset: bool, now: u64)
        requires
            self.tracking_moves(config, reset, now),
            self.manual_active() || self.snap_index(config, now) is Some || rect_within(
                Self::default_rect(config),
                config.vision.border_rect,
            ),
        ensures
            rect_within(
                self.region_after_tracking(config, dt, reset, now).rect,
                config.vision.border_rect,
            ),
    {
        let border = config.vision.border_rect;
        if self.manual_active() {
            let center = rect_center_of(self.region.rect);
            let steer = v2_product(
                self.steering(config),
                v2_scaled([ONE, (-ONE) as i64], config.vision.manual_control_speed),
            );
            let restoring = v2_scaled(
                [(-ONE) as i64, (-ONE) as i64],
                config.vision.manual_control_restoring_force,
            );
            let velocity = v2_sum(steer, v2_product(center, restoring));
            let moved = v2_sum(center, v2_scaled(velocity, dt));
            lemma_constrained_within(rect_translated(Self::default_rect(config), moved), border);
        } else {
            match self.snap_index(config, now) {
                Some(i) => {
                    lemma_constrained_within(self.detected.objects@[i].rect, border);
                },
                None => {},
            }
        }
    }

    /// Everything but the tracked region and the pending snap is the same
    /// in both states.
    pub open spec fn same_but_tracking(&self, other: &ControllerState) -> bool {
        &&& self.manual == other.manual
        &&& self.winches == other.winches
        &&& self.flyer_sensors == other.flyer_sensors
        &&& self.detected == other.detected
        &&& self.detected_at == other.detected_at
        &&& self.last_mode == other.last_mode
        &&& self.gimbal == other.gimbal
    }

    /// Everything but the winch controllers is the same in both states.
    pub open spec fn same_but_winches(&self, other: &ControllerState) -> bool {
        &&& self.manual == other.manual
        &&& self.flyer_sensors == other.flyer_sensors
        &&& self.detected == other.detected
        &&& self.detected_at == other.detected_at
        &&& self.pending_snap == other.pending_snap
        &&& self.region == other.region
        &&& self.last_mode == other.last_mode
        &&& self.gimbal == other.gimbal
    }

    /// Whether `looped` is this state after a winch control loop that left
    /// the winch controllers as `winches`.
    pub open spec fn looped_to(&self, looped: &ControllerState, winches: Seq<WinchController>) -> bool {
        looped.winches@ == winches && self.same_but_winches(looped)
    }

    /// Whether `after` is this state after the manual and gimbal work of
    /// one tick: the manual velocity ramped by `dt`, the gimbal's error
    /// clock advanced, all else as it was.
    pub open spec fn after_every_tick(
        &self,
        config: &Config,
        dt: i64,
        now: u64,
        after: &ControllerState,
    ) -> bool {
        &&& forall|axis: ManualControlAxis| after.manual.value(axis) == self.manual.value(axis)
        &&& forall|i: int|
            0 <= i < 3 ==> after.manual.velocity()[i] == crate::manual::ramped(
                self.manual.velocity()[i],
                self.manual.target_velocity(config, i),
                crate::fixed::fx_product(config.params.accel_rate_m_per_sec2, dt),
            )
        &&& after.gimbal == self.gimbal.after_tick(config, self.region.rect, now)
        &&& after.winches == self.winches
        &&& after.flyer_sensors == self.flyer_sensors
        &&& after.detected == self.detected
        &&& after.detected_at == self.detected_at
        &&& after.pending_snap == self.pending_snap
        &&& after.region == self.region
        &&& after.last_mode == self.last_mode
    }

    /// Whether `env` is what the light animator is to know of this state,
    /// where `gimbal_status` is what the gimbal controller did in the last
    /// tick, if there was one.
    pub open spec fn lights_shown(
        &self,
        config: &Config,
        gimbal_status: Option<GimbalControlStatus>,
        env: &LightEnvironment,
    ) -> bool {
        &&& env.winches@.len() == self.winches@.len()
        &&& forall|i: int|
            0 <= i < self.winches@.len() ==> env.winches@[i] == winch_lighting_of(self.winches@[i])
        &&& env.camera_yaw_angle == camera_yaw(gimbal_status)
        &&& env.ring == self.ring_state(config)
    }

    /// Everything but the manual controls is the same in both states.
    pub open spec fn same_but_manual(&self, other: &ControllerState) -> bool {
        &&& self.winches == other.winches
        &&& self.flyer_sensors == other.flyer_sensors
        &&& self.detected == other.detected
        &&& self.detected_at == other.detected_at
        &&& self.pending_snap == other.pending_snap
        &&& self.region == other.region
        &&& self.last_mode == other.last_mode
        &&& self.gimbal == other.gimbal
    }

    /// Everything but the gimbal controller is the same in both states.
    pub open spec fn same_but_gimbal(&self, other: &ControllerState) -> bool {
        &&& self.manual == other.manual
        &&& self.winches == other.winches
        &&& self.flyer_sensors == other.flyer_sensors
        &&& self.detected == other.detected
        &&& self.detected_at == other.detected_at
        &&& self.pending_snap == other.pending_snap
        &&& self.region == other.region
        &&& self.last_mode == other.last_mode
    }

    /// Everything but the flyer's sensor readings is the same in both
    /// states.
    pub open spec fn same_but_sensors(&self, other: &ControllerState) -> bool {
        &&& self.manual == other.manual
        &&& self.winches == other.winches
        &&& self.detected == other.detected
        &&& self.detected_at == other.detected_at
        &&& self.pending_snap == other.pending_snap
        &&& self.region == other.region
        &&& self.last_mode == other.last_mode
        &&& self.gimbal == other.gimbal
    }

    /// Whether `after` is how this state follows a change of configuration
    /// to `config`: unchanged where the mode is the one last seen, else with
    /// all motion halted; and with the new mode noted.
    pub open spec fn followed_config(&self, config: &Config, after: &ControllerState) -> bool {
        &&& after.last_mode == config.mode
        &&& config.mode == self.last_mode ==> *after == *self
        &&& config.mode != self.last_mode ==> self.motion_halted(after)
    }

    /// Whether this is the state at startup at `now` under `config`: the
    /// manual controls centred and at rest, one control loop per configured
    /// winch that has not reported yet, no sensor readings, no detections
    /// and no snap pending, nothing tracked, the gimbal controller as new,
    /// and the mode of the configuration noted.
    pub open spec fn is_initial(&self, config: &Config, now: u64) -> bool {
        &&& self.manual.centered()
        &&& self.manual.in_range()
        &&& self.manual.velocity()@ == seq![0i64, 0i64, 0i64]
        &&& self.winches@.len() == config.winches@.len()
        &&& forall|i: int|
            0 <= i < self.winches@.len() ==> self.winches@[i] == WinchController::initial(
                i as usize,
                now,
            )
        &&& self.flyer_sensors is None
        &&& self.detected.frame == 0
        &&& self.detected.objects@.len() == 0
        &&& self.detected_at == now
        &&& !self.pending_snap
        &&& self.region == CameraTrackedRegion::initial()
        &&& self.last_mode == config.mode
        &&& self.gimbal == GimbalController::initial()
    }

    /// The state at startup: one idle control loop per configured winch,
    /// centred manual controls, nothing detected and nothing tracked.
    pub fn new(initial_config: &Config, now: u64) -> (s: ControllerState)
        ensures
            s.is_initial(initial_config, now),
    {
        let mut winches: Vec<WinchController> = Vec::new();
        let mut id: usize = 0;
        while id < initial_config.winches.len()
            invariant
                id <= initial_config.winches.len(),
                winches@.len() == id,
                forall|i: int|
                    0 <= i < id ==> winches@[i] == WinchController::initial(i as usize, now),
            decreases initial_config.winches.len() - id,
        {
            winches.push(WinchController::new(id, now));
            id += 1;
        }
        ControllerState {
            manual: ManualControls::new(),
            winches,
            flyer_sensors: None,
            detected: CameraDetectedObjects::new(),
            detected_at: now,
            pending_snap: false,
            region: CameraTrackedRegion::new(),
            last_mode: initial_config.mode,
            gimbal: GimbalController::new(),
        }
    }

    /// Follows a change of configuration: a change of mode halts all
    /// motion, whatever the new mode is.
    pub fn config_changed(&mut self, config: &Config)
        ensures
            old(self).followed_config(config, final(self)),
            final(self).flyer_sensors == old(self).flyer_sensors,
            final(self).detected == old(self).detected,
            final(self).detected_at == old(self).detected_at,
            final(self).pending_snap == old(self).pending_snap,
            final(self).region == old(self).region,
            final(self).gimbal == old(self).gimbal,
            final(self).winches@.len() == old(self).winches@.len(),
    {
        if config.mode != self.last_mode {
            self.mode_changed(&config.mode);
            self.last_mode = config.mode;
        }
    }

    fn mode_changed(&mut self, _mode: &ControllerMode)
        ensures
            old(self).motion_halted(final(self)),
            final(self).last_mode == old(self).last_mode,
    {
        self.halt_motion();
    }

    /// Whether `after` is this state with all motion halted: manual
    /// controls centred and their ramp forgotten, every integrator zero, and
    /// all else but the last mode as it was.
    pub open spec fn motion_halted(&self, after: &ControllerState) -> bool {
        &&& after.manual.centered()
        &&& after.manual.in_range()
        &&& after.manual.velocity()@ == seq![0i64, 0i64, 0i64]
        &&& after.winches@.len() == self.winches@.len()
        &&& forall|i: int|
            0 <= i < self.winches@.len() ==> after.winches@[i] == (WinchController {
                position_err_integral: 0,
                ..self.winches@[i]
            })
        &&& after.flyer_sensors == self.flyer_sensors
        &&& after.detected == self.detected
        &&& after.detected_at == self.detected_at
        &&& after.pending_snap == self.pending_snap
        &&& after.region == self.region
        &&& after.gimbal == self.gimbal
    }

    fn halt_motion(&mut self)
        ensures
            old(self).motion_halted(final(self)),
            final(self).last_mode == old(self).last_mode,
    {
        self.manual.full_reset();
        let mut i: usize = 0;
        while i < self.winches.len()
            invariant
                i <= self.winches@.len(),
                self.winches@.len() == old(self).winches@.len(),
                forall|k: int|
                    0 <= k < i ==> self.winches@[k] == (WinchController {
                        position_err_integral: 0,
                        ..old(self).winches@[k]
                    }),
                forall|k: int|
                    i <= k < self.winches@.len() ==> self.winches@[k] == old(self).winches@[k],
                self.manual.centered(),
                self.manual.in_range(),
                self.manual.velocity()@ == seq![0i64, 0i64, 0i64],
                self.flyer_sensors == old(self).flyer_sensors,
                self.detected == old(self).detected,
                self.detected_at == old(self).detected_at,
                self.pending_snap == old(self).pending_snap,
                self.region == old(self).region,
                self.gimbal == old(self).gimbal,
                self.last_mode == old(self).last_mode,
            decreases self.winches@.len() - i,
        {
            let mut w = self.winches[i];
            w.position_err_integral = 0;
            self.winches.set(i, w);
            i += 1;
        }
    }

    fn default_tracking_rect(config: &Config) -> (r: [i64; 4])
        ensures
            r == Self::default_rect(config),
    {
        let side_len = fx_sqrt(config.vision.tracking_default_area);
        let r = [-(side_len / 2), -(side_len / 2), side_len, side_len];
        assert(r@ =~= Self::default_rect(config)@);
        r
    }

    fn reset_tracking_rect(&mut self, config: &Config)
        ensures
            final(self).region == (CameraTrackedRegion {
                rect: Self::default_rect(config),
                ..CameraTrackedRegion::initial()
            }),
            final(self).pending_snap == old(self).pending_snap,
            old(self).same_but_tracking(final(self)),
    {
        self.region = CameraTrackedRegion::new();
        self.region.rect = ControllerState::default_tracking_rect(config);
    }

    /// Moves the tracked region where something asks for it, and returns
    /// the new rectangle, for the tracker to start over from; `None` where
    /// the tracker is doing well on its own.
    ///
    /// Manual steering comes first. Else a pending snap to the best fresh
    /// detection, unless halted. Else, where tracking is bad or the gimbal
    /// asks for a reset, the default rectangle. A rectangle that came from
    /// steering or from a snap lies inside the configured border.
    pub fn tracking_update(&mut self, config: &Config, dt: i64, reset_from_gimbal: bool, now: u64) -> (r:
        Option<[i64; 4]>)
        ensures
            final(self).region == old(self).region_after_tracking(
                config,
                dt,
                reset_from_gimbal,
                now,
            ),
            final(self).pending_snap == old(self).pending_after_tracking(config, now),
            old(self).same_but_tracking(final(self)),
            r is Some == old(self).tracking_moves(config, reset_from_gimbal, now),
            r matches Some(rect) ==> rect == final(self).region.rect,
            r matches Some(rect) ==> (old(self).manual_active() || old(self).snap_index(
                config,
                now,
            ) is Some || rect_within(Self::default_rect(config), config.vision.border_rect))
                ==> rect_within(rect, config.vision.border_rect),
    {
        let vis = &config.vision;
        let area = rect_area(self.region.rect);
        let tracking_is_bad = (self.region.age > 0 && self.region.psr < vis.tracking_min_psr)
            || area < vis.tracking_min_area || area > vis.tracking_max_area || reset_from_gimbal;

        if self.manual.camera_control_active() {
            let camera_vec = self.manual.camera_vector();
            let deadzone = ManualControls::camera_vector_in_deadzone(camera_vec, config);
            let camera_vec = if deadzone {
                [0, 0]
            } else {
                camera_vec
            };
            assert(camera_vec@ =~= old(self).steering(config)@);
            let velocity = v2_mul(camera_vec, v2_scale([ONE, -ONE], vis.manual_control_speed));
            let restoring_force = v2_scale([-ONE, -ONE], vis.manual_control_restoring_force);
            let center = rect_center(self.region.rect);
            let velocity = v2_add(velocity, v2_mul(center, restoring_force));
            let center = v2_add(center, v2_scale(velocity, dt));
            let rect = rect_translate(ControllerState::default_tracking_rect(config), center);
            let rect = rect_constrain(rect, vis.border_rect);
            self.region.rect = rect;
            return Some(rect);
        }
        let stale = self.detected_at <= u64::MAX - DETECTION_FRESH_US && self.detected_at
            + DETECTION_FRESH_US < now;
        match self.find_best_snap_object(config, now) {
            Some(i) => {
                // Snap to a detected object
                let rect = rect_constrain(self.detected.objects[i].rect, vis.border_rect);
                self.pending_snap = false;
                self.region.rect = rect;
                self.region.frame = self.detected.frame;
                Some(rect)
            },
            None => {
                if stale {
                    self.pending_snap = false;
                }
                if tracking_is_bad {
                    // Reset to the default tracking rectangle
                    self.reset_tracking_rect(config);
                    Some(self.region.rect)
                } else {
                    None
                }
            },
        }
    }

    /// The manual and gimbal work of one tick at `now`: advances the ramp
    /// of the manual controls by `dt` seconds and lets the gimbal follow the
    /// tracked region.
    pub fn every_tick(&mut self, config: &Config, dt: i64, now: u64) -> (r: (
        GimbalCommand,
        GimbalControlStatus,
    ))
        ensures
            r.0 == old(self).gimbal.command_for(config, old(self).region.rect),
            r.1 == old(self).gimbal.status_for(config, old(self).region.rect, now),
            old(self).after_every_tick(config, dt, now, final(self)),
    {
        self.manual.control_tick(config, dt);
        self.gimbal.tick(config, &self.region, now)
    }

    /// The index of the detection to snap to at `now`, if there is one.
    pub fn find_best_snap_object(&self, config: &Config, now: u64) -> (r: Option<usize>)
        ensures
            match r {
                Some(i) => self.snap_index(config, now) == Some(i as int) && i
                    < self.detected.objects@.len(),
                None => self.snap_index(config, now) is None,
            },
    {
        if !self.pending_snap {
            // No data from the detector yet, or the latest frame is already processed
            return None;
        }
        if self.detected_at <= u64::MAX - DETECTION_FRESH_US && self.detected_at
            + DETECTION_FRESH_US < now {
            // Latest data from the detector is too old to bother with
            return None;
        }
        if config.mode == ControllerMode::Halted {
            // No automatic activity during halt
            return None;
        }
        best_snap_object(&self.detected.objects, &config.vision.snap_tracked_region_to)
    }

    /// Winch `id` after it has taken in `status`.
    pub open spec fn winch_updated(
        &self,
        config: &Config,
        id: int,
        status: &WinchStatus,
        now: u64,
    ) -> WinchController {
        self.winches@[id].updated(config, &config.winches@[id].calibration, status, now)
    }

    /// The velocity that winch `id` is to follow after `status`: that of
    /// the manual Y axis, as far as the winch's mechanical state permits,
    /// for the one winch that the mode names; none for any other winch and
    /// in any other mode.
    pub open spec fn winch_velocity(
        &self,
        config: &Config,
        id: int,
        status: &WinchStatus,
        now: u64,
    ) -> i64 {
        match config.mode {
            ControllerMode::ManualWinch(manual_id) => if manual_id == id {
                permitted_velocity(
                    self.winch_updated(config, id, status, now).mech_status,
                    self.manual.velocity()[1],
                    self.winch_updated(config, id, status, now).interlocked(
                        config,
                        &config.winches@[id].calibration,
                        self.manual.velocity()[1],
                    ),
                )
            } else {
                0
            },
            _ => 0,
        }
    }

    /// Winch `id` after `status` and the tick that follows it.
    pub open spec fn winch_ticked(
        &self,
        config: &Config,
        id: int,
        status: &WinchStatus,
        now: u64,
    ) -> WinchController {
        self.winch_updated(config, id, status, now).ticked(
            config,
            &config.winches@[id].calibration,
            self.winch_velocity(config, id, status, now),
        )
    }

    /// Whether every configured winch has reported in time, once winch
    /// `id` has taken in `status`.
    pub open spec fn watchdog_ok_after(
        &self,
        config: &Config,
        id: int,
        status: &WinchStatus,
        now: u64,
    ) -> bool {
        !watchdog_tripped(
            self.winches@.update(id, self.winch_updated(config, id, status, now)),
            config,
            now,
        )
    }

    /// Whether some configured winch has been silent for longer than the
    /// watchdog allows.
    pub fn multi_winch_watchdog_should_halt(&self, config: &Config, now: u64) -> (b: bool)
        ensures
            b == watchdog_tripped(self.winches@, config, now),
    {
        let mut i: usize = 0;
        while i < self.winches.len() && i < config.winches.len()
            invariant
                forall|k: int|
                    0 <= k < i ==> !(k < self.winches@.len() && k < config.winches@.len() && (
                    #[trigger] self.winches@[k]).stale(config, now)),
            decreases self.winches@.len() - i,
        {
            if self.winches[i].is_stale(config, now) {
                return true;
            }
            i += 1;
        }
        false
    }

    /// Answers the status of winch `id` with its command: takes in the
    /// status, picks the velocity that the mode and the winch's mechanical
    /// state permit, advances the setpoint by one tick and runs the PID
    /// loop.
    ///
    /// Halted, the command keeps the H-bridge off and holds the reported
    /// position. A winch that the mode does not name keeps its setpoint. At
    /// the upper force limit neither the setpoint nor the commanded position
    /// rises, and at the lower limit neither falls, whatever the calibration
    /// and the manual velocity; halted, where the setpoint snaps to the
    /// reported position, this holds as far as that position allows.
    pub fn winch_control_loop(
        &mut self,
        config: &Config,
        id: usize,
        status: WinchStatus,
        now: u64,
    ) -> (command: WinchCommand)
        requires
            id < old(self).winches@.len(),
            id < config.winches@.len(),
        ensures
            final(self).winches@ == old(self).winches@.update(
                id as int,
                old(self).winch_ticked(config, id as int, &status, now).after_command(
                    config,
                    &status,
                ),
            ),
            old(self).same_but_winches(final(self)),
            command == old(self).winch_ticked(config, id as int, &status, now).command_for(
                config,
                &config.winches@[id as int].calibration,
                &status,
                old(self).watchdog_ok_after(config, id as int, &status, now),
            ),
            config.mode == ControllerMode::Halted ==> !command.pwm.enabled && command.position
                == status.sensors.position,
            config.mode != ControllerMode::ManualWinch(id) ==> final(self).winches@[id as int].commanded_velocity
                == 0,
            config.mode != ControllerMode::Halted && config.mode != ControllerMode::ManualWinch(id)
                ==> final(self).winches@[id as int].setpoint == old(self).winches@[id as int].setpoint
                && command.position == sat32(
                trunc_div(old(self).winches@[id as int].setpoint as int, ONE as int),
            ),
            final(self).winches@[id as int].filtered_force >= force_max_counts(
                config,
                &config.winches@[id as int].calibration,
            ) && (config.mode != ControllerMode::Halted || status.sensors.position * ONE <= old(
                self,
            ).winches@[id as int].setpoint) ==> final(self).winches@[id as int].setpoint <= old(
                self,
            ).winches@[id as int].setpoint && command.position <= sat32(
                trunc_div(old(self).winches@[id as int].setpoint as int, ONE as int),
            ),
            final(self).winches@[id as int].filtered_force <= force_min_counts(
                config,
                &config.winches@[id as int].calibration,
            ) && (config.mode != ControllerMode::Halted || status.sensors.position * ONE >= old(
                self,
            ).winches@[id as int].setpoint) ==> final(self).winches@[id as int].setpoint >= old(
                self,
            ).winches@[id as int].setpoint && command.position >= sat32(
                trunc_div(old(self).winches@[id as int].setpoint as int, ONE as int),
            ),
    {
        let cal = &config.winches[id].calibration;
        let mut winch = self.winches[id];
        winch.update(config, cal, &status, now);

        let velocity = match config.mode {
            ControllerMode::ManualWinch(manual_id) => {
                if manual_id == id {
                    let v = self.manual.limited_velocity()[1];
                    match winch.mech_status {
                        MechStatus::Normal => v,
                        MechStatus::Stuck => 0,
                        MechStatus::ForceLimited(_) => if winch.is_interlocked(config, cal, v) {
                            0
                        } else {
                            v
                        },
                    }
                } else {
                    0
                }
            },
            _ => 0,
        };

        self.winches.set(id, winch);
        let watchdog_ok = !self.multi_winch_watchdog_should_halt(config, now);
        let ghost before = winch;
        winch.velocity_tick(config, cal, velocity);
        proof {
            lemma_product_sign(limited_target(config, 0), TICK_DT);
            assert(step_counts(config, cal, 0) == 0);
        }
        let command = winch.make_command(config, cal, &status, watchdog_ok);
        self.winches.set(id, winch);
        command
    }

    /// What the flyer's ring shows: halted, bored once the tracked region
    /// is older than the boredom threshold, else tracking.
    pub open spec fn ring_state(&self, config: &Config) -> RingState {
        if config.mode == ControllerMode::Halted {
            RingState::Halted
        } else if self.region.age > config.vision.tracking_age_boredom_threshold {
            RingState::Bored
        } else {
            RingState::Tracking
        }
    }

    /// What the light animator is to know: the lighting of each winch, the
    /// camera's yaw as the gimbal status of the last tick has it, zero while
    /// there is none, and the state of the ring.
    pub fn light_environment(
        &self,
        config: &Config,
        gimbal_status: Option<GimbalControlStatus>,
    ) -> (env: LightEnvironment)
        ensures
            self.lights_shown(config, gimbal_status, &env),
    {
        let mut winches: Vec<WinchLighting> = Vec::new();
        let mut i: usize = 0;
        while i < self.winches.len()
            invariant
                i <= self.winches@.len(),
                winches@.len() == i,
                forall|k: int| 0 <= k < i ==> winches@[k] == winch_lighting_of(self.winches@[k]),
            decreases self.winches@.len() - i,
        {
            winches.push(winch_lighting(&self.winches[i]));
            i += 1;
        }
        let ring = if config.mode == ControllerMode::Halted {
            RingState::Halted
        } else if self.region.age > config.vision.tracking_age_boredom_threshold {
            RingState::Bored
        } else {
            RingState::Tracking
        };
        LightEnvironment {
            winches,
            camera_yaw_angle: match gimbal_status {
                Some(status) => yaw_angle(status.angles[0]),
                None => 0,
            },
            ring,
        }
    }

    /// Takes in what the detector found, at `now`, and asks for a snap.
    pub fn camera_object_detection_update(&mut self, det: CameraDetectedObjects, now: u64)
        ensures
            *final(self) == (ControllerState {
                detected: det,
                detected_at: now,
                pending_snap: true,
                ..*old(self)
            }),
    {
        self.detected = det;
        self.detected_at = now;
        self.pending_snap = true;
    }

    /// Takes in the tracker's view of the tracked region, unless the manual
    /// controls are steering the camera.
    pub fn camera_region_tracking_update(&mut self, tr: CameraTrackedRegion)
        ensures
            final(self).region == if old(self).manual_active() {
                old(self).region
            } else {
                tr
            },
            final(self).pending_snap == old(self).pending_snap,
            old(self).same_but_tracking(final(self)),
    {
        if !self.manual.camera_control_active() {
            self.region = tr;
        }
    }

    /// Hands a value that a gimbal motor reported to the gimbal controller.
    pub fn gimbal_value_received(&mut self, data: GimbalValueData)
        ensures
            final(self).gimbal.current_angles@ == old(self).gimbal.angles_after(data),
            final(self).gimbal.error_since == old(self).gimbal.error_since,
            final(self).gimbal.motor_on == old(self).gimbal.motor_on,
            old(self).same_but_gimbal(final(self)),
    {
        self.gimbal.value_received(data);
    }

    /// Keeps the latest readings of the flyer's sensors.
    pub fn flyer_sensor_update(&mut self, sensors: FlyerSensors)
        ensures
            final(self).flyer_sensors == Some(sensors),
            old(self).same_but_sensors(final(self)),
    {
        self.flyer_sensors = Some(sensors);
    }
}

} // verus!
