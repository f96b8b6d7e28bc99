//! Controller configuration.
//!
//! A `Config` is an immutable snapshot: the controller replaces it as a whole
//! and never edits one that it has handed out. Real-valued parameters are
//! fixed-point numbers in millionths of the unit their name gives; durations
//! are microseconds.

use crate::fixed::{
    fx_add, fx_diff, fx_div, fx_mul, fx_product, fx_quotient, fx_sub, fx_sum,
    lemma_trunc_div_error, trunc_div, ONE,
};
use vstd::prelude::*;
use vstd::string::to_string_from_display_ensures;

verus! {

/// What the controller is allowed to move. `Halted` is the safe state.
#[derive(Clone, Copy, Debug, PartialEq, Eq, Structural)]
pub enum ControllerMode {
    Halted,
    Normal,
    ManualFlyer,
    /// One winch, by index, follows the manual controls; all others hold.
    ManualWinch(usize),
}

/// A point in the room, in metres.
#[derive(Clone, Copy, Debug, PartialEq, Eq, Structural)]
pub struct Point3 {
    pub x: i64,
    pub y: i64,
    pub z: i64,
}

impl Point3 {
    /// The point with these coordinates.
    pub fn new(x: i64, y: i64, z: i64) -> (p: Point3)
        ensures
            p.x == x,
            p.y == y,
            p.z == z,
    {
        Point3 { x, y, z }
    }
}

/// The affine maps between a winch's raw sensor counts and physical units.
#[derive(Clone, Copy, Debug, PartialEq, Eq, Structural)]
pub struct WinchCalibration {
    pub kg_force_at_zero: i64,
    pub kg_force_per_count: i64,
    pub m_dist_per_count: i64,
}

/// Scaling counts by a positive factor and back loses less than one count
/// and the counts of a millionth of the unit.
proof fn lemma_scale_round_trip(per_count: i64, counts: i64)
    requires
        per_count > 0,
        i64::MIN < per_count * counts / (ONE as int) < i64::MAX,
        i64::MIN + ONE < counts < i64::MAX - ONE,
    ensures
        ({
            let scaled = fx_product(per_count, counts);
            let back = fx_quotient(scaled, per_count);
            &&& i64::MIN < scaled < i64::MAX
            &&& per_count * (back - counts) < ONE + per_count
            &&& per_count * (counts - back) < ONE + per_count
        }),
{
    let per = per_count as int;
    let exact = per * counts;
    let m = trunc_div(exact, ONE as int);
    lemma_trunc_div_error(exact, ONE as int);
    assert(i64::MIN < m < i64::MAX) by {
        if exact < 0 {
            assert((-exact) / (ONE as int) <= -(exact / (ONE as int)) + 1) by (nonlinear_arith);
        }
    }
    assert(fx_product(per_count, counts) == m);
    let scaled = m * ONE;
    let back = trunc_div(scaled, per);
    lemma_trunc_div_error(scaled, per);
    assert(per * (back - counts) == back * per - exact) by (nonlinear_arith)
        requires
            exact == per * counts,
    ;
    assert(per * (counts - back) == exact - back * per) by (nonlinear_arith)
        requires
            exact == per * counts,
    ;
    assert(-(ONE + per) < back * per - exact < ONE + per);
    assert(counts - ONE - 1 <= back <= counts + ONE + 1) by (nonlinear_arith)
        requires
            per >= 1,
            per * (back - counts) < ONE + per,
            per * (counts - back) < ONE + per,
    ;
    assert(fx_quotient(m as i64, per_count) == back);
}

impl WinchCalibration {
    /// Kilograms for a force reading in counts.
    pub open spec fn kg_of_force(&self, counts: i64) -> i64 {
        fx_sum(self.kg_force_at_zero, fx_product(self.kg_force_per_count, counts))
    }

    /// Counts for a force in kilograms: the inverse of `kg_of_force`.
    pub open spec fn force_of_kg(&self, kg: i64) -> i64 {
        fx_quotient(fx_diff(kg, self.kg_force_at_zero), self.kg_force_per_count)
    }

    /// Metres for a distance in counts.
    pub open spec fn m_of_dist(&self, counts: i64) -> i64 {
        fx_product(self.m_dist_per_count, counts)
    }

    /// Counts for a distance in metres: the inverse of `m_of_dist`.
    pub open spec fn dist_of_m(&self, m: i64) -> i64 {
        fx_quotient(m, self.m_dist_per_count)
    }

    /// The distance maps invert each other up to rounding: counts turned
    /// into metres and back differ from what they were by less than one
    /// count and the counts of a millionth of a metre. This holds for a
    /// calibration in which counts grow with metres and for counts whose
    /// metres do not saturate.
    pub proof fn lemma_distance_round_trip(&self, counts: i64)
        requires
            self.m_dist_per_count > 0,
            i64::MIN < self.m_dist_per_count * counts / (ONE as int) < i64::MAX,
            i64::MIN + ONE < counts < i64::MAX - ONE,
        ensures
            ({
                let back = self.dist_of_m(self.m_of_dist(counts));
                &&& self.m_dist_per_count * (back - counts) < ONE + self.m_dist_per_count
                &&& self.m_dist_per_count * (counts - back) < ONE + self.m_dist_per_count
            }),
    {
        lemma_scale_round_trip(self.m_dist_per_count, counts);
    }

    /// The force maps invert each other up to rounding: counts turned into
    /// kilograms and back differ from what they were by less than one count
    /// and the counts of a millionth of a kilogram. This holds for a
    /// calibration in which counts grow with kilograms and for counts whose
    /// kilograms do not saturate.
    pub proof fn lemma_force_round_trip(&self, counts: i64)
        requires
            self.kg_force_per_count > 0,
            i64::MIN < self.kg_force_per_count * counts / (ONE as int) < i64::MAX,
            i64::MIN < self.kg_force_at_zero + self.kg_force_per_count * counts / (ONE as int)
                < i64::MAX,
            i64::MIN + ONE < counts < i64::MAX - ONE,
        ensures
            ({
                let back = self.force_of_kg(self.kg_of_force(counts));
                &&& self.kg_force_per_count * (back - counts) < ONE + self.kg_force_per_count
                &&& self.kg_force_per_count * (counts - back) < ONE + self.kg_force_per_count
            }),
    {
        lemma_scale_round_trip(self.kg_force_per_count, counts);
        let exact = self.kg_force_per_count * counts;
        if exact < 0 {
            assert((-exact) / (ONE as int) <= -(exact / (ONE as int)) + 1) by (nonlinear_arith);
            assert((-exact) / (ONE as int) >= -(exact / (ONE as int)) - 1) by (nonlinear_arith);
        }
        let m = fx_product(self.kg_force_per_count, counts);
        assert(fx_diff(fx_sum(self.kg_force_at_zero, m), self.kg_force_at_zero) == m);
    }

    /// Kilograms for a force reading in counts.
    pub fn force_to_kg(&self, counts: i64) -> (kg: i64)
        ensures
            kg == self.kg_of_force(counts),
    {
        fx_add(self.kg_force_at_zero, fx_mul(self.kg_force_per_count, counts))
    }

    /// Counts for a force in kilograms.
    pub fn force_from_kg(&self, kg: i64) -> (counts: i64)
        ensures
            counts == self.force_of_kg(kg),
    {
        fx_div(fx_sub(kg, self.kg_force_at_zero), self.kg_force_per_count)
    }

    /// Metres for a distance in counts.
    pub fn dist_to_m(&self, counts: i64) -> (m: i64)
        ensures
            m == self.m_of_dist(counts),
    {
        fx_mul(self.m_dist_per_count, counts)
    }

    /// Counts for a distance in metres.
    pub fn dist_from_m(&self, m: i64) -> (counts: i64)
        ensures
            counts == self.dist_of_m(m),
    {
        fx_div(m, self.m_dist_per_count)
    }
}

/// One winch: where it stands and how its sensors are calibrated.
#[derive(Clone, Copy, Debug, PartialEq, Eq, Structural)]
pub struct WinchConfig {
    pub loc: Point3,
    pub calibration: WinchCalibration,
}

/// Motion, force and control-loop parameters shared by all winches.
#[derive(Clone, Copy, Debug, PartialEq, Eq, Structural)]
pub struct BotParams {
    pub accel_rate_m_per_sec2: i64,
    pub manual_control_velocity_m_per_sec: i64,
    pub force_min_kg: i64,
    pub force_max_kg: i64,
    pub force_lockout_below_kg: i64,
    pub force_lockout_above_kg: i64,
    pub force_filter_param: i64,
    pub pwm_gain_p: i64,
    pub pwm_gain_i: i64,
    pub pwm_gain_d: i64,
    pub pos_err_filter_param: i64,
    pub integral_err_decay_param: i64,
    pub vel_err_filter_param: i64,
    /// How close, in counts, is close enough when stopped.
    pub deadband_position: i32,
    /// Below this speed, in counts per second, a winch counts as stopped.
    pub deadband_velocity: i64,
    /// How long a commanded winch may stay stopped before it counts as stuck.
    pub stuck_timeout_us: u64,
    /// How long any winch may go without reporting before the controller halts.
    pub watchdog_timeout_us: u64,
    /// Clock ticks of full-scale PWM.
    pub pwm_full_scale: i16,
}

/// A label and the least probability at which a detection with that label
/// may capture the tracked region.
#[derive(Clone, Debug, PartialEq)]
pub struct SnapRule {
    pub label: String,
    pub min_prob: i64,
}

/// Parameters of the vision-tracked region.
#[derive(Clone, Debug, PartialEq)]
pub struct VisionConfig {
    pub border_rect: [i64; 4],
    pub tracking_min_psr: i64,
    pub tracking_min_area: i64,
    pub tracking_max_area: i64,
    pub tracking_default_area: i64,
    pub tracking_age_boredom_threshold: u32,
    pub manual_control_speed: i64,
    pub manual_control_restoring_force: i64,
    pub manual_camera_deadzone: i64,
    pub snap_tracked_region_to: Vec<SnapRule>,
}

/// A region of the camera image and the gimbal rate that a tracked
/// rectangle overlapping it asks for, per unit of overlapping area.
#[derive(Clone, Copy, Debug, PartialEq)]
pub struct GimbalTrackingRect {
    pub rect: [i64; 4],
    pub gain: [i64; 2],
}

/// Parameters of the gimbal controller.
#[derive(Clone, Debug, PartialEq)]
pub struct GimbalConfig {
    pub tracking_rects: Vec<GimbalTrackingRect>,
    /// The largest rate, in either direction, that is ever commanded.
    pub max_rate: i16,
    /// How far from the image centre the tracked rectangle's centre may lie
    /// on either axis without counting as an error.
    pub center_tolerance: i64,
    /// How long an uninterrupted error may last before the gimbal rehomes.
    pub error_duration_for_rehome_us: u64,
}

/// How the camera overlay is drawn. Colours are red, green, blue and alpha
/// from 0 to 1.
#[derive(Clone, Copy, Debug, PartialEq)]
pub struct OverlayConfig {
    pub halt_color: [i64; 4],
    pub border_thickness: i64,
    pub debug_color: [i64; 4],
    pub debug_text_height: i64,
    pub detector_default_outline_color: [i64; 4],
    pub detector_outline_min_prob: i64,
    pub detector_outline_max_thickness: i64,
    pub detector_label_min_prob: i64,
    pub detector_label_prob_values: bool,
    pub label_text_size: i64,
    pub label_color: [i64; 4],
    pub label_background_color: [i64; 4],
    pub tracked_region_outline_thickness: i64,
    pub tracked_region_manual_color: [i64; 4],
    pub tracked_region_default_color: [i64; 4],
    pub gimbal_tracking_rect_color: [i64; 4],
    pub gimbal_tracking_rect_sensitivity: i64,
}

/// The whole configuration.
#[derive(Clone, Debug, PartialEq)]
pub struct Config {
    pub mode: ControllerMode,
    pub params: BotParams,
    pub winches: Vec<WinchConfig>,
    pub vision: VisionConfig,
    pub gimbal: GimbalConfig,
    pub overlay: OverlayConfig,
}

/// Turns the error of a result into its displayed text and keeps a success
/// as it is.
pub fn err_string<T, U: core::fmt::Display>(result: Result<T, U>) -> (r: Result<T, String>)
    ensures
        match result {
            Ok(v) => r == Ok::<T, String>(v),
            Err(e) => r is Err && to_string_from_display_ensures::<U>(&e, r->Err_0),
        },
{
    match result {
        Ok(v) => Ok(v),
        Err(e) => Err(e.to_string()),
    }
}

} // verus!
