use flyer_control::config::{
    BotParams, Config, ControllerMode, GimbalConfig, GimbalTrackingRect, OverlayConfig, Point3,
    SnapRule, VisionConfig, WinchCalibration, WinchConfig,
};
use flyer_control::fixed::ONE;
use flyer_control::message::{
    ForceCommand, ForceTelemetry, PIDGains, WinchCommand, WinchDeadband, WinchMotorControl,
    WinchPWM, WinchSensors, WinchStatus,
};
use flyer_control::message::{
    AnalogTelemetry, CameraDetectedObject, CameraDetectedObjects, CameraTrackedRegion,
    FlyerSensors, IMUTelemetry, LIDARTelemetry, ManualControlAxis, Quat16, Vec16, XBandTelemetry,
};
use flyer_control::snap::{best_snap_object, object_qualifies};
use flyer_control::gimbal::GimbalController;
use flyer_control::state::{ControllerState, DETECTION_FRESH_US};
use flyer_control::winch::{MechStatus, WinchController};

fn calibration() -> WinchCalibration {
    WinchCalibration { kg_force_at_zero: 0, kg_force_per_count: 1_000, m_dist_per_count: 100 }
}

fn config(mode: ControllerMode) -> Config {
    let winch = WinchConfig { loc: Point3::new(0, 0, 0), calibration: calibration() };
    Config {
        mode,
        params: BotParams {
            accel_rate_m_per_sec2: ONE,
            manual_control_velocity_m_per_sec: 500_000,
            force_min_kg: ONE,
            force_max_kg: 10 * ONE,
            force_lockout_below_kg: 500_000,
            force_lockout_above_kg: 15 * ONE,
            force_filter_param: 500_000,
            pwm_gain_p: 1_000,
            pwm_gain_i: 100,
            pwm_gain_d: 10,
            pos_err_filter_param: ONE,
            integral_err_decay_param: 0,
            vel_err_filter_param: ONE,
            deadband_position: 5,
            deadband_velocity: 2 * ONE,
            stuck_timeout_us: 1_000_000,
            watchdog_timeout_us: 500_000,
            pwm_full_scale: 1_000,
        },
        winches: vec![winch, winch, winch, winch],
        vision: VisionConfig {
            border_rect: [-ONE, -562_500, 2 * ONE, 1_125_000],
            tracking_min_psr: 5 * ONE,
            tracking_min_area: 10_000,
            tracking_max_area: 500_000,
            tracking_default_area: 90_000,
            tracking_age_boredom_threshold: 100,
            manual_control_speed: ONE,
            manual_control_restoring_force: 0,
            manual_camera_deadzone: 100_000,
            snap_tracked_region_to: vec![SnapRule { label: "person".to_string(), min_prob: 500_000 }],
        },
        gimbal: GimbalConfig {
            tracking_rects: vec![
                GimbalTrackingRect { rect: [0, -562_500, ONE, 1_125_000], gain: [100 * ONE, 0] },
                GimbalTrackingRect { rect: [-ONE, -562_500, ONE, 1_125_000], gain: [-100 * ONE, 0] },
            ],
            max_rate: 200,
            center_tolerance: 500_000,
            error_duration_for_rehome_us: 2_000_000,
        },
        overlay: OverlayConfig {
            halt_color: [ONE, 0, 0, ONE],
            border_thickness: 20_000,
            debug_color: [ONE, ONE, ONE, ONE],
            debug_text_height: 30_000,
            detector_default_outline_color: [0, ONE, 0, ONE],
            detector_outline_min_prob: 100_000,
            detector_outline_max_thickness: 10_000,
            detector_label_min_prob: 300_000,
            detector_label_prob_values: true,
            label_text_size: 25_000,
            label_color: [ONE, ONE, ONE, ONE],
            label_background_color: [0, 0, 0, 500_000],
            tracked_region_outline_thickness: 5_000,
            tracked_region_manual_color: [ONE, ONE, 0, ONE],
            tracked_region_default_color: [0, 0, ONE, ONE],
            gimbal_tracking_rect_color: [ONE, 0, ONE, 500_000],
            gimbal_tracking_rect_sensitivity: 10 * ONE,
        },
    }
}

fn status(measure: i32, position: i32, velocity: i64) -> WinchStatus {
    let pwm = WinchPWM { total: 0, p: 0, i: 0, d: 0, quant: 0, enabled: false };
    WinchStatus {
        command_counter: 0,
        tick_counter: 1,
        command: WinchCommand {
            position: 0,
            force: ForceCommand {
                filter_param: 0,
                neg_motion_min: 0,
                pos_motion_max: 0,
                lockout_below: 0,
                lockout_above: 0,
            },
            pid: PIDGains {
                gain_p: 0,
                gain_i: 0,
                gain_d: 0,
                p_filter_param: 0,
                i_decay_param: 0,
                d_filter_param: 0,
            },
            deadband: WinchDeadband { position: 0, velocity: 0 },
            pwm,
        },
        sensors: WinchSensors {
            force: ForceTelemetry { measure, filtered: 0, counter: 0 },
            position,
            velocity,
        },
        motor: WinchMotorControl {
            pwm,
            position_err: 0,
            pos_err_filtered: 0,
            pos_err_integral: 0,
            vel_err_inst: 0,
            vel_err_filtered: 0,
        },
    }
}

fn object(rect: [i64; 4], prob: i64, label: &str) -> CameraDetectedObject {
    CameraDetectedObject { rect, prob, label: label.to_string() }
}

fn detections(objects: Vec<CameraDetectedObject>) -> CameraDetectedObjects {
    CameraDetectedObjects { frame: 42, objects }
}

fn good_region() -> CameraTrackedRegion {
    CameraTrackedRegion { rect: [-100_000, -100_000, 200_000, 200_000], psr: 9 * ONE, age: 7, frame: 3 }
}

fn within(r: [i64; 4], b: [i64; 4]) -> bool {
    b[0] <= r[0] && b[1] <= r[1] && r[0] + r[2] <= b[0] + b[2] && r[1] + r[3] <= b[1] + b[3]
}

#[test]
fn detection_freshness_window_is_half_a_second() {
    assert_eq!(DETECTION_FRESH_US, 500_000);
}

#[test]
fn rules_admit_by_label_and_probability() {
    let cfg = config(ControllerMode::Normal);
    let rules = &cfg.vision.snap_tracked_region_to;
    assert!(object_qualifies(rules, &object([0, 0, 1, 1], 500_000, "person")));
    assert!(!object_qualifies(rules, &object([0, 0, 1, 1], 499_999, "person")));
    assert!(!object_qualifies(rules, &object([0, 0, 1, 1], 999_999, "dog")));
    assert!(!object_qualifies(&Vec::new(), &object([0, 0, 1, 1], ONE, "person")));
}

#[test]
fn a_later_rule_can_admit_what_an_earlier_refused() {
    let rules = vec![
        SnapRule { label: "person".to_string(), min_prob: 900_000 },
        SnapRule { label: "dog".to_string(), min_prob: 100_000 },
        SnapRule { label: "person".to_string(), min_prob: 300_000 },
    ];
    assert!(object_qualifies(&rules, &object([0, 0, 1, 1], 400_000, "person")));
    assert!(!object_qualifies(&rules, &object([0, 0, 1, 1], 200_000, "person")));
    assert!(object_qualifies(&rules, &object([0, 0, 1, 1], 200_000, "dog")));
}

#[test]
fn most_probable_qualifying_object_wins() {
    let cfg = config(ControllerMode::Normal);
    let rules = &cfg.vision.snap_tracked_region_to;
    let objs = vec![
        object([0, 0, 1, 1], 600_000, "person"),
        object([0, 0, 1, 1], 990_000, "dog"),
        object([0, 0, 1, 1], 800_000, "person"),
        object([0, 0, 1, 1], 700_000, "person"),
        object([0, 0, 1, 1], 400_000, "person"),
    ];
    assert_eq!(best_snap_object(&objs, rules), Some(2));
}

#[test]
fn ties_go_to_the_first_seen() {
    let cfg = config(ControllerMode::Normal);
    let rules = &cfg.vision.snap_tracked_region_to;
    let objs = vec![
        object([0, 0, 1, 1], 100_000, "person"),
        object([0, 0, 1, 1], 800_000, "person"),
        object([9, 9, 1, 1], 800_000, "person"),
    ];
    assert_eq!(best_snap_object(&objs, rules), Some(1));
}

#[test]
fn nothing_to_snap_to_where_nothing_qualifies() {
    let cfg = config(ControllerMode::Normal);
    let rules = &cfg.vision.snap_tracked_region_to;
    assert_eq!(best_snap_object(&Vec::new(), rules), None);
    let objs = vec![object([0, 0, 1, 1], 100_000, "person"), object([0, 0, 1, 1], ONE, "cat")];
    assert_eq!(best_snap_object(&objs, rules), None);
}

#[test]
fn new_state_has_one_loop_per_winch() {
    let cfg = config(ControllerMode::ManualFlyer);
    let s = ControllerState::new(&cfg, 55);
    assert_eq!(s.winches.len(), 4);
    for (i, w) in s.winches.iter().enumerate() {
        assert_eq!(w.id, i);
        assert_eq!(w.last_update, 55);
    }
    assert_eq!(s.last_mode, ControllerMode::ManualFlyer);
    assert!(!s.pending_snap);
    assert_eq!(s.flyer_sensors, None);
    assert_eq!(s.region, CameraTrackedRegion::new());
    assert!(s.region.is_empty());
}

#[test]
fn snap_takes_the_detected_rect() {
    let cfg = config(ControllerMode::Normal);
    let mut s = ControllerState::new(&cfg, 0);
    s.region = good_region();
    s.camera_object_detection_update(
        detections(vec![object([200_000, 100_000, 300_000, 300_000], 900_000, "person")]),
        1_000,
    );
    assert!(s.pending_snap);
    assert_eq!(s.find_best_snap_object(&cfg, 2_000), Some(0));
    let rect = s.tracking_update(&cfg, 4_000, false, 2_000);
    assert_eq!(rect, Some([200_000, 100_000, 300_000, 300_000]));
    assert_eq!(s.region.rect, [200_000, 100_000, 300_000, 300_000]);
    assert_eq!(s.region.frame, 42);
    assert_eq!(s.region.psr, 9 * ONE);
    assert_eq!(s.region.age, 7);
    assert!(!s.pending_snap);
    assert_eq!(s.tracking_update(&cfg, 4_000, false, 3_000), None);
}

#[test]
fn snap_is_fitted_into_the_border() {
    let cfg = config(ControllerMode::Normal);
    let mut s = ControllerState::new(&cfg, 0);
    s.region = good_region();
    s.camera_object_detection_update(
        detections(vec![object([900_000, 500_000, 300_000, 300_000], 900_000, "person")]),
        1_000,
    );
    let rect = s.tracking_update(&cfg, 4_000, false, 2_000).unwrap();
    assert_eq!(rect, [700_000, 262_500, 300_000, 300_000]);
    assert!(within(rect, cfg.vision.border_rect));
}

#[test]
fn no_snap_while_halted() {
    let cfg = config(ControllerMode::Halted);
    let mut s = ControllerState::new(&cfg, 0);
    s.region = good_region();
    s.camera_object_detection_update(
        detections(vec![object([200_000, 100_000, 300_000, 300_000], 900_000, "person")]),
        1_000,
    );
    assert_eq!(s.find_best_snap_object(&cfg, 2_000), None);
    assert_eq!(s.tracking_update(&cfg, 4_000, false, 2_000), None);
    assert!(s.pending_snap);
    assert_eq!(s.region, good_region());
}

#[test]
fn stale_detections_are_not_snapped_to() {
    let cfg = config(ControllerMode::Normal);
    let mut s = ControllerState::new(&cfg, 0);
    s.region = good_region();
    s.camera_object_detection_update(
        detections(vec![object([200_000, 100_000, 300_000, 300_000], 900_000, "person")]),
        1_000,
    );
    assert_eq!(s.find_best_snap_object(&cfg, 501_000), Some(0));
    assert_eq!(s.find_best_snap_object(&cfg, 501_001), None);
    assert_eq!(s.tracking_update(&cfg, 4_000, false, 501_001), None);
    assert!(!s.pending_snap);
    assert_eq!(s.region, good_region());
}

#[test]
fn snap_stays_pending_until_something_qualifies() {
    let cfg = config(ControllerMode::Normal);
    let mut s = ControllerState::new(&cfg, 0);
    s.region = good_region();
    s.camera_object_detection_update(
        detections(vec![object([200_000, 100_000, 300_000, 300_000], 900_000, "cat")]),
        1_000,
    );
    assert_eq!(s.tracking_update(&cfg, 4_000, false, 2_000), None);
    assert!(s.pending_snap);
}

#[test]
fn bad_tracking_resets_to_the_default_rect() {
    let cfg = config(ControllerMode::Normal);
    let default = [-150_000, -150_000, 300_000, 300_000];
    let fresh = CameraTrackedRegion { rect: default, psr: 0, age: 0, frame: 0 };

    let mut s = ControllerState::new(&cfg, 0);
    assert_eq!(s.tracking_update(&cfg, 4_000, false, 1_000), Some(default));
    assert_eq!(s.region, fresh);
    assert_eq!(s.tracking_update(&cfg, 4_000, false, 2_000), None);

    s.region = CameraTrackedRegion { psr: 4_999_999, ..good_region() };
    assert_eq!(s.tracking_update(&cfg, 4_000, false, 3_000), Some(default));
    assert_eq!(s.region, fresh);

    s.region = CameraTrackedRegion { psr: 0, age: 0, ..good_region() };
    assert_eq!(s.tracking_update(&cfg, 4_000, false, 3_000), None);

    s.region = CameraTrackedRegion { rect: [0, 0, 90_000, 100_000], ..good_region() };
    assert_eq!(s.tracking_update(&cfg, 4_000, false, 4_000), Some(default));

    s.region = CameraTrackedRegion { rect: [0, 0, ONE, 500_001], ..good_region() };
    assert_eq!(s.tracking_update(&cfg, 4_000, false, 5_000), Some(default));

    s.region = good_region();
    assert_eq!(s.tracking_update(&cfg, 4_000, false, 6_000), None);
    assert_eq!(s.tracking_update(&cfg, 4_000, true, 7_000), Some(default));
}

#[test]
fn steering_moves_the_tracked_rect_to_the_border() {
    let mut cfg = config(ControllerMode::Normal);
    cfg.vision.manual_control_speed = 25 * ONE;
    cfg.vision.manual_control_restoring_force = 500_000;
    let mut s = ControllerState::new(&cfg, 0);
    s.manual.control_value(ManualControlAxis::CameraYaw, ONE);
    let mut last_x = i64::MIN;
    let mut centers = Vec::new();
    for tick in 1..=10u64 {
        let rect = s.tracking_update(&cfg, 4_000, false, tick * 4_000).unwrap();
        assert!(within(rect, cfg.vision.border_rect));
        assert_eq!(rect, s.region.rect);
        assert_eq!([rect[2], rect[3]], [300_000, 300_000]);
        let x = rect[0] + rect[2] / 2;
        assert!(x >= last_x);
        last_x = x;
        centers.push(x);
    }
    assert_eq!(centers[0], 100_000);
    assert_eq!(centers[1], 199_800);
    assert!(centers[2] > centers[1]);
    assert_eq!(last_x, 850_000);
}

#[test]
fn steering_settles_at_the_equilibrium_without_swinging_back() {
    let mut cfg = config(ControllerMode::Normal);
    cfg.vision.manual_control_speed = ONE;
    cfg.vision.manual_control_restoring_force = 2 * ONE;
    let mut s = ControllerState::new(&cfg, 0);
    s.manual.control_value(ManualControlAxis::CameraYaw, ONE);
    let mut last_x = 0;
    let mut moved = 0;
    for tick in 1..=3_000u64 {
        let rect = s.tracking_update(&cfg, 4_000, false, tick * 4_000).unwrap();
        assert!(within(rect, cfg.vision.border_rect));
        let x = rect[0] + rect[2] / 2;
        assert!(x >= last_x, "tick {}: {} after {}", tick, x, last_x);
        if x > last_x {
            moved = tick;
        }
        last_x = x;
    }
    assert!(last_x <= 500_000);
    assert!(last_x >= 499_000);
    assert!(moved < 3_000);
}

#[test]
fn manual_steering_flips_the_pitch() {
    let mut cfg = config(ControllerMode::Normal);
    cfg.vision.manual_control_speed = 25 * ONE;
    let mut s = ControllerState::new(&cfg, 0);
    s.manual.control_value(ManualControlAxis::CameraPitch, ONE);
    let rect = s.tracking_update(&cfg, 4_000, false, 4_000).unwrap();
    assert_eq!(rect, [-150_000, -250_000, 300_000, 300_000]);
}

#[test]
fn steering_inside_the_deadzone_only_restores() {
    let mut cfg = config(ControllerMode::Normal);
    cfg.vision.manual_control_restoring_force = 25 * ONE;
    let mut s = ControllerState::new(&cfg, 0);
    s.region.rect = [250_000, -150_000, 300_000, 300_000];
    s.manual.control_value(ManualControlAxis::CameraYaw, 50_000);
    let rect = s.tracking_update(&cfg, 4_000, false, 4_000).unwrap();
    assert_eq!(rect, [210_000, -150_000, 300_000, 300_000]);
}

#[test]
fn manual_steering_comes_before_a_snap() {
    let cfg = config(ControllerMode::Normal);
    let mut s = ControllerState::new(&cfg, 0);
    s.manual.control_value(ManualControlAxis::CameraYaw, ONE);
    s.camera_object_detection_update(
        detections(vec![object([200_000, 100_000, 300_000, 300_000], 900_000, "person")]),
        1_000,
    );
    let rect = s.tracking_update(&cfg, 4_000, false, 2_000).unwrap();
    assert_eq!(rect, [-146_000, -150_000, 300_000, 300_000]);
    assert!(s.pending_snap);
}

#[test]
fn tracker_is_ignored_while_steering() {
    let cfg = config(ControllerMode::Normal);
    let mut s = ControllerState::new(&cfg, 0);
    s.camera_region_tracking_update(good_region());
    assert_eq!(s.region, good_region());
    s.manual.control_value(ManualControlAxis::CameraPitch, -ONE);
    let other = CameraTrackedRegion { rect: [1, 2, 3, 4], psr: 1, age: 1, frame: 1 };
    s.camera_region_tracking_update(other);
    assert_eq!(s.region, good_region());
    s.manual.control_reset();
    s.camera_region_tracking_update(other);
    assert_eq!(s.region, other);
}

#[test]
fn change_of_mode_halts_motion() {
    let cfg = config(ControllerMode::Normal);
    let mut s = ControllerState::new(&cfg, 0);
    s.manual.control_value(ManualControlAxis::RelativeY, ONE);
    s.manual.control_tick(&cfg, 4_000);
    s.winches[1].position_err_integral = 99;
    s.winches[1].setpoint = 7 * ONE;
    s.config_changed(&cfg);
    assert_eq!(s.manual.get(ManualControlAxis::RelativeY), ONE);
    assert_eq!(s.winches[1].position_err_integral, 99);
    let manual = config(ControllerMode::ManualWinch(1));
    s.config_changed(&manual);
    assert_eq!(s.last_mode, ControllerMode::ManualWinch(1));
    assert_eq!(s.manual.get(ManualControlAxis::RelativeY), 0);
    assert_eq!(s.manual.limited_velocity(), [0, 0, 0]);
    assert_eq!(s.winches[1].position_err_integral, 0);
    assert_eq!(s.winches[1].setpoint, 7 * ONE);
}

#[test]
fn watchdog_trips_on_a_silent_winch() {
    let cfg = config(ControllerMode::Normal);
    let mut s = ControllerState::new(&cfg, 0);
    assert!(!s.multi_winch_watchdog_should_halt(&cfg, 500_000));
    assert!(s.multi_winch_watchdog_should_halt(&cfg, 500_001));
    for id in 0..4 {
        s.winch_control_loop(&cfg, id, status(4_000, 0, 0), 400_000);
    }
    assert!(!s.multi_winch_watchdog_should_halt(&cfg, 900_000));
    for id in 1..4 {
        s.winch_control_loop(&cfg, id, status(4_000, 0, 0), 800_000);
    }
    assert!(s.multi_winch_watchdog_should_halt(&cfg, 900_001));
}

#[test]
fn watchdog_ignores_winches_that_are_not_configured() {
    let cfg = config(ControllerMode::Normal);
    let mut s = ControllerState::new(&cfg, 0);
    let mut fewer = config(ControllerMode::Normal);
    fewer.winches.truncate(2);
    for id in 0..2 {
        s.winch_control_loop(&cfg, id, status(4_000, 0, 0), 800_000);
    }
    assert!(s.multi_winch_watchdog_should_halt(&cfg, 900_000));
    assert!(!s.multi_winch_watchdog_should_halt(&fewer, 900_000));
}

#[test]
fn manual_winch_follows_the_y_axis() {
    let cfg = config(ControllerMode::ManualWinch(2));
    let mut s = ControllerState::new(&cfg, 0);
    s.manual.control_value(ManualControlAxis::RelativeY, ONE);
    for _ in 0..125 {
        s.manual.control_tick(&cfg, 4_000);
    }
    assert_eq!(s.manual.limited_velocity()[1], 500_000);
    let cmd = s.winch_control_loop(&cfg, 2, status(4_000, 0, 0), 1_000);
    assert_eq!(s.winches[2].setpoint, 20 * ONE);
    assert_eq!(cmd.position, 20);
    assert!(cmd.pwm.enabled);
    let cmd = s.winch_control_loop(&cfg, 1, status(4_000, 0, 0), 1_000);
    assert_eq!(s.winches[1].setpoint, 0);
    assert_eq!(cmd.position, 0);
}

#[test]
fn manual_winch_is_held_by_its_mechanical_state() {
    let mut cfg = config(ControllerMode::ManualWinch(0));
    cfg.params.force_filter_param = ONE;
    let mut s = ControllerState::new(&cfg, 0);
    s.manual.control_value(ManualControlAxis::RelativeY, ONE);
    for _ in 0..125 {
        s.manual.control_tick(&cfg, 4_000);
    }
    s.winch_control_loop(&cfg, 0, status(10_000, 0, 0), 1_000);
    assert_eq!(s.winches[0].setpoint, 0);
    s.winch_control_loop(&cfg, 0, status(9_999, 0, 0), 2_000);
    assert_eq!(s.winches[0].setpoint, 20 * ONE);
    s.winch_control_loop(&cfg, 0, status(1_000, 0, 0), 3_000);
    assert_eq!(s.winches[0].setpoint, 40 * ONE);
    s.manual.control_value(ManualControlAxis::RelativeY, -ONE);
    for _ in 0..250 {
        s.manual.control_tick(&cfg, 4_000);
    }
    s.winch_control_loop(&cfg, 0, status(1_000, 0, 0), 4_000);
    assert_eq!(s.winches[0].setpoint, 40 * ONE);
    s.winch_control_loop(&cfg, 0, status(10_000, 0, 0), 5_000);
    assert_eq!(s.winches[0].setpoint, 20 * ONE);
}

#[test]
fn force_limit_holds_for_a_falling_calibration() {
    let mut cfg = config(ControllerMode::ManualWinch(2));
    cfg.params.force_filter_param = ONE;
    cfg.params.manual_control_velocity_m_per_sec = 250 * ONE;
    cfg.params.accel_rate_m_per_sec2 = 1_000_000 * ONE;
    cfg.winches[2].calibration.m_dist_per_count = -1;

    // The ramp at -250 m/s, which in counts is upward: held at the upper limit.
    let mut s = ControllerState::new(&cfg, 0);
    s.manual.control_value(ManualControlAxis::RelativeY, -ONE);
    s.manual.control_tick(&cfg, 4_000);
    assert_eq!(s.manual.limited_velocity()[1], -250 * ONE);
    let cmd = s.winch_control_loop(&cfg, 2, status(10_001, 0, 0), 1_000);
    assert_eq!(s.winches[2].mech_status, MechStatus::ForceLimited(1));
    assert_eq!(s.winches[2].setpoint, 0);
    assert_eq!(cmd.position, 0);

    // The joystick at +1 while the ramp is still negative: held as well.
    s.manual.control_value(ManualControlAxis::RelativeY, ONE);
    let cmd = s.winch_control_loop(&cfg, 2, status(10_001, 0, 0), 2_000);
    assert_eq!(s.winches[2].setpoint, 0);
    assert_eq!(cmd.position, 0);

    // Once the ramp is positive the velocity points at the limit: held.
    s.manual.control_tick(&cfg, 4_000);
    assert_eq!(s.manual.limited_velocity()[1], 250 * ONE);
    let cmd = s.winch_control_loop(&cfg, 2, status(10_001, 0, 0), 3_000);
    assert_eq!(s.winches[2].setpoint, 0);
    assert_eq!(cmd.position, 0);

    // Between the limits the winch follows: downward in counts.
    let cmd = s.winch_control_loop(&cfg, 2, status(5_000, 0, 0), 4_000);
    assert_eq!(s.winches[2].mech_status, MechStatus::Normal);
    assert_eq!(s.winches[2].setpoint, -1_000_000 * ONE);
    assert_eq!(cmd.position, -1_000_000);

    // At the lower limit neither way lowers the position.
    let cmd = s.winch_control_loop(&cfg, 2, status(1_000, 0, 0), 5_000);
    assert_eq!(s.winches[2].mech_status, MechStatus::ForceLimited(-1));
    assert_eq!(cmd.position, -1_000_000);
    s.manual.control_value(ManualControlAxis::RelativeY, -ONE);
    s.manual.control_tick(&cfg, 4_000);
    let cmd = s.winch_control_loop(&cfg, 2, status(1_000, 0, 0), 6_000);
    assert_eq!(cmd.position, -1_000_000);
}

#[test]
fn force_limit_while_halted_holds_the_reported_position() {
    let mut cfg = config(ControllerMode::Halted);
    cfg.params.force_filter_param = ONE;
    let mut s = ControllerState::new(&cfg, 0);
    s.winches[0].setpoint = 50 * ONE;
    let cmd = s.winch_control_loop(&cfg, 0, status(10_001, 40, 0), 1_000);
    assert_eq!(cmd.position, 40);
    assert!(!cmd.pwm.enabled);
    assert_eq!(s.winches[0].setpoint, 40 * ONE);
}

#[test]
fn new_state_is_at_rest() {
    let cfg = config(ControllerMode::Normal);
    let s = ControllerState::new(&cfg, 9);
    assert_eq!(s.manual.limited_velocity(), [0, 0, 0]);
    assert_eq!(s.detected_at, 9);
    assert_eq!(s.detected.frame, 0);
    assert!(s.detected.objects.is_empty());
    for (i, w) in s.winches.iter().enumerate() {
        assert_eq!(*w, WinchController::new(i, 9));
    }
    assert_eq!(s.gimbal, GimbalController::new());
}

#[test]
fn sensors_are_cached() {
    let cfg = config(ControllerMode::Normal);
    let mut s = ControllerState::new(&cfg, 0);
    let v = Vec16 { x: 1, y: 2, z: 3 };
    let sensors = FlyerSensors {
        xband: XBandTelemetry { edge_count: 1, speed_measure: 2, measure_count: 3 },
        lidar: LIDARTelemetry { ranges: [1, 2, 3, 4], counters: [5, 6, 7, 8] },
        analog: AnalogTelemetry { values: [0; 8], counter: 9 },
        imu: IMUTelemetry {
            accelerometer: v,
            magnetometer: v,
            gyroscope: v,
            euler_angles: v,
            quaternion: Quat16 { w: 1, x: 0, y: 0, z: 0 },
            linear_accel: v,
            gravity: v,
            temperature: 20,
            calib_stat: 3,
            counter: 10,
        },
    };
    s.flyer_sensor_update(sensors);
    assert_eq!(s.flyer_sensors, Some(sensors));
}
