use flyer_control::config::{
    BotParams, Config, ControllerMode, GimbalConfig, GimbalTrackingRect, OverlayConfig, Point3,
    SnapRule, VisionConfig, WinchCalibration, WinchConfig,
};
use flyer_control::fixed::ONE;
use flyer_control::message::{
    ForceCommand, ForceTelemetry, PIDGains, WinchCommand, WinchDeadband, WinchMotorControl,
    WinchPWM, WinchSensors, WinchStatus,
};
use flyer_control::config::err_string;
use flyer_control::gimbal::{GimbalControlStatus, GimbalController, ENCODER_ANGLE_INDEX};
use flyer_control::lights::{winch_lighting, yaw_angle, WinchLighting, TAU};
use flyer_control::message::{
    CameraDetectedObject, CameraDetectedObjects, CameraTrackedRegion, GimbalCommand,
    GimbalValueAddress, GimbalValueData, ManualControlAxis,
};
use flyer_control::overlay::OverlayItem;
use flyer_control::state::ControllerState;
use flyer_control::timer::{ControllerTimers, Timer};
use flyer_control::vector::{rect_bottomleft, rect_offset, rect_topleft, v2_len};
use flyer_control::winch::{MechStatus, WinchController};

fn calibration() -> WinchCalibration {
    WinchCalibration { kg_force_at_zero: 0, kg_force_per_count: 1_000, m_dist_per_count: 100 }
}

fn config(mode: ControllerMode) -> Config {
    let winch = WinchConfig { loc: Point3::new(0, 0, 0), calibration: calibration() };
    Config {
        mode,
        params: BotParams {
            accel_rate_m_per_sec2: ONE,
            manual_control_velocity_m_per_sec: 500_000,
            force_min_kg: ONE,
            force_max_kg: 10 * ONE,
            force_lockout_below_kg: 500_000,
            force_lockout_above_kg: 15 * ONE,
            force_filter_param: 500_000,
            pwm_gain_p: 1_000,
            pwm_gain_i: 100,
            pwm_gain_d: 10,
            pos_err_filter_param: ONE,
            integral_err_decay_param: 0,
            vel_err_filter_param: ONE,
            deadband_position: 5,
            deadband_velocity: 2 * ONE,
            stuck_timeout_us: 1_000_000,
            watchdog_timeout_us: 500_000,
            pwm_full_scale: 1_000,
        },
        winches: vec![winch, winch, winch, winch],
        vision: VisionConfig {
            border_rect: [-ONE, -562_500, 2 * ONE, 1_125_000],
            tracking_min_psr: 5 * ONE,
            tracking_min_area: 10_000,
            tracking_max_area: 500_000,
            tracking_default_area: 90_000,
            tracking_age_boredom_threshold: 100,
            manual_control_speed: ONE,
            manual_control_restoring_force: 0,
            manual_camera_deadzone: 100_000,
            snap_tracked_region_to: vec![SnapRule { label: "person".to_string(), min_prob: 500_000 }],
        },
        gimbal: GimbalConfig {
            tracking_rects: vec![
                GimbalTrackingRect { rect: [0, -562_500, ONE, 1_125_000], gain: [100 * ONE, 0] },
                GimbalTrackingRect { rect: [-ONE, -562_500, ONE, 1_125_000], gain: [-100 * ONE, 0] },
            ],
            max_rate: 200,
            center_tolerance: 500_000,
            error_duration_for_rehome_us: 2_000_000,
        },
        overlay: OverlayConfig {
            halt_color: [ONE, 0, 0, ONE],
            border_thickness: 20_000,
            debug_color: [ONE, ONE, ONE, ONE],
            debug_text_height: 30_000,
            detector_default_outline_color: [0, ONE, 0, ONE],
            detector_outline_min_prob: 100_000,
            detector_outline_max_thickness: 10_000,
            detector_label_min_prob: 300_000,
            detector_label_prob_values: true,
            label_text_size: 25_000,
            label_color: [ONE, ONE, ONE, ONE],
            label_background_color: [0, 0, 0, 500_000],
            tracked_region_outline_thickness: 5_000,
            tracked_region_manual_color: [ONE, ONE, 0, ONE],
            tracked_region_default_color: [0, 0, ONE, ONE],
            gimbal_tracking_rect_color: [ONE, 0, ONE, 500_000],
            gimbal_tracking_rect_sensitivity: 10 * ONE,
        },
    }
}

fn status(measure: i32, position: i32, velocity: i64) -> WinchStatus {
    let pwm = WinchPWM { total: 0, p: 0, i: 0, d: 0, quant: 0, enabled: false };
    WinchStatus {
        command_counter: 0,
        tick_counter: 1,
        command: WinchCommand {
            position: 0,
            force: ForceCommand {
                filter_param: 0,
                neg_motion_min: 0,
                pos_motion_max: 0,
                lockout_below: 0,
                lockout_above: 0,
            },
            pid: PIDGains {
                gain_p: 0,
                gain_i: 0,
                gain_d: 0,
                p_filter_param: 0,
                i_decay_param: 0,
                d_filter_param: 0,
            },
            deadband: WinchDeadband { position: 0, velocity: 0 },
            pwm,
        },
        sensors: WinchSensors {
            force: ForceTelemetry { measure, filtered: 0, counter: 0 },
            position,
            velocity,
        },
        motor: WinchMotorControl {
            pwm,
            position_err: 0,
            pos_err_filtered: 0,
            pos_err_integral: 0,
            vel_err_inst: 0,
            vel_err_filtered: 0,
        },
    }
}

fn region(rect: [i64; 4]) -> CameraTrackedRegion {
    CameraTrackedRegion { rect, psr: 9 * ONE, age: 3, frame: 1 }
}

#[test]
fn force_converts_to_kilograms_and_back() {
    let cal = WinchCalibration { kg_force_at_zero: -2 * ONE, kg_force_per_count: 1_000, m_dist_per_count: 100 };
    assert_eq!(cal.force_to_kg(4_000 * ONE), 2 * ONE);
    assert_eq!(cal.force_from_kg(2 * ONE), 4_000 * ONE);
    assert_eq!(cal.force_to_kg(0), -2 * ONE);
    assert_eq!(cal.force_from_kg(-2 * ONE), 0);
}

#[test]
fn distance_converts_to_metres_and_back() {
    let cal = calibration();
    assert_eq!(cal.dist_to_m(10_000 * ONE), ONE);
    assert_eq!(cal.dist_from_m(ONE), 10_000 * ONE);
    assert_eq!(cal.dist_from_m(cal.dist_to_m(-123 * ONE)), -123 * ONE);
}

#[test]
fn round_trips_are_off_by_less_than_the_rounding() {
    let cal = WinchCalibration { kg_force_at_zero: 250_000, kg_force_per_count: 7, m_dist_per_count: 3 };
    assert_eq!(cal.dist_to_m(1_234_567), 3);
    assert_eq!(cal.dist_from_m(3), 1_000_000);
    for counts in [-987_654_321i64, -1_234_567, -1, 0, 1, 999_999, 1_234_567, 987_654_321_012] {
        let back = cal.dist_from_m(cal.dist_to_m(counts));
        assert!(3 * (back - counts) < ONE + 3);
        assert!(3 * (counts - back) < ONE + 3);
        let back = cal.force_from_kg(cal.force_to_kg(counts));
        assert!(7 * (back - counts) < ONE + 7);
        assert!(7 * (counts - back) < ONE + 7);
    }
}

#[test]
fn calibration_without_scale_saturates() {
    let cal = WinchCalibration { kg_force_at_zero: 0, kg_force_per_count: 0, m_dist_per_count: 0 };
    assert_eq!(cal.force_from_kg(ONE), i64::MAX);
    assert_eq!(cal.force_from_kg(-ONE), i64::MIN);
    assert_eq!(cal.dist_from_m(0), 0);
    assert_eq!(cal.dist_to_m(5 * ONE), 0);
}

#[test]
fn point_keeps_its_coordinates() {
    let p = Point3::new(1, -2, 3);
    assert_eq!((p.x, p.y, p.z), (1, -2, 3));
}

#[test]
fn err_string_displays_the_error() {
    let bad: Result<u8, std::num::ParseIntError> = "x".parse::<u8>();
    assert_eq!(err_string(bad), Err("invalid digit found in string".to_string()));
    let good: Result<u8, std::num::ParseIntError> = "7".parse::<u8>();
    assert_eq!(err_string(good), Ok(7));
    let text: Result<(), &str> = Err("plain");
    assert_eq!(err_string(text), Err("plain".to_string()));
}

#[test]
fn timer_fires_after_a_full_period() {
    let mut t = Timer::new(100, 1_000);
    assert_eq!(t.poll(1_099), None);
    assert_eq!(t.poll(999), None);
    assert_eq!(t.poll(1_100), Some(100));
    assert_eq!(t.last_fire, 1_100);
    assert_eq!(t.poll(1_150), None);
    assert_eq!(t.poll(1_450), Some(350));
    assert_eq!(t.poll(1_549), None);
    assert_eq!(t.poll(1_550), Some(100));
}

#[test]
fn timer_of_no_period_fires_at_every_poll() {
    let mut t = Timer::new(0, 5);
    assert_eq!(t.poll(5), Some(0));
    assert_eq!(t.poll(5), Some(0));
    assert_eq!(t.poll(9), Some(4));
    assert_eq!(t.poll(8), None);
}

#[test]
fn controller_timers_start_together() {
    let t = ControllerTimers::new(77);
    assert_eq!(t.tick, Timer { period_us: 4_000, last_fire: 77 });
    assert_eq!(t.video_frame, Timer { period_us: 33_333, last_fire: 77 });
    assert_eq!(t.config_poll, Timer { period_us: 250_000, last_fire: 77 });
}

#[test]
fn gimbal_rate_is_gain_times_overlap() {
    let cfg = config(ControllerMode::Normal);
    let mut g = GimbalController::new();
    g.set_motor_enable(true);
    let (command, status) = g.tick(&cfg, &region([200_000, 100_000, 300_000, 300_000]), 1_000);
    assert_eq!(command, GimbalCommand { motor_on: true, rates: [9, 0] });
    assert_eq!(
        status,
        GimbalControlStatus { angles: [0, 0, 0], rates: [9, 0], current_error_duration: 0 }
    );
    let (command, _) = g.tick(&cfg, &region([-500_000, 100_000, 300_000, 300_000]), 2_000);
    assert_eq!(command.rates, [-9, 0]);
    let (command, _) = g.tick(&cfg, &region([-150_000, -150_000, 300_000, 300_000]), 3_000);
    assert_eq!(command.rates, [0, 0]);
    let (command, _) = g.tick(&cfg, &region([-100_000, -150_000, 300_000, 300_000]), 4_000);
    assert_eq!(command.rates, [3, 0]);
}

#[test]
fn gimbal_rate_is_limited() {
    let mut cfg = config(ControllerMode::Normal);
    cfg.gimbal.max_rate = 5;
    let mut g = GimbalController::new();
    let (command, _) = g.tick(&cfg, &region([200_000, 100_000, 300_000, 300_000]), 1_000);
    assert_eq!(command, GimbalCommand { motor_on: false, rates: [5, 0] });
    cfg.gimbal.max_rate = -5;
    let (command, _) = g.tick(&cfg, &region([-500_000, 100_000, 300_000, 300_000]), 2_000);
    assert_eq!(command.rates, [-5, 0]);
    cfg.gimbal.max_rate = i16::MIN;
    cfg.gimbal.tracking_rects[0].gain = [i64::MAX, i64::MIN];
    let (command, _) = g.tick(&cfg, &region([200_000, 100_000, 300_000, 300_000]), 3_000);
    assert_eq!(command.rates, [i16::MAX, -i16::MAX]);
}

#[test]
fn gimbal_error_lasts_while_off_centre() {
    let cfg = config(ControllerMode::Normal);
    let mut g = GimbalController::new();
    let centred = region([-150_000, -150_000, 300_000, 300_000]);
    let off = region([400_000, 0, 300_000, 300_000]);
    let edge = region([350_000, 0, 300_000, 300_000]);
    assert_eq!(g.tick(&cfg, &centred, 1_000).1.current_error_duration, 0);
    assert_eq!(g.error_since, None);
    assert_eq!(g.tick(&cfg, &edge, 1_500).1.current_error_duration, 0);
    assert_eq!(g.error_since, None);
    assert_eq!(g.tick(&cfg, &off, 2_000).1.current_error_duration, 0);
    assert_eq!(g.error_since, Some(2_000));
    assert_eq!(g.tick(&cfg, &off, 9_000).1.current_error_duration, 7_000);
    assert_eq!(g.tick(&cfg, &off, 1_000).1.current_error_duration, 0);
    assert_eq!(g.tick(&cfg, &centred, 10_000).1.current_error_duration, 0);
    assert_eq!(g.error_since, None);
    let low = region([0, -800_000, 300_000, 300_000]);
    assert_eq!(g.tick(&cfg, &low, 11_000).1.current_error_duration, 0);
    assert_eq!(g.error_since, Some(11_000));
}

#[test]
fn gimbal_takes_encoder_angles_only() {
    let mut g = GimbalController::new();
    let value = |target, index, value| GimbalValueData {
        addr: GimbalValueAddress { target, index },
        value,
    };
    g.value_received(value(0, ENCODER_ANGLE_INDEX, 11));
    g.value_received(value(1, ENCODER_ANGLE_INDEX, -22));
    g.value_received(value(2, ENCODER_ANGLE_INDEX, 33));
    assert_eq!(g.current_angles, [11, -22, 33]);
    g.value_received(value(3, ENCODER_ANGLE_INDEX, 44));
    g.value_received(value(1, ENCODER_ANGLE_INDEX + 1, 55));
    assert_eq!(g.current_angles, [11, -22, 33]);
    let cfg = config(ControllerMode::Normal);
    let (_, status) = g.tick(&cfg, &region([-150_000, -150_000, 300_000, 300_000]), 1);
    assert_eq!(status.angles, [11, -22, 33]);
}

#[test]
fn yaw_is_encoder_counts_as_radians() {
    assert_eq!(yaw_angle(0), 0);
    assert_eq!(yaw_angle(4_096), TAU);
    assert_eq!(yaw_angle(1_024), 1_570_796);
    assert_eq!(yaw_angle(-1_024), -1_570_796);
    assert_eq!(yaw_angle(1), 1_533);
    assert_eq!(yaw_angle(-1), -1_533);
}

#[test]
fn winch_lights_show_motion_command_and_status() {
    let mut w = WinchController::new(0, 0);
    w.velocity = 5;
    w.commanded_velocity = -6;
    w.mech_status = MechStatus::Stuck;
    assert_eq!(
        winch_lighting(&w),
        WinchLighting { motion: 5, command: -6, status: MechStatus::Stuck }
    );
}

#[test]
fn rect_corners_and_offset() {
    assert_eq!(rect_offset([10, 20, 30, 40], 5), [5, 15, 40, 50]);
    assert_eq!(rect_offset([10, 20, 30, 40], -5), [15, 25, 20, 30]);
    assert_eq!(rect_topleft([10, 20, 30, 40]), [10, 20]);
    assert_eq!(rect_bottomleft([10, 20, 30, 40]), [10, 60]);
}

#[test]
fn vector_length() {
    assert_eq!(v2_len([3 * ONE, 4 * ONE]), 5 * ONE);
    assert_eq!(v2_len([-3 * ONE, 4 * ONE]), 5 * ONE);
    assert_eq!(v2_len([0, 0]), 0);
    assert_eq!(v2_len([100 * ONE, 0]), 100 * ONE);
}

#[test]
fn overlay_of_an_idle_controller_is_the_debug_text_and_the_gains() {
    let cfg = config(ControllerMode::Normal);
    let s = ControllerState::new(&cfg, 0);
    let items = s.draw_camera_overlay(&cfg);
    assert_eq!(
        items,
        vec![
            OverlayItem::DebugText {
                position: [-ONE, -562_500],
                anchor: [0, 0],
                color: [ONE, ONE, ONE, ONE],
                height: 30_000,
            },
            OverlayItem::Solid { rect: [0, -562_500, ONE, 1_125_000], color: [ONE, 0, ONE, 0] },
            OverlayItem::Solid { rect: [-ONE, -562_500, ONE, 1_125_000], color: [ONE, 0, ONE, 0] },
        ]
    );
}

#[test]
fn overlay_outlines_the_border_while_halted() {
    let mut cfg = config(ControllerMode::Halted);
    cfg.overlay.gimbal_tracking_rect_color[3] = 0;
    let s = ControllerState::new(&cfg, 0);
    let items = s.draw_camera_overlay(&cfg);
    assert_eq!(items.len(), 2);
    assert_eq!(
        items[0],
        OverlayItem::Outline {
            rect: [-980_000, -542_500, 1_960_000, 1_085_000],
            color: [ONE, 0, 0, ONE],
            thickness: 20_000,
        }
    );
    assert!(matches!(items[1], OverlayItem::DebugText { .. }));
}

#[test]
fn overlay_outlines_and_labels_detections_by_probability() {
    let mut cfg = config(ControllerMode::Normal);
    cfg.overlay.gimbal_tracking_rect_color[3] = 0;
    let mut s = ControllerState::new(&cfg, 0);
    let object = |prob| CameraDetectedObject {
        rect: [100_000, 200_000, 300_000, 400_000],
        prob,
        label: "person".to_string(),
    };
    s.camera_object_detection_update(
        CameraDetectedObjects { frame: 1, objects: vec![object(99_999), object(200_000), object(800_000)] },
        0,
    );
    let items = s.draw_camera_overlay(&cfg);
    let green = [0, ONE, 0, ONE];
    assert_eq!(items.len(), 4);
    assert_eq!(
        items[1],
        OverlayItem::Outline { rect: [100_000, 200_000, 300_000, 400_000], color: green, thickness: 2_000 }
    );
    assert_eq!(
        items[2],
        OverlayItem::Outline { rect: [100_000, 200_000, 300_000, 400_000], color: green, thickness: 8_000 }
    );
    assert_eq!(
        items[3],
        OverlayItem::ObjectLabel {
            position: [92_000, 192_000],
            anchor: [0, ONE],
            object: 2,
            with_prob: true,
            color: [ONE, ONE, ONE, ONE],
            background: [0, 0, 0, 500_000],
            height: 25_000,
        }
    );
}

#[test]
fn overlay_shows_the_tracked_region() {
    let mut cfg = config(ControllerMode::Normal);
    cfg.overlay.gimbal_tracking_rect_color[3] = 0;
    let mut s = ControllerState::new(&cfg, 0);
    s.camera_region_tracking_update(region([200_000, 100_000, 300_000, 300_000]));
    let items = s.draw_camera_overlay(&cfg);
    assert_eq!(items.len(), 3);
    assert_eq!(
        items[1],
        OverlayItem::Outline {
            rect: [200_000, 100_000, 300_000, 300_000],
            color: [0, 0, ONE, ONE],
            thickness: 5_000,
        }
    );
    assert_eq!(
        items[2],
        OverlayItem::RegionLabel {
            position: [195_000, 405_000],
            anchor: [0, 0],
            psr: 9 * ONE,
            age: 3,
            area: 90_000,
            color: [ONE, ONE, ONE, ONE],
            background: [0, 0, 0, 500_000],
            height: 25_000,
        }
    );
    s.manual.control_value(ManualControlAxis::CameraYaw, ONE);
    let items = s.draw_camera_overlay(&cfg);
    assert_eq!(items.len(), 2);
    assert_eq!(
        items[1],
        OverlayItem::Outline {
            rect: [200_000, 100_000, 300_000, 300_000],
            color: [ONE, ONE, 0, ONE],
            thickness: 5_000,
        }
    );
}

#[test]
fn overlay_shades_the_gimbal_regions_by_overlap() {
    let cfg = config(ControllerMode::Normal);
    let mut s = ControllerState::new(&cfg, 0);
    s.camera_region_tracking_update(region([200_000, 100_000, 300_000, 100_000]));
    let items = s.draw_camera_overlay(&cfg);
    assert_eq!(items.len(), 5);
    assert_eq!(
        items[3],
        OverlayItem::Solid { rect: [0, -562_500, ONE, 1_125_000], color: [ONE, 0, ONE, 15 * ONE] }
    );
    assert_eq!(
        items[4],
        OverlayItem::Solid { rect: [-ONE, -562_500, ONE, 1_125_000], color: [ONE, 0, ONE, 0] }
    );
    s.camera_region_tracking_update(region([200_000, 100_000, 300_000, 300_000]));
    let items = s.draw_camera_overlay(&cfg);
    assert_eq!(
        items[3],
        OverlayItem::Solid { rect: [0, -562_500, ONE, 1_125_000], color: [ONE, 0, ONE, 45 * ONE] }
    );
}
