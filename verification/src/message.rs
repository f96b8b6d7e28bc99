//! The messages that cross the controller's bus.
//!
//! Real-valued fields are fixed-point numbers in millionths; rectangles are
//! `[x, y, width, height]` in normalized camera coordinates, with the
//! horizontal extent of the image running from -1 to 1 and Y pointing down.

use crate::config::{Config, ControllerMode};
use crate::gimbal::GimbalControlStatus;
use vstd::prelude::*;

verus! {

/// How often the control loop ticks, per second.
pub const TICK_HZ: u32 = 250;

/// The period of the control loop, in microseconds.
pub const TICK_PERIOD_US: u64 = 4_000;

/// Commands can be sent unmodified by an authenticated client.
#[derive(Clone, Debug, PartialEq)]
pub enum Command {
    SetMode(ControllerMode),
    ManualControlReset,
    ManualControlValue(ManualControlAxis, i64),
    CameraObjectDetection(CameraDetectedObjects),
    CameraRegionTracking(CameraTrackedRegion),
    GimbalMotorEnable(bool),
    GimbalPacket(GimbalPacket),
    GimbalValueWrite(GimbalValueData),
    GimbalValueRequests(Vec<GimbalValueAddress>),
}

/// A message and the instant, in microseconds on the controller's monotonic
/// clock, at which it was wrapped.
#[derive(Clone, Debug, PartialEq)]
pub struct TimestampedMessage {
    pub timestamp: u64,
    pub message: Message,
}

/// Everything that crosses the bus.
#[derive(Clone, Debug, PartialEq)]
pub enum Message {
    Command(Command),
    FlyerSensors(FlyerSensors),
    WinchStatus(usize, WinchStatus),
    UpdateConfig(ConfigUpdate),
    ConfigIsCurrent(Config),
    GimbalStatus(GimbalStatus),
    GimbalValue(GimbalValueData),
    GimbalControlStatus(GimbalControlStatus),
    UnhandledGimbalPacket(GimbalPacket),
    CameraOverlayScene(Vec<OverlayRect>),
    CameraInitTrackedRegion([i64; 4]),
}

/// The outcome of merging a client's patch onto the current configuration:
/// the merged configuration, or why the merge failed.
#[derive(Clone, Debug, PartialEq)]
pub enum ConfigUpdate {
    Merged(Config),
    Rejected(String),
}

impl Message {
    /// Wraps the message with the instant `now`.
    pub fn timestamp(self, now: u64) -> (t: TimestampedMessage)
        ensures
            t.timestamp == now,
            t.message == self,
    {
        TimestampedMessage { timestamp: now, message: self }
    }
}

/// One textured rectangle of the rendered camera overlay.
#[derive(Clone, Copy, Debug, PartialEq)]
pub struct OverlayRect {
    /// Texels with [0,0] at top left
    pub src: [i64; 4],
    /// Arbitrary coordinates centered on zero with horizontal from [-1,1] and aspect correct
    pub dest: [i64; 4],
    pub rgba: [i64; 4],
}

/// The region of the camera image that the tracker follows.
#[derive(Clone, Copy, Debug, PartialEq)]
pub struct CameraTrackedRegion {
    /// Horizontal camera extents [-1,1], aspect correct, Y+ down
    pub rect: [i64; 4],
    /// Peak to side ratio (tracking quality)
    pub psr: i64,
    /// Frames for which this region has been tracked
    pub age: u32,
    /// The frame that the region was last seen in
    pub frame: u32,
}

impl CameraTrackedRegion {
    /// The region before anything is tracked: an empty rectangle of age zero.
    pub open spec fn initial() -> CameraTrackedRegion {
        CameraTrackedRegion { rect: [0i64, 0i64, 0i64, 0i64], psr: 0, age: 0, frame: 0 }
    }

    /// The region before anything is tracked.
    pub fn new() -> (r: CameraTrackedRegion)
        ensures
            r == Self::initial(),
    {
        let r = CameraTrackedRegion { rect: [0, 0, 0, 0], psr: 0, age: 0, frame: 0 };
        assert(r.rect@ =~= Self::initial().rect@);
        r
    }

    /// Whether the rectangle covers no area.
    pub fn is_empty(&self) -> (b: bool)
        ensures
            b == (self.rect[2] <= 0 || self.rect[3] <= 0),
    {
        self.rect[2] <= 0 || self.rect[3] <= 0
    }
}

/// One object that the detector found.
#[derive(Clone, Debug, PartialEq)]
pub struct CameraDetectedObject {
    pub rect: [i64; 4],
    pub prob: i64,
    pub label: String,
}

/// What the detector found in one frame.
#[derive(Clone, Debug, PartialEq)]
pub struct CameraDetectedObjects {
    pub frame: u32,
    pub objects: Vec<CameraDetectedObject>,
}

impl CameraDetectedObjects {
    /// No detections, for frame zero.
    pub fn new() -> (d: CameraDetectedObjects)
        ensures
            d.frame == 0,
            d.objects@.len() == 0,
    {
        CameraDetectedObjects { frame: 0, objects: Vec::new() }
    }
}

/// One framed packet of the gimbal's serial protocol.
#[derive(Clone, Debug, PartialEq)]
pub struct GimbalPacket {
    pub command: u8,
    pub data: Vec<u8>,
}

/// Which value of which gimbal motor controller.
#[derive(Clone, Copy, Debug, PartialEq, Eq, Structural)]
pub struct GimbalValueAddress {
    pub target: u8,
    pub index: u8,
}

/// A value of a gimbal motor controller, read or to be written.
#[derive(Clone, Copy, Debug, PartialEq, Eq, Structural)]
pub struct GimbalValueData {
    pub addr: GimbalValueAddress,
    pub value: i16,
}

/// The rate command of one tick for the gimbal: yaw, then pitch.
#[derive(Clone, Copy, Debug, PartialEq)]
pub struct GimbalCommand {
    pub motor_on: bool,
    pub rates: [i16; 2],
}

/// What the gimbal firmware reports of itself.
#[derive(Clone, Copy, Debug, PartialEq)]
pub struct GimbalStatus {
    pub command: GimbalCommand,
    pub counter: u32,
    pub encoder_angles: [u16; 3],
    pub center_calibration: [u16; 3],
}

/// The axes of the manual controls.
#[derive(Clone, Copy, Debug, PartialEq, Eq, Hash, Structural)]
pub enum ManualControlAxis {
    CameraYaw,
    CameraPitch,
    RelativeX,
    RelativeY,
    RelativeZ,
}

/// Readings of the flyer's X-band motion sensor.
#[derive(Clone, Copy, Debug, PartialEq, Eq, Structural)]
pub struct XBandTelemetry {
    pub edge_count: u32,
    pub speed_measure: u32,
    pub measure_count: u32,
}

pub const NUM_LIDAR_SENSORS: usize = 4;

/// Readings of the flyer's four range finders.
#[derive(Clone, Copy, Debug, PartialEq, Eq)]
pub struct LIDARTelemetry {
    pub ranges: [u32; 4],
    pub counters: [u32; 4],
}

pub const NUM_ANALOG_SENSORS: usize = 8;

/// Readings of the flyer's eight analog inputs.
#[derive(Clone, Copy, Debug, PartialEq, Eq)]
pub struct AnalogTelemetry {
    pub values: [u32; 8],
    pub counter: u32,
}

/// A vector of three 16-bit readings.
#[derive(Clone, Copy, Debug, PartialEq, Eq, Structural)]
pub struct Vec16 {
    pub x: i16,
    pub y: i16,
    pub z: i16,
}

/// A quaternion of four 16-bit readings.
#[derive(Clone, Copy, Debug, PartialEq, Eq, Structural)]
pub struct Quat16 {
    pub w: i16,
    pub x: i16,
    pub y: i16,
    pub z: i16,
}

/// Readings of the flyer's inertial measurement unit.
#[derive(Clone, Copy, Debug, PartialEq, Eq, Structural)]
pub struct IMUTelemetry {
    pub accelerometer: Vec16,
    pub magnetometer: Vec16,
    pub gyroscope: Vec16,
    pub euler_angles: Vec16,
    pub quaternion: Quat16,
    pub linear_accel: Vec16,
    pub gravity: Vec16,
    pub temperature: i8,
    pub calib_stat: i8,
    pub counter: u32,
}

/// Everything that the flyer's sensor pack reports.
#[derive(Clone, Copy, Debug, PartialEq, Eq)]
pub struct FlyerSensors {
    pub xband: XBandTelemetry,
    pub lidar: LIDARTelemetry,
    pub analog: AnalogTelemetry,
    pub imu: IMUTelemetry,
}

/// The cable force that a winch measures.
#[derive(Clone, Copy, Debug, PartialEq, Eq, Structural)]
pub struct ForceTelemetry {
    /// Uncalibrated, (+) = increasing tension
    pub measure: i32,
    /// Same units, just low-pass filtered prior to limit testing
    pub filtered: i64,
    pub counter: u32,
}

/// The force filter and limits that a winch is to apply.
#[derive(Clone, Copy, Debug, PartialEq, Eq, Structural)]
pub struct ForceCommand {
    /// IIR filter parameter in range [0,1] for force sensor, 0=slow 1=fast
    pub filter_param: i64,
    /// Uncalibrated load cell units, no negative motion below
    pub neg_motion_min: i64,
    /// Uncalibrated load cell units, no positive motion above this filtered force value
    pub pos_motion_max: i64,
    /// Uncalibrated load cell units, no motion at all below
    pub lockout_below: i64,
    /// Uncalibrated load cell units, no motion at all above
    pub lockout_above: i64,
}

/// The gains and filters of a winch's PID loop.
#[derive(Clone, Copy, Debug, PartialEq, Eq, Structural)]
pub struct PIDGains {
    /// PWM strength proportional to position error
    pub gain_p: i64,
    /// PWM strength proportional to integral of position error
    pub gain_i: i64,
    /// PWM gain proportional to velocity error
    pub gain_d: i64,
    /// IIR filter parameter in range [0,1] for position error, 0=slow 1=fast
    pub p_filter_param: i64,
    /// Exponential decay for the integral parameter, 0=slow 1=fast
    pub i_decay_param: i64,
    /// IIR filter parameter in range [0,1] for velocity error, 0=slow 1=fast
    pub d_filter_param: i64,
}

/// When a winch counts as stopped at its target.
#[derive(Clone, Copy, Debug, PartialEq, Eq, Structural)]
pub struct WinchDeadband {
    /// How close is close enough when stopped?
    pub position: i32,
    /// By "stopped", we mean under this instantaneous velocity
    pub velocity: i64,
}

/// The output of the PID loop.
#[derive(Clone, Copy, Debug, PartialEq, Eq, Structural)]
pub struct WinchPWM {
    /// PWM calculated by the PID loop, clamped to [-1, 1]
    pub total: i64,
    /// Just the contribution from proportional gain
    pub p: i64,
    /// Just the contribution from integral gain
    pub i: i64,
    /// Just the contribution from derivative gain
    pub d: i64,
    /// PWM state after quantizing into clock ticks
    pub quant: i16,
    /// Is the H-bridge enabled? Can be turned off by halt conditions.
    pub enabled: bool,
}

/// What a winch is told in answer to its status.
#[derive(Clone, Copy, Debug, PartialEq, Eq, Structural)]
pub struct WinchCommand {
    pub position: i32,
    pub force: ForceCommand,
    pub pid: PIDGains,
    pub deadband: WinchDeadband,
    pub pwm: WinchPWM,
}

/// What a winch measures.
#[derive(Clone, Copy, Debug, PartialEq, Eq, Structural)]
pub struct WinchSensors {
    pub force: ForceTelemetry,
    /// Integrated position in encoder units, from hardware
    pub position: i32,
    /// Calculated instantaneous velocity at each tick
    pub velocity: i64,
}

/// The state of a winch's motor control loop.
#[derive(Clone, Copy, Debug, PartialEq, Eq, Structural)]
pub struct WinchMotorControl {
    pub pwm: WinchPWM,
    /// Instantaneous position error
    pub position_err: i32,
    /// Low-pass-filtered position error
    pub pos_err_filtered: i64,
    /// Accumulated integral of the position error, reset by halt watchdog
    pub pos_err_integral: i64,
    /// Instantaneous velocity error
    pub vel_err_inst: i64,
    /// Low-pass-filtered velocity error
    pub vel_err_filtered: i64,
}

/// What a winch reports, once per tick.
#[derive(Clone, Copy, Debug, PartialEq, Eq, Structural)]
pub struct WinchStatus {
    pub command_counter: u32,
    pub tick_counter: u32,
    pub command: WinchCommand,
    pub sensors: WinchSensors,
    pub motor: WinchMotorControl,
}

} // verus!
