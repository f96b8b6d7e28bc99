//! The controller of a cable-suspended camera robot.
//!
//! Several winches hold a flyer on cables; the flyer carries a camera on a
//! gimbal. The controller takes in what the winches, the flyer's sensors,
//! the vision pipeline and the operators send, runs one control loop per
//! winch, keeps a tracked region of the camera image, steers the gimbal after
//! it, and enforces the safety rules: nothing moves while halted, a manual
//! command moves only the winch it names, and no winch is driven further
//! against a cable force that is beyond its limits.
//!
//! The library decides and leaves the doing to its host: [`controller`] maps
//! each input and the time to the effects that the host carries out. All
//! quantities are fixed-point numbers, in millionths, see [`fixed`]; all
//! times are microseconds on a monotonic clock.

pub mod bus;
pub mod config;
pub mod controller;
pub mod fixed;
pub mod gimbal;
pub mod lights;
pub mod manual;
pub mod message;
pub mod overlay;
pub mod patch;
pub mod port;
pub mod snap;
pub mod state;
pub mod timer;
pub mod vector;
pub mod winch;
