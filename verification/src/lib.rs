//! Control logic for a camera-guided wheeled vehicle.
//!
//! The library holds the verifiable core of a visual-servoing controller:
//! the plane geometry that turns marker positions into signed angles, the
//! perception step that extracts the vehicle and target markers from one
//! camera frame (and its retry policy over a run of frames), and the pure
//! transition logic of the Turning / Approaching / Idle control cycle.
//! Device handles, camera transport and the actual maneuvers stay outside;
//! they hand this library plain values and act on the decisions it returns.

pub mod control;
pub mod geometry;
pub mod perception;
