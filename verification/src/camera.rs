//! The application-level camera pose.

use vstd::prelude::*;

verus! {

/// A camera pose: a 3D position and two angles.
///
/// Pitch 0 is horizontal; yaw 0 looks along the positive x axis and yaw
/// pi along the negative x axis. All five components are IEEE-754
/// single-precision bit patterns: the library never interprets them, it
/// only hands a pose through to the backend, which rebuilds the floats.
#[derive(Clone, Copy, Debug, PartialEq, Eq, Structural)]
pub struct Camera {
    /// Bit pattern of the x position coordinate.
    pub x_bits: u32,
    /// Bit pattern of the y position coordinate.
    pub y_bits: u32,
    /// Bit pattern of the z position coordinate.
    pub z_bits: u32,
    /// Bit pattern of the pitch angle in radians.
    pub pitch_bits: u32,
    /// Bit pattern of the yaw angle in radians.
    pub yaw_bits: u32,
}

} // verus!
