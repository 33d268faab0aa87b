//! A rigid-body pose library for 3D kinematics: a uniform interface over
//! concrete SE(3) representations, together with closed-form Lie-algebra
//! logarithm and exponential maps used for displacement, distance and
//! interpolation between poses.
//!
//! Every pose type is generic over an abstract numeric scalar (the
//! [`scalar::Scalar`] capability), so the same formulas serve plain
//! floating-point numbers and forward-mode automatic-differentiation numbers
//! supplied by the caller.

pub mod scalar;
pub mod vec3;
pub mod rotation;
pub mod lie;
pub mod pose;
pub mod isometry;
pub mod codec;
pub mod laws;
