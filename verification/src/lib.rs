//! Motion core for a two-axis (pan/tilt) stepper gimbal.
//!
//! The crate covers the parts of the gimbal firmware that need care:
//! axis kinematics (degrees to steps through a gear reduction), the
//! step-pulse timing plan, the command queue and its dispatch rules,
//! and the driver-chip register protocol with its CRC-guarded frames.
//! Hardware access (GPIO lines, the serial link, timers) stays outside;
//! the library hands back plain values that describe what to do.

pub mod codec;
pub mod error;
pub mod gimbal;
pub mod motor;
pub mod mv;
pub mod queue;
pub mod registers;
