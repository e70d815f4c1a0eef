//! Calibrated control of radio-control actuators over PWM.
//!
//! A [`servo::PwmServo`] maps a signed stick position onto the duty cycles
//! between two calibrated bounds. A [`throttle::PwmThrottle`] maps an
//! unsigned power level onto the duty cycles between idle and full power,
//! and knows how an electronic speed controller is armed and disarmed.
//! Both use the floor-division scaling of [`scaling`].
//!
//! Each actuator can be used in two ways. Its planning methods return what
//! is to be written, as plain values, and leave the writing to the caller.
//! Its trait ([`servo::Servo`], [`throttle::Throttle`]) writes to a
//! [`channel::PwmChannel`] that the actuator owns, and says of every call
//! what the channel has seen.

pub mod channel;
pub mod scaling;
pub mod servo;
pub mod test_util;
pub mod throttle;
