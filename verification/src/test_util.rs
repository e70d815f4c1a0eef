//! Stand-ins for hardware, for use in tests.

pub mod fake_delay;
pub mod fake_pwm_pin;
