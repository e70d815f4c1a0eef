//! Position control: a signed stick position becomes a duty cycle between
//! two calibrated bounds.
//!
//! [`PwmServo::position_duty`] and [`PwmServo::center_duty`] say what to
//! write and write nothing. [`Servo::set_pos`] and [`Servo::center`] also
//! write it, on a servo whose pin is a [`PwmChannel`].

use crate::channel::{ChannelView, PwmChannel};
use crate::scaling::{
    mid, mid_within_range, midpoint, scale, scaled, scaled_at_last_step, scaled_at_zero,
    scaled_is_monotonic, scaled_within_range,
};
use vstd::prelude::*;

verus! {

/// The step count of a stick position: full deflection one way is step 0,
/// full deflection the other way is step 255.
pub open spec fn step_of(pos: i8) -> int {
    pos + 128
}

/// The duty cycle that stands for stick position `pos` between the bounds
/// `min` and `max`.
pub open spec fn position_duty(min: u16, max: u16, pos: i8) -> int {
    scaled(step_of(pos), min as int, max as int)
}

/// The duty cycle halfway between the bounds `min` and `max`, rounded down.
pub open spec fn center_duty(min: u16, max: u16) -> int {
    mid(min as int, max as int)
}

/// A servo as its callers know it: the calibrated bounds and the channel it
/// drives.
pub struct ServoView {
    pub min: u16,
    pub max: u16,
    pub channel: ChannelView,
}

impl ServoView {
    /// The bounds span a range.
    pub open spec fn calibrated(self) -> bool {
        self.min < self.max
    }

    /// The servo after one write of `duty` to its channel.
    pub open spec fn drive(self, duty: int) -> ServoView {
        ServoView { min: self.min, max: self.max, channel: self.channel.write(duty as u16) }
    }

    /// The servo after it was sent to stick position `pos`.
    pub open spec fn set_pos(self, pos: i8) -> ServoView {
        self.drive(position_duty(self.min, self.max, pos))
    }

    /// The servo after it was sent to the middle of its range.
    pub open spec fn center(self) -> ServoView {
        self.drive(center_duty(self.min, self.max))
    }

    /// Every duty cycle written so far lies between the bounds.
    pub open spec fn writes_within_bounds(self) -> bool {
        forall|i: int|
            0 <= i < self.channel.writes.len() ==> self.min <= #[trigger] self.channel.writes[i]
                <= self.max
    }
}

/// Centering yields the midpoint of the bounds, rounded down, whatever the
/// servo did before.
pub proof fn center_yields_midpoint(servo: ServoView)
    ensures
        servo.center().channel.duty == (servo.max + servo.min) / 2,
        servo.calibrated() ==> servo.min <= servo.center().channel.duty < servo.max,
{
    if servo.calibrated() {
        mid_within_range(servo.min as int, servo.max as int);
    }
}

/// Centering again changes neither the duty cycle nor the calibration.
pub proof fn center_is_idempotent(servo: ServoView)
    ensures
        servo.center().center().channel.duty == servo.center().channel.duty,
        servo.center().center().min == servo.center().min == servo.min,
        servo.center().center().max == servo.center().max == servo.max,
{
}

/// A stick position further along never gives a smaller duty cycle.
pub proof fn set_pos_is_monotonic(servo: ServoView, a: i8, b: i8)
    requires
        servo.calibrated(),
        a <= b,
    ensures
        servo.set_pos(a).channel.duty <= servo.set_pos(b).channel.duty,
{
    set_pos_within_bounds(servo, a);
    set_pos_within_bounds(servo, b);
    scaled_is_monotonic(step_of(a), step_of(b), servo.min as int, servo.max as int);
}

/// Every stick position gives a duty cycle between the bounds. The upper
/// bound itself is never reached.
pub proof fn set_pos_within_bounds(servo: ServoView, pos: i8)
    requires
        servo.calibrated(),
    ensures
        servo.set_pos(pos).channel.duty == position_duty(servo.min, servo.max, pos),
        servo.min <= servo.set_pos(pos).channel.duty < servo.max,
{
    scaled_within_range(step_of(pos), servo.min as int, servo.max as int);
}

/// Full deflection towards the low end gives the lower bound exactly.
pub proof fn set_pos_lowest_yields_min(servo: ServoView)
    ensures
        servo.set_pos(i8::MIN).channel.duty == servo.min,
{
    scaled_at_zero(servo.min as int, servo.max as int);
}

/// Full deflection towards the high end stops short of the upper bound by
/// the 256th part of the range, rounded up.
pub proof fn set_pos_highest_stops_short(servo: ServoView)
    requires
        servo.calibrated(),
    ensures
        servo.max - servo.set_pos(i8::MAX).channel.duty == (servo.max - servo.min + 255) / 256,
{
    scaled_at_last_step(servo.min as int, servo.max as int);
}

/// A servo on a channel that nothing was written to has written nothing
/// outside its bounds.
pub proof fn servo_starts_within_bounds(servo: ServoView)
    requires
        servo.channel.writes.len() == 0,
    ensures
        servo.writes_within_bounds(),
{
}

/// A calibrated servo that has only written within its bounds keeps doing
/// so, whatever it is asked.
pub proof fn servo_keeps_writes_within_bounds(servo: ServoView, pos: i8)
    requires
        servo.calibrated(),
        servo.writes_within_bounds(),
    ensures
        servo.set_pos(pos).writes_within_bounds(),
        servo.center().writes_within_bounds(),
{
    set_pos_within_bounds(servo, pos);
    center_yields_midpoint(servo);
}

/// A position-controlled actuator.
pub trait Servo {
    spec fn view(&self) -> ServoView;

    /// Moves to stick position `pos` with one write to the channel.
    fn set_pos(&mut self, pos: i8)
        requires
            old(self)@.calibrated(),
        ensures
            final(self)@ == old(self)@.set_pos(pos),
    ;

    /// Moves to the exact middle of the range with one write to the channel.
    fn center(&mut self)
        ensures
            final(self)@ == old(self)@.center(),
    ;
}

/// A servo on a PWM pin that it owns, calibrated to the duty cycles `min`
/// and `max` of its two end positions.
pub struct PwmServo<P> {
    pub pin: P,
    pub min: u16,
    pub max: u16,
}

/// Shifts a stick position into the step domain.
pub fn step(pos: i8) -> (step: u8)
    ensures
        step == step_of(pos),
{
    (pos as i16 + 128) as u8
}

impl<P> PwmServo<P> {
    /// The bounds span a range.
    pub open spec fn calibrated(&self) -> bool {
        self.min < self.max
    }

    /// Whether the bounds span a range, as [`PwmServo::position_duty`] and
    /// [`Servo::set_pos`] need them to.
    pub fn is_calibrated(&self) -> (ok: bool)
        ensures
            ok == self.calibrated(),
    {
        self.min < self.max
    }

    /// The duty cycle that stands for stick position `pos`. Nothing is
    /// written.
    pub fn position_duty(&self, pos: i8) -> (duty: u16)
        requires
            self.calibrated(),
        ensures
            duty == position_duty(self.min, self.max, pos),
            self.min <= duty < self.max,
    {
        proof {
            scaled_within_range(step_of(pos), self.min as int, self.max as int);
        }
        scale(step(pos), self.min, self.max)
    }

    /// The duty cycle in the middle of the range. Nothing is written.
    pub fn center_duty(&self) -> (duty: u16)
        ensures
            duty == center_duty(self.min, self.max),
    {
        midpoint(self.min, self.max)
    }
}

impl<P: PwmChannel> PwmServo<P> {
    /// Reads the duty cycle back from the channel.
    pub fn get_duty(&self) -> (duty: u16)
        ensures
            duty == self@.channel.duty,
    {
        self.pin.read_duty_cycle()
    }
}

impl<P: PwmChannel> Servo for PwmServo<P> {
    open spec fn view(&self) -> ServoView {
        ServoView { min: self.min, max: self.max, channel: self.pin@ }
    }

    fn set_pos(&mut self, pos: i8) {
        let duty: u16 = self.position_duty(pos);
        self.pin.set_duty_cycle(duty);
    }

    fn center(&mut self) {
        let duty: u16 = self.center_duty();
        self.pin.set_duty_cycle(duty);
    }
}

} // verus!
