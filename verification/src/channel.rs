//! What an actuator asks of its platform: duty cycle writes on a PWM output
//! channel, and pauses.
//!
//! An [`Action`] is one such request as a plain value, for a platform that
//! carries it out itself. [`PwmChannel`] and [`Delay`] are the same two
//! capabilities as objects that an actuator can be handed, each with a model
//! of what it has been asked so far.

use vstd::prelude::*;

verus! {

/// One thing for the platform to do.
#[derive(Clone, Copy, Debug, PartialEq, Eq)]
pub enum Action {
    /// Write this duty cycle to the channel.
    Write(u16),
    /// Pause the caller for this many milliseconds.
    Suspend(u16),
}

/// What is known of a PWM channel: the duty cycle it outputs now, and every
/// duty cycle written to it so far, oldest first.
pub struct ChannelView {
    pub duty: u16,
    pub writes: Seq<u16>,
}

impl ChannelView {
    /// The channel after `value` has been written to it.
    pub open spec fn write(self, value: u16) -> ChannelView {
        ChannelView { duty: value, writes: self.writes.push(value) }
    }
}

/// After a write the channel outputs what was written last, and only its
/// last entry in the list of writes is new.
pub proof fn write_is_last(channel: ChannelView, value: u16)
    ensures
        channel.write(value).duty == value,
        channel.write(value).writes.len() == channel.writes.len() + 1,
        channel.write(value).writes.last() == value,
        channel.write(value).writes.drop_last() == channel.writes,
{
}

impl Action {
    /// The channel after this action: a write changes it, a pause does not.
    pub open spec fn on_channel(self, channel: ChannelView) -> ChannelView {
        match self {
            Action::Write(duty) => channel.write(duty),
            Action::Suspend(_) => channel,
        }
    }

    /// The list of pauses taken after this action: a pause is added at its
    /// end, a write leaves it as it is.
    pub open spec fn on_pauses(self, pauses: Seq<u16>) -> Seq<u16> {
        match self {
            Action::Write(_) => pauses,
            Action::Suspend(ms) => pauses.push(ms),
        }
    }
}

/// One PWM output. A write takes effect before the next call, and nothing
/// but a write changes the output.
pub trait PwmChannel {
    spec fn view(&self) -> ChannelView;

    /// Sets the duty cycle of the output.
    fn set_duty_cycle(&mut self, value: u16)
        ensures
            final(self)@ == old(self)@.write(value),
    ;

    /// Reads back the duty cycle of the output.
    fn read_duty_cycle(&self) -> (value: u16)
        ensures
            value == self@.duty,
    ;
}

/// A blocking pause. The view is the list of pauses taken so far, in
/// milliseconds, oldest first.
pub trait Delay {
    spec fn view(&self) -> Seq<u16>;

    /// Returns after `ms` milliseconds.
    fn suspend(&mut self, ms: u16)
        ensures
            final(self)@ == old(self)@.push(ms),
    ;
}

/// Carries out one action: a write goes to `pin`, a pause to `delay`.
pub fn perform<P: PwmChannel, D: Delay>(action: Action, pin: &mut P, delay: &mut D)
    ensures
        final(pin)@ == action.on_channel(old(pin)@),
        final(delay)@ == action.on_pauses(old(delay)@),
{
    match action {
        Action::Write(duty) => pin.set_duty_cycle(duty),
        Action::Suspend(ms) => delay.suspend(ms),
    }
}

} // verus!
