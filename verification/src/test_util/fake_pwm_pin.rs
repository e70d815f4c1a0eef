//! A PWM channel that lives in memory.

use crate::channel::{ChannelView, PwmChannel};
use vstd::prelude::*;

verus! {

/// A channel that remembers the last duty cycle written to it.
pub struct FakePwmPin {
    current_duty: u16,
    writes: Ghost<Seq<u16>>,
}

impl Default for FakePwmPin {
    /// A channel at duty cycle zero that nothing was written to.
    fn default() -> (pin: FakePwmPin)
        ensures
            pin@ == (ChannelView { duty: 0, writes: Seq::empty() }),
    {
        FakePwmPin { current_duty: 0, writes: Ghost(Seq::empty()) }
    }
}

impl PwmChannel for FakePwmPin {
    closed spec fn view(&self) -> ChannelView {
        ChannelView { duty: self.current_duty, writes: self.writes@ }
    }

    fn set_duty_cycle(&mut self, value: u16) {
        self.current_duty = value;
        self.writes = Ghost(self.writes@.push(value));
    }

    fn read_duty_cycle(&self) -> (value: u16) {
        self.current_duty
    }
}

} // verus!
