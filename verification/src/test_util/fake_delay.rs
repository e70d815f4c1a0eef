//! A delay that returns at once and keeps a list of what it was asked for.

use crate::channel::Delay;
use vstd::prelude::*;

verus! {

/// A delay that records each requested pause instead of waiting.
pub struct FakeDelay {
    requested: Vec<u16>,
}

impl FakeDelay {
    /// A delay that has not been asked for anything.
    pub fn new() -> (delay: FakeDelay)
        ensures
            delay@ == Seq::<u16>::empty(),
    {
        FakeDelay { requested: Vec::new() }
    }

    /// The pauses requested so far, in milliseconds, oldest first.
    pub fn requested(&self) -> (list: &Vec<u16>)
        ensures
            list@ == self@,
    {
        &self.requested
    }
}

impl Delay for FakeDelay {
    closed spec fn view(&self) -> Seq<u16> {
        self.requested@
    }

    fn suspend(&mut self, ms: u16) {
        self.requested.push(ms);
    }
}

} // verus!
