//! The run epoch: a counter that tags every request, so that an event of a
//! run that has been superseded can be told apart and discarded.

use vstd::prelude::*;

verus! {

/// The epoch of the current run. It only ever grows.
#[derive(Debug)]
pub struct RunEpoch {
    value: usize,
}

impl View for RunEpoch {
    type V = usize;

    closed spec fn view(&self) -> usize {
        self.value
    }
}

impl RunEpoch {
    /// The epoch before the first run.
    pub fn new() -> (epoch: RunEpoch)
        ensures
            epoch@ == 0,
    {
        RunEpoch { value: 0 }
    }

    /// The current epoch.
    pub fn current(&self) -> (value: usize)
        ensures
            value == self@,
    {
        self.value
    }

    /// Whether the counter has room for one more run.
    pub fn can_advance(&self) -> (room: bool)
        ensures
            room == (self@ < usize::MAX),
    {
        self.value < usize::MAX
    }

    /// Starts the next epoch and returns it.
    pub fn advance(&mut self) -> (value: usize)
        requires
            old(self)@ < usize::MAX,
        ensures
            final(self)@ == old(self)@ + 1,
            value == final(self)@,
    {
        self.value = self.value + 1;
        self.value
    }

    /// Whether an event that bears `epoch` belongs to the current run.
    pub fn is_current(&self, epoch: usize) -> (current: bool)
        ensures
            current == (epoch == self@),
    {
        epoch == self.value
    }
}

} // verus!
