//! The audio driver.  The console has no sound core: the driver takes what
//! the sound registers would produce and never has a sample to give.

use vstd::prelude::*;

verus! {

/// An audio output that stays silent.
pub struct Driver {}

impl Driver {
    pub fn new(sample_rate: u32) -> (d: Driver) {
        Driver {  }
    }

    /// Drops what is buffered; nothing ever is.
    pub fn clear(&self) {
    }

    /// Copies buffered samples into `buf` and returns how many were
    /// copied: none, and `buf` is left as it is.
    pub fn read_samples(&mut self, buf: &mut [i16], stereo: bool) -> (n: usize)
        ensures
            n == 0,
            final(buf)@ == old(buf)@,
    {
        0
    }

    /// The number of samples that can be read: none.
    pub fn samples_avail(&self) -> (n: u32)
        ensures
            n == 0,
    {
        0
    }

    /// Ends the frame at the given clock time.
    pub fn end_frame(&self, time: u32) {
    }

    /// Takes a change of amplitude at the given clock time.
    pub fn add_delta(&self, clock_time: u32, delta: i32) {
    }
}

} // verus!
