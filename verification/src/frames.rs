//! Frame counting for the frame-rate read-out and the frame timing report.

use vstd::prelude::*;

verus! {

/// Timing of the last frame that the render thread finished.
#[derive(Default, Clone, Copy, Debug)]
pub struct FramePack {
    pub frametime: std::time::Duration,
}

/// Counts frames between two frame-rate readings.
#[derive(Clone, Copy, Debug)]
pub struct FrameTally {
    frame_count: u32,
}

impl View for FrameTally {
    type V = nat;

    /// Frames counted since the last reading.
    closed spec fn view(&self) -> nat {
        self.frame_count as nat
    }
}

impl FrameTally {
    /// No frame counted yet.
    pub fn new() -> (t: FrameTally)
        ensures
            t@ == 0,
    {
        FrameTally { frame_count: 0 }
    }

    /// Frames counted since the last reading.
    pub fn frames(&self) -> (n: u32)
        ensures
            n == self@,
    {
        self.frame_count
    }

    /// Counts one more frame. When the reading interval has elapsed, returns
    /// the number of frames since the last reading, this one included, and
    /// starts counting afresh; otherwise returns `None`.
    pub fn tick(&mut self, interval_elapsed: bool) -> (reading: Option<u32>)
        requires
            old(self)@ < u32::MAX,
        ensures
            interval_elapsed ==> reading == Some((old(self)@ + 1) as u32) && final(self)@ == 0,
            !interval_elapsed ==> reading is None && final(self)@ == old(self)@ + 1,
    {
        self.frame_count = self.frame_count + 1;
        if interval_elapsed {
            let n = self.frame_count;
            self.frame_count = 0;
            Some(n)
        } else {
            None
        }
    }
}

} // verus!
