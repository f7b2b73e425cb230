//! The radio control handle, as the logic sees it: the one piece of radio
//! state the control surface reads or drives is the indicator line (the
//! radio chip's GPIO 0).  Joining a network is an outside action; its retry
//! policy lives in `join`.

use vstd::prelude::*;

verus! {

/// Model of the radio command handle.  Singleton, created once at startup,
/// held in its own exclusive-access cell thereafter.
#[derive(Clone, Copy, PartialEq, Eq, Debug)]
pub struct RadioControl {
    /// Logical level of the indicator line.
    pub indicator: bool,
}

impl RadioControl {
    /// The indicator line starts low.
    pub fn new() -> (r: RadioControl)
        ensures
            r.indicator == false,
    {
        RadioControl { indicator: false }
    }

    /// Drives the indicator line to `v`.
    pub fn set_indicator(&mut self, v: bool)
        ensures
            final(self).indicator == v,
    {
        self.indicator = v;
    }
}

} // verus!
