use vstd::prelude::*;

verus! {

/// The successor of an 8-bit sequence number, wrapping past 255 to 0.
pub open spec fn wrapping_next(v: u8) -> u8 {
    if v == 255 {
        0
    } else {
        (v + 1) as u8
    }
}

/// The rolling 8-bit sequence number embedded in every outgoing frame
/// header. It starts at zero when communication starts and is advanced by
/// an independent timer for the lifetime of the session.
pub struct FrameCounter {
    pub value: u8,
}

impl FrameCounter {
    /// A fresh counter starts at zero.
    pub fn new() -> (r: Self)
        ensures
            r.value == 0,
    {
        FrameCounter { value: 0 }
    }

    /// The current sequence number.
    pub fn get(&self) -> (r: u8)
        ensures
            r == self.value,
    {
        self.value
    }

    /// One timer tick: advance the counter, wrapping from 255 back to 0
    /// without fault.
    pub fn tick(&mut self)
        ensures
            final (self).value == wrapping_next(old(self).value),
    {
        self.value = if self.value == 255 {
            0
        } else {
            self.value + 1
        };
    }
}

} // verus!
