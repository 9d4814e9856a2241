//! Frequencies.

use vstd::prelude::*;

verus! {

/// A frequency in hertz.
#[derive(Clone, Copy, Debug)]
pub struct Hertz {
    raw: u32,
}

impl Hertz {
    /// The frequency as a number of hertz.
    pub closed spec fn hz(self) -> u32 {
        self.raw
    }

    /// A frequency of `raw` hertz.
    pub fn from_raw(raw: u32) -> (f: Self)
        ensures
            f.hz() == raw,
    {
        Hertz { raw }
    }

    /// The number of hertz.
    pub fn raw(self) -> (raw: u32)
        ensures
            raw == self.hz(),
    {
        self.raw
    }
}

} // verus!
