//! The frequency quantity that every clock source reports.

use vstd::prelude::*;

verus! {

/// A frequency in integer Hertz.
///
/// This is the common currency of the clock tree: oscillators report it,
/// dividers scale it, and derived clocks cache it.  Arithmetic on it never
/// overflows silently — scaling is either guarded by a precondition or
/// returns `None` on overflow.
#[derive(Clone, Copy, PartialEq, Eq, Structural, Debug)]
pub struct Hertz {
    hz: u32,
}

impl Hertz {
    /// The raw Hertz count, for use in specifications.
    pub closed spec fn spec_hz(self) -> u32 {
        self.hz
    }

    pub fn from_hz(hz: u32) -> (r: Hertz)
        ensures
            r.spec_hz() == hz,
    {
        Hertz { hz }
    }

    pub fn hz(self) -> (r: u32)
        ensures
            r == self.spec_hz(),
    {
        self.hz
    }

    /// Scale down by an integer divider (rounding toward zero).
    pub fn div(self, divider: u32) -> (r: Hertz)
        requires
            divider >= 1,
        ensures
            r.spec_hz() == self.spec_hz() / divider,
    {
        Hertz { hz: self.hz / divider }
    }

    /// Scale up by an integer factor; `None` exactly when the product does
    /// not fit in the Hertz range.
    pub fn checked_mul(self, factor: u32) -> (r: Option<Hertz>)
        ensures
            self.spec_hz() * factor <= u32::MAX ==> (r matches Some(f) && f.spec_hz() == self.spec_hz() * factor),
            self.spec_hz() * factor > u32::MAX ==> r is None,
    {
        match self.hz.checked_mul(factor) {
            Some(hz) => Some(Hertz { hz }),
            None => None,
        }
    }

    /// Whether this frequency is at most `other`.
    pub fn le(self, other: Hertz) -> (r: bool)
        ensures
            r == (self.spec_hz() <= other.spec_hz()),
    {
        self.hz <= other.hz
    }
}

} // verus!
