//! External pin clock inputs.
//!
//! An externally supplied clock edge cannot be measured in software, so the
//! caller asserts its nominal frequency at construction and the wrapper
//! reports that value verbatim.  This is a trust boundary: a wrong
//! caller-supplied value silently propagates as a wrong frequency to every
//! dependent clock.

use vstd::prelude::*;
use crate::frequency::Hertz;
use crate::source::{ClockSource, SourceId};

verus! {

/// The first external pin clock input.
pub struct GpIn0 {
    frequency: Hertz,
}

impl GpIn0 {
    /// The caller-asserted nominal frequency, in Hertz.
    pub closed spec fn spec_freq(self) -> u32 {
        self.frequency.spec_hz()
    }

    /// Wrap the external signal on the first input pin, asserting that it
    /// runs at the given nominal frequency.
    pub fn new(frequency: Hertz) -> (r: GpIn0)
        ensures
            r.spec_freq() == frequency.spec_hz(),
    {
        GpIn0 { frequency }
    }

    /// The caller-asserted nominal frequency.
    pub fn frequency(&self) -> (f: Hertz)
        ensures
            f.spec_hz() == self.spec_freq(),
    {
        self.frequency
    }
}

impl ClockSource for GpIn0 {
    open spec fn ready(&self) -> bool {
        true
    }

    open spec fn freq_hz(&self) -> u32 {
        self.spec_freq()
    }

    open spec fn source_id(&self) -> SourceId {
        SourceId::GpIn0
    }

    fn get_freq(&self) -> (f: Hertz) {
        self.frequency
    }

    fn id(&self) -> (s: SourceId) {
        SourceId::GpIn0
    }
}

/// The second external pin clock input.
pub struct GpIn1 {
    frequency: Hertz,
}

impl GpIn1 {
    /// The caller-asserted nominal frequency, in Hertz.
    pub closed spec fn spec_freq(self) -> u32 {
        self.frequency.spec_hz()
    }

    /// Wrap the external signal on the second input pin, asserting that it
    /// runs at the given nominal frequency.
    pub fn new(frequency: Hertz) -> (r: GpIn1)
        ensures
            r.spec_freq() == frequency.spec_hz(),
    {
        GpIn1 { frequency }
    }

    /// The caller-asserted nominal frequency.
    pub fn frequency(&self) -> (f: Hertz)
        ensures
            f.spec_hz() == self.spec_freq(),
    {
        self.frequency
    }
}

impl ClockSource for GpIn1 {
    open spec fn ready(&self) -> bool {
        true
    }

    open spec fn freq_hz(&self) -> u32 {
        self.spec_freq()
    }

    open spec fn source_id(&self) -> SourceId {
        SourceId::GpIn1
    }

    fn get_freq(&self) -> (f: Hertz) {
        self.frequency
    }

    fn id(&self) -> (s: SourceId) {
        SourceId::GpIn1
    }
}

} // verus!
