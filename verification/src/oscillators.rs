//! Oscillator wrappers with type-level readiness tracking.
//!
//! Each oscillator is handed through increasingly capable states by value:
//! the less-capable handle is consumed by the transition and can never be
//! used again.  Only the ready state implements the clock-source capability,
//! so a not-yet-valid frequency cannot be read at all.

use vstd::prelude::*;
use crate::frequency::Hertz;
use crate::source::{ClockSource, SourceId};

verus! {

/// Crystal oscillator state: output has settled to the rated frequency.
pub struct Stable;

/// Crystal oscillator state: started but not yet settled.
pub struct Unstable;

/// Ring oscillator state: running.
pub struct Enabled;

/// Ring oscillator state: not running.
pub struct Disabled;

/// The crystal oscillator.  Its frequency is the configured drive frequency,
/// fixed at construction — it is not measured.
pub struct CrystalOscillator<S> {
    frequency: Hertz,
    state: S,
}

impl<S> CrystalOscillator<S> {
    /// The configured drive frequency, in Hertz.
    pub closed spec fn spec_freq(self) -> u32 {
        self.frequency.spec_hz()
    }
}

impl CrystalOscillator<Unstable> {
    /// Start the oscillator at the given drive frequency.  The handle cannot
    /// report a frequency until it has settled.
    pub fn new(frequency: Hertz) -> (r: CrystalOscillator<Unstable>)
        ensures
            r.spec_freq() == frequency.spec_hz(),
    {
        CrystalOscillator { frequency, state: Unstable }
    }

    /// Consume the unstable handle once the output has settled; settling is
    /// confirmed by bring-up code outside this engine, which only then calls
    /// this transition.
    pub fn stabilize(self) -> (r: CrystalOscillator<Stable>)
        ensures
            r.spec_freq() == self.spec_freq(),
    {
        CrystalOscillator { frequency: self.frequency, state: Stable }
    }
}

impl CrystalOscillator<Stable> {
    /// The rated output frequency of the settled oscillator.
    pub fn operating_frequency(&self) -> (f: Hertz)
        ensures
            f.spec_hz() == self.spec_freq(),
    {
        self.frequency
    }
}

impl ClockSource for CrystalOscillator<Stable> {
    open spec fn ready(&self) -> bool {
        true
    }

    open spec fn freq_hz(&self) -> u32 {
        self.spec_freq()
    }

    open spec fn source_id(&self) -> SourceId {
        SourceId::Xosc
    }

    fn get_freq(&self) -> (f: Hertz) {
        self.frequency
    }

    fn id(&self) -> (s: SourceId) {
        SourceId::Xosc
    }
}

/// The ring oscillator.  Its frequency is an approximate, implementation-
/// defined operating frequency — ring oscillators are not crystal-accurate,
/// and callers must not assume tight tolerance on the reported value.
pub struct RingOscillator<S> {
    frequency: Hertz,
    state: S,
}

impl<S> RingOscillator<S> {
    /// The nominal operating frequency, in Hertz.
    pub closed spec fn spec_freq(self) -> u32 {
        self.frequency.spec_hz()
    }
}

impl RingOscillator<Disabled> {
    /// A stopped ring oscillator with the given nominal operating frequency.
    pub fn new(frequency: Hertz) -> (r: RingOscillator<Disabled>)
        ensures
            r.spec_freq() == frequency.spec_hz(),
    {
        RingOscillator { frequency, state: Disabled }
    }

    /// Consume the disabled handle and start the oscillator.
    pub fn enable(self) -> (r: RingOscillator<Enabled>)
        ensures
            r.spec_freq() == self.spec_freq(),
    {
        RingOscillator { frequency: self.frequency, state: Enabled }
    }
}

impl RingOscillator<Enabled> {
    /// The nominal operating frequency of the running oscillator.
    pub fn operating_frequency(&self) -> (f: Hertz)
        ensures
            f.spec_hz() == self.spec_freq(),
    {
        self.frequency
    }
}

impl ClockSource for RingOscillator<Enabled> {
    open spec fn ready(&self) -> bool {
        true
    }

    open spec fn freq_hz(&self) -> u32 {
        self.spec_freq()
    }

    open spec fn source_id(&self) -> SourceId {
        SourceId::Rosc
    }

    fn get_freq(&self) -> (f: Hertz) {
        self.frequency
    }

    fn id(&self) -> (s: SourceId) {
        SourceId::Rosc
    }
}

/// The fixed nominal frequency of the low-power oscillator, in Hertz.
pub const LOW_POWER_OSC_HZ: u32 = 32768;

/// The low-power oscillator: an always-available, low-accuracy source at a
/// fixed nominal frequency.  It has no failure mode worth tracking, so it
/// carries no state machine.
pub struct LowPowerOscillator;

impl LowPowerOscillator {
    pub fn new() -> (r: LowPowerOscillator) {
        LowPowerOscillator
    }
}

impl ClockSource for LowPowerOscillator {
    open spec fn ready(&self) -> bool {
        true
    }

    open spec fn freq_hz(&self) -> u32 {
        LOW_POWER_OSC_HZ
    }

    open spec fn source_id(&self) -> SourceId {
        SourceId::LpOsc
    }

    fn get_freq(&self) -> (f: Hertz) {
        Hertz::from_hz(LOW_POWER_OSC_HZ)
    }

    fn id(&self) -> (s: SourceId) {
        SourceId::LpOsc
    }
}

} // verus!
