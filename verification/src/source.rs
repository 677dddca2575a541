//! The clock-source capability: anything that can report an output frequency.

use vstd::prelude::*;
use crate::frequency::Hertz;

verus! {

/// Identity of every frequency-producing source in the clock tree.
///
/// Candidate-source validation goes by identity, not by type: both
/// synthesizers share one wrapper type, and only the specific instance
/// decides whether a selection is legal.
#[derive(Clone, Copy, PartialEq, Eq, Structural, Debug)]
pub enum SourceId {
    /// The system frequency synthesizer.
    PllSys,
    /// The USB frequency synthesizer.
    PllUsb,
    /// The crystal oscillator.
    Xosc,
    /// The ring oscillator.
    Rosc,
    /// The low-power oscillator.
    LpOsc,
    /// The first external pin input.
    GpIn0,
    /// The second external pin input.
    GpIn1,
    /// The system clock generator (derived clocks can feed other clocks).
    SystemClock,
    /// The reference clock generator.
    ReferenceClock,
    /// The peripheral clock generator.
    PeripheralClock,
    /// The USB clock generator.
    UsbClock,
    /// The ADC clock generator.
    AdcClock,
    /// The high-speed transmit clock generator.
    HstxClock,
}

/// The capability every oscillator, synthesizer, external input and derived
/// clock exposes once ready: report the current output frequency.
///
/// For composite sources (synthesizers, derived clocks) the reported value is
/// the value computed or cached at configuration time, not a live hardware
/// read: correctness relies on the physical frequency not drifting between
/// configuration operations.
pub trait ClockSource {
    /// Whether the source is ready to be read.  Readiness-tracked wrappers
    /// are ready by construction; a derived clock is ready once configured.
    spec fn ready(&self) -> bool;

    /// The frequency this source currently produces, in Hertz.
    spec fn freq_hz(&self) -> u32;

    /// Which source of the clock tree this value is.
    spec fn source_id(&self) -> SourceId;

    /// The current output frequency.  Pure: the result is a function of the
    /// source value alone, so repeated calls with no intervening
    /// configuration return the identical value.
    fn get_freq(&self) -> (f: Hertz)
        requires
            self.ready(),
        ensures
            f.spec_hz() == self.freq_hz(),
    ;

    /// The identity of this source.
    fn id(&self) -> (s: SourceId)
        ensures
            s == self.source_id(),
    ;
}

/// Law: frequency reads are pure.  Any two reads of one ready source value,
/// with no configuration in between, observe the same frequency, because each
/// result equals the source's one spec-level frequency.
pub proof fn lemma_get_freq_pure<S: ClockSource>(s: &S, f1: Hertz, f2: Hertz)
    requires
        f1.spec_hz() == s.freq_hz(),
        f2.spec_hz() == s.freq_hz(),
    ensures
        f1.spec_hz() == f2.spec_hz(),
{
}

} // verus!
