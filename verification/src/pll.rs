//! Frequency synthesizer (phase-locked loop) wrapper with type-level lock
//! tracking.
//!
//! A locked-state value is only ever constructed after lock has been
//! confirmed by bring-up code, so reading its frequency needs no defensive
//! re-check.  The output is computed from the reference input, the feedback
//! multiplier and the two post-dividers; the divider ranges below bound the
//! internal voltage-controlled oscillator so the computation cannot overflow.

use vstd::prelude::*;
use crate::frequency::Hertz;
use crate::source::{ClockSource, SourceId};

verus! {

/// Synthesizer state: output has stabilized to its designed multiple of the
/// reference input.
pub struct Locked;

/// Synthesizer state: not yet locked; the output must not be trusted.
pub struct Unlocked;

/// Which of the two independent synthesizer instances a wrapper drives.
#[derive(Clone, Copy, PartialEq, Eq, Structural, Debug)]
pub enum PllDevice {
    /// The synthesizer feeding the system clock domain.
    Sys,
    /// The synthesizer feeding the USB clock domain.
    Usb,
}

/// Smallest legal feedback multiplier.
pub const MIN_FBDIV: u32 = 16;

/// Largest legal feedback multiplier.
pub const MAX_FBDIV: u32 = 320;

/// Smallest legal post-divider value.
pub const MIN_POSTDIV: u32 = 1;

/// Largest legal post-divider value.
pub const MAX_POSTDIV: u32 = 7;

/// Largest frequency the internal voltage-controlled oscillator may run at,
/// in Hertz.  Reference frequency times feedback multiplier must stay at or
/// under this bound.
pub const MAX_VCO_HZ: u32 = 1600000000;

/// A phase-locked frequency synthesizer, one of two independent instances.
pub struct PhaseLockedLoop<S> {
    device: PllDevice,
    ref_freq: Hertz,
    fbdiv: u32,
    post_div1: u32,
    post_div2: u32,
    state: S,
}

impl<S> PhaseLockedLoop<S> {
    /// Which synthesizer instance this wrapper drives.
    pub closed spec fn spec_device(self) -> PllDevice {
        self.device
    }

    /// The reference input frequency, in Hertz.
    pub closed spec fn spec_ref_freq(self) -> u32 {
        self.ref_freq.spec_hz()
    }

    /// The feedback multiplier.
    pub closed spec fn spec_fbdiv(self) -> u32 {
        self.fbdiv
    }

    /// The first post-divider.
    pub closed spec fn spec_post_div1(self) -> u32 {
        self.post_div1
    }

    /// The second post-divider.
    pub closed spec fn spec_post_div2(self) -> u32 {
        self.post_div2
    }

    /// Well-formedness: all divider values are in their legal hardware
    /// ranges and the voltage-controlled oscillator stays within its bound.
    pub open spec fn wf(self) -> bool {
        &&& MIN_FBDIV <= self.spec_fbdiv() <= MAX_FBDIV
        &&& MIN_POSTDIV <= self.spec_post_div1() <= MAX_POSTDIV
        &&& MIN_POSTDIV <= self.spec_post_div2() <= MAX_POSTDIV
        &&& self.spec_ref_freq() * self.spec_fbdiv() <= MAX_VCO_HZ
    }

    /// The designed output frequency: reference input times feedback
    /// multiplier, divided by both post-dividers.
    pub open spec fn spec_freq(self) -> int {
        (self.spec_ref_freq() * self.spec_fbdiv()) / (self.spec_post_div1() * self.spec_post_div2())
    }
}

impl PhaseLockedLoop<Unlocked> {
    /// Set up a synthesizer instance with the given reference input and
    /// divider configuration.  The handle cannot report a frequency until
    /// lock has been confirmed.
    pub fn new(
        device: PllDevice,
        ref_freq: Hertz,
        fbdiv: u32,
        post_div1: u32,
        post_div2: u32,
    ) -> (r: PhaseLockedLoop<Unlocked>)
        requires
            MIN_FBDIV <= fbdiv <= MAX_FBDIV,
            MIN_POSTDIV <= post_div1 <= MAX_POSTDIV,
            MIN_POSTDIV <= post_div2 <= MAX_POSTDIV,
            ref_freq.spec_hz() * fbdiv <= MAX_VCO_HZ,
        ensures
            r.wf(),
            r.spec_device() == device,
            r.spec_ref_freq() == ref_freq.spec_hz(),
            r.spec_fbdiv() == fbdiv,
            r.spec_post_div1() == post_div1,
            r.spec_post_div2() == post_div2,
    {
        PhaseLockedLoop { device, ref_freq, fbdiv, post_div1, post_div2, state: Unlocked }
    }

    /// Consume the unlocked handle once lock has been hardware-confirmed;
    /// confirming lock is the bring-up code's duty, outside this engine.
    pub fn lock(self) -> (r: PhaseLockedLoop<Locked>)
        requires
            self.wf(),
        ensures
            r.wf(),
            r.spec_device() == self.spec_device(),
            r.spec_ref_freq() == self.spec_ref_freq(),
            r.spec_fbdiv() == self.spec_fbdiv(),
            r.spec_post_div1() == self.spec_post_div1(),
            r.spec_post_div2() == self.spec_post_div2(),
            r.spec_freq() == self.spec_freq(),
    {
        PhaseLockedLoop {
            device: self.device,
            ref_freq: self.ref_freq,
            fbdiv: self.fbdiv,
            post_div1: self.post_div1,
            post_div2: self.post_div2,
            state: Locked,
        }
    }
}

impl PhaseLockedLoop<Locked> {
    /// The locked output frequency.
    pub fn operating_frequency(&self) -> (f: Hertz)
        requires
            self.wf(),
        ensures
            f.spec_hz() == self.spec_freq(),
    {
        proof {
            assert(1 <= self.spec_post_div1() * self.spec_post_div2() <= MAX_POSTDIV * MAX_POSTDIV)
                by (nonlinear_arith)
                requires
                    MIN_POSTDIV <= self.spec_post_div1() <= MAX_POSTDIV,
                    MIN_POSTDIV <= self.spec_post_div2() <= MAX_POSTDIV,
            ;
        }
        let vco: u32 = self.ref_freq.hz() * self.fbdiv;
        Hertz::from_hz(vco / (self.post_div1 * self.post_div2))
    }
}

impl ClockSource for PhaseLockedLoop<Locked> {
    open spec fn ready(&self) -> bool {
        self.wf()
    }

    open spec fn freq_hz(&self) -> u32 {
        self.spec_freq() as u32
    }

    open spec fn source_id(&self) -> SourceId {
        match self.spec_device() {
            PllDevice::Sys => SourceId::PllSys,
            PllDevice::Usb => SourceId::PllUsb,
        }
    }

    fn get_freq(&self) -> (f: Hertz) {
        self.operating_frequency()
    }

    fn id(&self) -> (s: SourceId) {
        match self.device {
            PllDevice::Sys => SourceId::PllSys,
            PllDevice::Usb => SourceId::PllUsb,
        }
    }
}

} // verus!
