//! The named derived clocks and the clock-tree manager that owns them.
//!
//! Each derived clock selects one source from its hardware-defined candidate
//! list, scales it by an integer divider, and caches the resulting output
//! frequency.  The cache is refreshed only at configuration time; between
//! configurations the source's physical frequency is assumed stable.
//!
//! The system and reference clocks switch through a two-stage glitch-free
//! selector and keep running throughout a switch.  The remaining clocks are
//! single-selector designs: switching one briefly stops its output, so a
//! caller must ensure no dependent operation is in flight while it
//! reconfigures such a clock.

use vstd::prelude::*;
use vstd::pervasive::unreached;
use crate::configure::{
    plan_configure, plan_configure_div, spec_configure, spec_configure_div, spec_configure_ok,
    ClockError, ClockId, ClockState, MAX_DIVIDER,
};
use crate::frequency::Hertz;
use crate::mux::GlitchFreeMux;
use crate::source::{ClockSource, SourceId};

verus! {

/// The system clock generator: clocks the processors and the bus fabric.
/// Switches glitch-free; its selector parks on the reference clock input
/// while the auxiliary path is retargeted.
pub struct SystemClock {
    state: ClockState,
    mux: GlitchFreeMux,
}

impl SystemClock {
    /// The recorded configuration state.
    pub closed spec fn spec_state(self) -> ClockState {
        self.state
    }

    /// The glitch-free selector pair.
    pub closed spec fn spec_mux(self) -> GlitchFreeMux {
        self.mux
    }

    /// Whether the clock has been configured at least once.
    pub open spec fn configured(self) -> bool {
        self.spec_state() is Configured
    }

    /// Well-formedness: the selector pair parks on the reference clock
    /// input, the hardware path actually steers the recorded source, and the
    /// recorded divider is in the legal range.
    pub open spec fn wf(self) -> bool {
        &&& self.spec_mux().spec_bypass() == SourceId::ReferenceClock
        &&& match self.spec_state() {
            ClockState::Configured { source, divider, freq_hz } => {
                &&& self.spec_mux().spec_selected() == source
                &&& 1 <= divider <= MAX_DIVIDER
            },
            ClockState::Unconfigured => !self.spec_mux().spec_on_aux(),
        }
    }

    /// The generator at its reset state: unconfigured, selector parked on
    /// the reference clock input.
    pub fn new() -> (r: SystemClock)
        ensures
            r.wf(),
            r.spec_state() == ClockState::Unconfigured,
    {
        SystemClock {
            state: ClockState::Unconfigured,
            mux: GlitchFreeMux::new(SourceId::ReferenceClock),
        }
    }

    /// The two-step glitch-free switch: park the primary selector on the
    /// bypass input, retarget the auxiliary selector while nothing runs from
    /// it, engage the auxiliary path, and only then record the new
    /// configuration.  The output keeps running through every step.
    fn switch_to(&mut self, planned: ClockState, sid: SourceId)
        requires
            old(self).wf(),
            planned matches ClockState::Configured { source, divider, .. } && source == sid && 1
                <= divider <= MAX_DIVIDER,
        ensures
            final(self).wf(),
            final(self).spec_state() == planned,
    {
        self.mux.steer_to_bypass();
        if !matches!(sid, SourceId::ReferenceClock) {
            self.mux.select_aux(sid);
            self.mux.engage_aux();
        }
        self.state = planned;
    }

    /// Switch this clock to `src`, choosing the divider that hits `freq`
    /// exactly.  A rejected request changes nothing.
    pub fn configure_clock<S: ClockSource>(&mut self, src: &S, freq: Hertz) -> (r: Result<
        (),
        ClockError,
    >)
        requires
            src.ready(),
            old(self).wf(),
        ensures
            final(self).wf(),
            ({
                let (st, res) = spec_configure(
                    ClockId::System,
                    old(self).spec_state(),
                    src.source_id(),
                    src.freq_hz(),
                    freq.spec_hz(),
                );
                final(self).spec_state() == st && r == res
            }),
            r is Ok <==> spec_configure_ok(
                ClockId::System,
                src.source_id(),
                src.freq_hz(),
                freq.spec_hz(),
            ),
            r is Ok ==> (final(self).spec_state() matches ClockState::Configured {
                source,
                divider,
                freq_hz,
            } && source == src.source_id() && freq_hz == src.freq_hz() / divider && freq_hz
                == freq.spec_hz()),
            r is Err ==> final(self).spec_state() == old(self).spec_state(),
    {
        let sid = src.id();
        let planned = match plan_configure(ClockId::System, src, freq) {
            Ok(p) => p,
            Err(e) => {
                return Err(e);
            },
        };
        self.switch_to(planned, sid);
        Ok(())
    }

    /// Switch this clock to `src` with a caller-supplied divider.  A
    /// rejected request changes nothing.
    pub fn configure_with_divider<S: ClockSource>(&mut self, src: &S, divider: u32) -> (r: Result<
        (),
        ClockError,
    >)
        requires
            src.ready(),
            old(self).wf(),
        ensures
            final(self).wf(),
            ({
                let (st, res) = spec_configure_div(
                    ClockId::System,
                    old(self).spec_state(),
                    src.source_id(),
                    src.freq_hz(),
                    divider,
                );
                final(self).spec_state() == st && r == res
            }),
            r is Ok ==> final(self).spec_state() == (ClockState::Configured {
                source: src.source_id(),
                divider,
                freq_hz: (src.freq_hz() / divider) as u32,
            }),
            r is Err ==> final(self).spec_state() == old(self).spec_state(),
    {
        let sid = src.id();
        let planned = match plan_configure_div(ClockId::System, src, divider) {
            Ok(p) => p,
            Err(e) => {
                return Err(e);
            },
        };
        self.switch_to(planned, sid);
        Ok(())
    }

    /// The recorded (source, divider) configuration, if any.
    pub fn current_config(&self) -> (c: Option<(SourceId, u32)>)
        ensures
            match self.spec_state() {
                ClockState::Configured { source, divider, .. } => c == Some((source, divider)),
                ClockState::Unconfigured => c is None,
            },
    {
        match self.state {
            ClockState::Configured { source, divider, .. } => Some((source, divider)),
            ClockState::Unconfigured => None,
        }
    }
}

impl ClockSource for SystemClock {
    open spec fn ready(&self) -> bool {
        self.configured()
    }

    open spec fn freq_hz(&self) -> u32 {
        match self.spec_state() {
            ClockState::Configured { freq_hz, .. } => freq_hz,
            ClockState::Unconfigured => 0,
        }
    }

    open spec fn source_id(&self) -> SourceId {
        SourceId::SystemClock
    }

    fn get_freq(&self) -> (f: Hertz) {
        match self.state {
            ClockState::Configured { freq_hz, .. } => Hertz::from_hz(freq_hz),
            ClockState::Unconfigured => unreached(),
        }
    }

    fn id(&self) -> (s: SourceId) {
        SourceId::SystemClock
    }
}

/// The reference clock generator: feeds timing-critical peripherals that
/// need a frequency independent of the system clock.  Switches glitch-free;
/// its selector parks on the ring oscillator input while the auxiliary path
/// is retargeted.
pub struct ReferenceClock {
    state: ClockState,
    mux: GlitchFreeMux,
}

impl ReferenceClock {
    /// The recorded configuration state.
    pub closed spec fn spec_state(self) -> ClockState {
        self.state
    }

    /// The glitch-free selector pair.
    pub closed spec fn spec_mux(self) -> GlitchFreeMux {
        self.mux
    }

    /// Whether the clock has been configured at least once.
    pub open spec fn configured(self) -> bool {
        self.spec_state() is Configured
    }

    /// Well-formedness: the selector pair parks on the ring oscillator
    /// input, the hardware path actually steers the recorded source, and the
    /// recorded divider is in the legal range.
    pub open spec fn wf(self) -> bool {
        &&& self.spec_mux().spec_bypass() == SourceId::Rosc
        &&& match self.spec_state() {
            ClockState::Configured { source, divider, freq_hz } => {
                &&& self.spec_mux().spec_selected() == source
                &&& 1 <= divider <= MAX_DIVIDER
            },
            ClockState::Unconfigured => !self.spec_mux().spec_on_aux(),
        }
    }

    /// The generator at its reset state: unconfigured, selector parked on
    /// the ring oscillator input.
    pub fn new() -> (r: ReferenceClock)
        ensures
            r.wf(),
            r.spec_state() == ClockState::Unconfigured,
    {
        ReferenceClock {
            state: ClockState::Unconfigured,
            mux: GlitchFreeMux::new(SourceId::Rosc),
        }
    }

    /// The two-step glitch-free switch, as on the system clock, with the
    /// ring oscillator input as the parking place.
    fn switch_to(&mut self, planned: ClockState, sid: SourceId)
        requires
            old(self).wf(),
            planned matches ClockState::Configured { source, divider, .. } && source == sid && 1
                <= divider <= MAX_DIVIDER,
        ensures
            final(self).wf(),
            final(self).spec_state() == planned,
    {
        self.mux.steer_to_bypass();
        if !matches!(sid, SourceId::Rosc) {
            self.mux.select_aux(sid);
            self.mux.engage_aux();
        }
        self.state = planned;
    }

    /// Switch this clock to `src`, choosing the divider that hits `freq`
    /// exactly.  A rejected request changes nothing.
    pub fn configure_clock<S: ClockSource>(&mut self, src: &S, freq: Hertz) -> (r: Result<
        (),
        ClockError,
    >)
        requires
            src.ready(),
            old(self).wf(),
        ensures
            final(self).wf(),
            ({
                let (st, res) = spec_configure(
                    ClockId::Reference,
                    old(self).spec_state(),
                    src.source_id(),
                    src.freq_hz(),
                    freq.spec_hz(),
                );
                final(self).spec_state() == st && r == res
            }),
            r is Ok <==> spec_configure_ok(
                ClockId::Reference,
                src.source_id(),
                src.freq_hz(),
                freq.spec_hz(),
            ),
            r is Ok ==> (final(self).spec_state() matches ClockState::Configured {
                source,
                divider,
                freq_hz,
            } && source == src.source_id() && freq_hz == src.freq_hz() / divider && freq_hz
                == freq.spec_hz()),
            r is Err ==> final(self).spec_state() == old(self).spec_state(),
    {
        let sid = src.id();
        let planned = match plan_configure(ClockId::Reference, src, freq) {
            Ok(p) => p,
            Err(e) => {
                return Err(e);
            },
        };
        self.switch_to(planned, sid);
        Ok(())
    }

    /// Switch this clock to `src` with a caller-supplied divider.  A
    /// rejected request changes nothing.
    pub fn configure_with_divider<S: ClockSource>(&mut self, src: &S, divider: u32) -> (r: Result<
        (),
        ClockError,
    >)
        requires
            src.ready(),
            old(self).wf(),
        ensures
            final(self).wf(),
            ({
                let (st, res) = spec_configure_div(
                    ClockId::Reference,
                    old(self).spec_state(),
                    src.source_id(),
                    src.freq_hz(),
                    divider,
                );
                final(self).spec_state() == st && r == res
            }),
            r is Ok ==> final(self).spec_state() == (ClockState::Configured {
                source: src.source_id(),
                divider,
                freq_hz: (src.freq_hz() / divider) as u32,
            }),
            r is Err ==> final(self).spec_state() == old(self).spec_state(),
    {
        let sid = src.id();
        let planned = match plan_configure_div(ClockId::Reference, src, divider) {
            Ok(p) => p,
            Err(e) => {
                return Err(e);
            },
        };
        self.switch_to(planned, sid);
        Ok(())
    }

    /// The recorded (source, divider) configuration, if any.
    pub fn current_config(&self) -> (c: Option<(SourceId, u32)>)
        ensures
            match self.spec_state() {
                ClockState::Configured { source, divider, .. } => c == Some((source, divider)),
                ClockState::Unconfigured => c is None,
            },
    {
        match self.state {
            ClockState::Configured { source, divider, .. } => Some((source, divider)),
            ClockState::Unconfigured => None,
        }
    }
}

impl ClockSource for ReferenceClock {
    open spec fn ready(&self) -> bool {
        self.configured()
    }

    open spec fn freq_hz(&self) -> u32 {
        match self.spec_state() {
            ClockState::Configured { freq_hz, .. } => freq_hz,
            ClockState::Unconfigured => 0,
        }
    }

    open spec fn source_id(&self) -> SourceId {
        SourceId::ReferenceClock
    }

    fn get_freq(&self) -> (f: Hertz) {
        match self.state {
            ClockState::Configured { freq_hz, .. } => Hertz::from_hz(freq_hz),
            ClockState::Unconfigured => unreached(),
        }
    }

    fn id(&self) -> (s: SourceId) {
        SourceId::ReferenceClock
    }
}

/// The peripheral clock generator.  A single-selector design: switching it
/// briefly stops its output while the selector moves, so a caller must
/// ensure no dependent operation is in flight when it reconfigures this
/// clock.
pub struct PeripheralClock {
    state: ClockState,
}

impl PeripheralClock {
    /// The recorded configuration state.
    pub closed spec fn spec_state(self) -> ClockState {
        self.state
    }

    /// Whether the clock has been configured at least once.
    pub open spec fn configured(self) -> bool {
        self.spec_state() is Configured
    }

    /// The generator at its reset state: unconfigured, output stopped.
    pub fn new() -> (r: PeripheralClock)
        ensures
            r.spec_state() == ClockState::Unconfigured,
    {
        PeripheralClock { state: ClockState::Unconfigured }
    }

    /// Switch this clock to `src`, choosing the divider that hits `freq`
    /// exactly.  A rejected request changes nothing; an accepted one moves
    /// the single selector, which stops the output for a moment.
    pub fn configure_clock<S: ClockSource>(&mut self, src: &S, freq: Hertz) -> (r: Result<
        (),
        ClockError,
    >)
        requires
            src.ready(),
        ensures
            ({
                let (st, res) = spec_configure(
                    ClockId::Peripheral,
                    old(self).spec_state(),
                    src.source_id(),
                    src.freq_hz(),
                    freq.spec_hz(),
                );
                final(self).spec_state() == st && r == res
            }),
            r is Ok <==> spec_configure_ok(
                ClockId::Peripheral,
                src.source_id(),
                src.freq_hz(),
                freq.spec_hz(),
            ),
            r is Ok ==> (final(self).spec_state() matches ClockState::Configured {
                source,
                divider,
                freq_hz,
            } && source == src.source_id() && freq_hz == src.freq_hz() / divider && freq_hz
                == freq.spec_hz()),
            r is Err ==> final(self).spec_state() == old(self).spec_state(),
    {
        let planned = match plan_configure(ClockId::Peripheral, src, freq) {
            Ok(p) => p,
            Err(e) => {
                return Err(e);
            },
        };
        self.state = planned;
        Ok(())
    }

    /// Switch this clock to `src` with a caller-supplied divider.  A
    /// rejected request changes nothing.
    pub fn configure_with_divider<S: ClockSource>(&mut self, src: &S, divider: u32) -> (r: Result<
        (),
        ClockError,
    >)
        requires
            src.ready(),
        ensures
            ({
                let (st, res) = spec_configure_div(
                    ClockId::Peripheral,
                    old(self).spec_state(),
                    src.source_id(),
                    src.freq_hz(),
                    divider,
                );
                final(self).spec_state() == st && r == res
            }),
            r is Ok ==> final(self).spec_state() == (ClockState::Configured {
                source: src.source_id(),
                divider,
                freq_hz: (src.freq_hz() / divider) as u32,
            }),
            r is Err ==> final(self).spec_state() == old(self).spec_state(),
    {
        let planned = match plan_configure_div(ClockId::Peripheral, src, divider) {
            Ok(p) => p,
            Err(e) => {
                return Err(e);
            },
        };
        self.state = planned;
        Ok(())
    }

    /// The recorded (source, divider) configuration, if any.
    pub fn current_config(&self) -> (c: Option<(SourceId, u32)>)
        ensures
            match self.spec_state() {
                ClockState::Configured { source, divider, .. } => c == Some((source, divider)),
                ClockState::Unconfigured => c is None,
            },
    {
        match self.state {
            ClockState::Configured { source, divider, .. } => Some((source, divider)),
            ClockState::Unconfigured => None,
        }
    }
}

impl ClockSource for PeripheralClock {
    open spec fn ready(&self) -> bool {
        self.configured()
    }

    open spec fn freq_hz(&self) -> u32 {
        match self.spec_state() {
            ClockState::Configured { freq_hz, .. } => freq_hz,
            ClockState::Unconfigured => 0,
        }
    }

    open spec fn source_id(&self) -> SourceId {
        SourceId::PeripheralClock
    }

    fn get_freq(&self) -> (f: Hertz) {
        match self.state {
            ClockState::Configured { freq_hz, .. } => Hertz::from_hz(freq_hz),
            ClockState::Unconfigured => unreached(),
        }
    }

    fn id(&self) -> (s: SourceId) {
        SourceId::PeripheralClock
    }
}

/// The USB clock generator.  A single-selector design: switching it
/// briefly stops its output while the selector moves, so a caller must
/// ensure no dependent operation is in flight when it reconfigures this
/// clock.
pub struct UsbClock {
    state: ClockState,
}

impl UsbClock {
    /// The recorded configuration state.
    pub closed spec fn spec_state(self) -> ClockState {
        self.state
    }

    /// Whether the clock has been configured at least once.
    pub open spec fn configured(self) -> bool {
        self.spec_state() is Configured
    }

    /// The generator at its reset state: unconfigured, output stopped.
    pub fn new() -> (r: UsbClock)
        ensures
            r.spec_state() == ClockState::Unconfigured,
    {
        UsbClock { state: ClockState::Unconfigured }
    }

    /// Switch this clock to `src`, choosing the divider that hits `freq`
    /// exactly.  A rejected request changes nothing; an accepted one moves
    /// the single selector, which stops the output for a moment.
    pub fn configure_clock<S: ClockSource>(&mut self, src: &S, freq: Hertz) -> (r: Result<
        (),
        ClockError,
    >)
        requires
            src.ready(),
        ensures
            ({
                let (st, res) = spec_configure(
                    ClockId::Usb,
                    old(self).spec_state(),
                    src.source_id(),
                    src.freq_hz(),
                    freq.spec_hz(),
                );
                final(self).spec_state() == st && r == res
            }),
            r is Ok <==> spec_configure_ok(
                ClockId::Usb,
                src.source_id(),
                src.freq_hz(),
                freq.spec_hz(),
            ),
            r is Ok ==> (final(self).spec_state() matches ClockState::Configured {
                source,
                divider,
                freq_hz,
            } && source == src.source_id() && freq_hz == src.freq_hz() / divider && freq_hz
                == freq.spec_hz()),
            r is Err ==> final(self).spec_state() == old(self).spec_state(),
    {
        let planned = match plan_configure(ClockId::Usb, src, freq) {
            Ok(p) => p,
            Err(e) => {
                return Err(e);
            },
        };
        self.state = planned;
        Ok(())
    }

    /// Switch this clock to `src` with a caller-supplied divider.  A
    /// rejected request changes nothing.
    pub fn configure_with_divider<S: ClockSource>(&mut self, src: &S, divider: u32) -> (r: Result<
        (),
        ClockError,
    >)
        requires
            src.ready(),
        ensures
            ({
                let (st, res) = spec_configure_div(
                    ClockId::Usb,
                    old(self).spec_state(),
                    src.source_id(),
                    src.freq_hz(),
                    divider,
                );
                final(self).spec_state() == st && r == res
            }),
            r is Ok ==> final(self).spec_state() == (ClockState::Configured {
                source: src.source_id(),
                divider,
                freq_hz: (src.freq_hz() / divider) as u32,
            }),
            r is Err ==> final(self).spec_state() == old(self).spec_state(),
    {
        let planned = match plan_configure_div(ClockId::Usb, src, divider) {
            Ok(p) => p,
            Err(e) => {
                return Err(e);
            },
        };
        self.state = planned;
        Ok(())
    }

    /// The recorded (source, divider) configuration, if any.
    pub fn current_config(&self) -> (c: Option<(SourceId, u32)>)
        ensures
            match self.spec_state() {
                ClockState::Configured { source, divider, .. } => c == Some((source, divider)),
                ClockState::Unconfigured => c is None,
            },
    {
        match self.state {
            ClockState::Configured { source, divider, .. } => Some((source, divider)),
            ClockState::Unconfigured => None,
        }
    }
}

impl ClockSource for UsbClock {
    open spec fn ready(&self) -> bool {
        self.configured()
    }

    open spec fn freq_hz(&self) -> u32 {
        match self.spec_state() {
            ClockState::Configured { freq_hz, .. } => freq_hz,
            ClockState::Unconfigured => 0,
        }
    }

    open spec fn source_id(&self) -> SourceId {
        SourceId::UsbClock
    }

    fn get_freq(&self) -> (f: Hertz) {
        match self.state {
            ClockState::Configured { freq_hz, .. } => Hertz::from_hz(freq_hz),
            ClockState::Unconfigured => unreached(),
        }
    }

    fn id(&self) -> (s: SourceId) {
        SourceId::UsbClock
    }
}

/// The ADC clock generator.  A single-selector design: switching it
/// briefly stops its output while the selector moves, so a caller must
/// ensure no dependent operation is in flight when it reconfigures this
/// clock.
pub struct AdcClock {
    state: ClockState,
}

impl AdcClock {
    /// The recorded configuration state.
    pub closed spec fn spec_state(self) -> ClockState {
        self.state
    }

    /// Whether the clock has been configured at least once.
    pub open spec fn configured(self) -> bool {
        self.spec_state() is Configured
    }

    /// The generator at its reset state: unconfigured, output stopped.
    pub fn new() -> (r: AdcClock)
        ensures
            r.spec_state() == ClockState::Unconfigured,
    {
        AdcClock { state: ClockState::Unconfigured }
    }

    /// Switch this clock to `src`, choosing the divider that hits `freq`
    /// exactly.  A rejected request changes nothing; an accepted one moves
    /// the single selector, which stops the output for a moment.
    pub fn configure_clock<S: ClockSource>(&mut self, src: &S, freq: Hertz) -> (r: Result<
        (),
        ClockError,
    >)
        requires
            src.ready(),
        ensures
            ({
                let (st, res) = spec_configure(
                    ClockId::Adc,
                    old(self).spec_state(),
                    src.source_id(),
                    src.freq_hz(),
                    freq.spec_hz(),
                );
                final(self).spec_state() == st && r == res
            }),
            r is Ok <==> spec_configure_ok(
                ClockId::Adc,
                src.source_id(),
                src.freq_hz(),
                freq.spec_hz(),
            ),
            r is Ok ==> (final(self).spec_state() matches ClockState::Configured {
                source,
                divider,
                freq_hz,
            } && source == src.source_id() && freq_hz == src.freq_hz() / divider && freq_hz
                == freq.spec_hz()),
            r is Err ==> final(self).spec_state() == old(self).spec_state(),
    {
        let planned = match plan_configure(ClockId::Adc, src, freq) {
            Ok(p) => p,
            Err(e) => {
                return Err(e);
            },
        };
        self.state = planned;
        Ok(())
    }

    /// Switch this clock to `src` with a caller-supplied divider.  A
    /// rejected request changes nothing.
    pub fn configure_with_divider<S: ClockSource>(&mut self, src: &S, divider: u32) -> (r: Result<
        (),
        ClockError,
    >)
        requires
            src.ready(),
        ensures
            ({
                let (st, res) = spec_configure_div(
                    ClockId::Adc,
                    old(self).spec_state(),
                    src.source_id(),
                    src.freq_hz(),
                    divider,
                );
                final(self).spec_state() == st && r == res
            }),
            r is Ok ==> final(self).spec_state() == (ClockState::Configured {
                source: src.source_id(),
                divider,
                freq_hz: (src.freq_hz() / divider) as u32,
            }),
            r is Err ==> final(self).spec_state() == old(self).spec_state(),
    {
        let planned = match plan_configure_div(ClockId::Adc, src, divider) {
            Ok(p) => p,
            Err(e) => {
                return Err(e);
            },
        };
        self.state = planned;
        Ok(())
    }

    /// The recorded (source, divider) configuration, if any.
    pub fn current_config(&self) -> (c: Option<(SourceId, u32)>)
        ensures
            match self.spec_state() {
                ClockState::Configured { source, divider, .. } => c == Some((source, divider)),
                ClockState::Unconfigured => c is None,
            },
    {
        match self.state {
            ClockState::Configured { source, divider, .. } => Some((source, divider)),
            ClockState::Unconfigured => None,
        }
    }
}

impl ClockSource for AdcClock {
    open spec fn ready(&self) -> bool {
        self.configured()
    }

    open spec fn freq_hz(&self) -> u32 {
        match self.spec_state() {
            ClockState::Configured { freq_hz, .. } => freq_hz,
            ClockState::Unconfigured => 0,
        }
    }

    open spec fn source_id(&self) -> SourceId {
        SourceId::AdcClock
    }

    fn get_freq(&self) -> (f: Hertz) {
        match self.state {
            ClockState::Configured { freq_hz, .. } => Hertz::from_hz(freq_hz),
            ClockState::Unconfigured => unreached(),
        }
    }

    fn id(&self) -> (s: SourceId) {
        SourceId::AdcClock
    }
}

/// The high-speed transmit clock generator.  A single-selector design: switching it
/// briefly stops its output while the selector moves, so a caller must
/// ensure no dependent operation is in flight when it reconfigures this
/// clock.
pub struct HstxClock {
    state: ClockState,
}

impl HstxClock {
    /// The recorded configuration state.
    pub closed spec fn spec_state(self) -> ClockState {
        self.state
    }

    /// Whether the clock has been configured at least once.
    pub open spec fn configured(self) -> bool {
        self.spec_state() is Configured
    }

    /// The generator at its reset state: unconfigured, output stopped.
    pub fn new() -> (r: HstxClock)
        ensures
            r.spec_state() == ClockState::Unconfigured,
    {
        HstxClock { state: ClockState::Unconfigured }
    }

    /// Switch this clock to `src`, choosing the divider that hits `freq`
    /// exactly.  A rejected request changes nothing; an accepted one moves
    /// the single selector, which stops the output for a moment.
    pub fn configure_clock<S: ClockSource>(&mut self, src: &S, freq: Hertz) -> (r: Result<
        (),
        ClockError,
    >)
        requires
            src.ready(),
        ensures
            ({
                let (st, res) = spec_configure(
                    ClockId::Hstx,
                    old(self).spec_state(),
                    src.source_id(),
                    src.freq_hz(),
                    freq.spec_hz(),
                );
                final(self).spec_state() == st && r == res
            }),
            r is Ok <==> spec_configure_ok(
                ClockId::Hstx,
                src.source_id(),
                src.freq_hz(),
                freq.spec_hz(),
            ),
            r is Ok ==> (final(self).spec_state() matches ClockState::Configured {
                source,
                divider,
                freq_hz,
            } && source == src.source_id() && freq_hz == src.freq_hz() / divider && freq_hz
                == freq.spec_hz()),
            r is Err ==> final(self).spec_state() == old(self).spec_state(),
    {
        let planned = match plan_configure(ClockId::Hstx, src, freq) {
            Ok(p) => p,
            Err(e) => {
                return Err(e);
            },
        };
        self.state = planned;
        Ok(())
    }

    /// Switch this clock to `src` with a caller-supplied divider.  A
    /// rejected request changes nothing.
    pub fn configure_with_divider<S: ClockSource>(&mut self, src: &S, divider: u32) -> (r: Result<
        (),
        ClockError,
    >)
        requires
            src.ready(),
        ensures
            ({
                let (st, res) = spec_configure_div(
                    ClockId::Hstx,
                    old(self).spec_state(),
                    src.source_id(),
                    src.freq_hz(),
                    divider,
                );
                final(self).spec_state() == st && r == res
            }),
            r is Ok ==> final(self).spec_state() == (ClockState::Configured {
                source: src.source_id(),
                divider,
                freq_hz: (src.freq_hz() / divider) as u32,
            }),
            r is Err ==> final(self).spec_state() == old(self).spec_state(),
    {
        let planned = match plan_configure_div(ClockId::Hstx, src, divider) {
            Ok(p) => p,
            Err(e) => {
                return Err(e);
            },
        };
        self.state = planned;
        Ok(())
    }

    /// The recorded (source, divider) configuration, if any.
    pub fn current_config(&self) -> (c: Option<(SourceId, u32)>)
        ensures
            match self.spec_state() {
                ClockState::Configured { source, divider, .. } => c == Some((source, divider)),
                ClockState::Unconfigured => c is None,
            },
    {
        match self.state {
            ClockState::Configured { source, divider, .. } => Some((source, divider)),
            ClockState::Unconfigured => None,
        }
    }
}

impl ClockSource for HstxClock {
    open spec fn ready(&self) -> bool {
        self.configured()
    }

    open spec fn freq_hz(&self) -> u32 {
        match self.spec_state() {
            ClockState::Configured { freq_hz, .. } => freq_hz,
            ClockState::Unconfigured => 0,
        }
    }

    open spec fn source_id(&self) -> SourceId {
        SourceId::HstxClock
    }

    fn get_freq(&self) -> (f: Hertz) {
        match self.state {
            ClockState::Configured { freq_hz, .. } => Hertz::from_hz(freq_hz),
            ClockState::Unconfigured => unreached(),
        }
    }

    fn id(&self) -> (s: SourceId) {
        SourceId::HstxClock
    }
}

/// The clock-tree manager: the single owner of every named derived clock.
/// It exists once for the process lifetime; derived clocks are mutated only
/// through their configuration operations, never directly, and concurrent
/// configuration from two execution contexts must be serialized by the
/// caller.
pub struct ClocksManager {
    pub system_clock: SystemClock,
    pub reference_clock: ReferenceClock,
    pub peripheral_clock: PeripheralClock,
    pub usb_clock: UsbClock,
    pub adc_clock: AdcClock,
    pub hstx_clock: HstxClock,
}

impl ClocksManager {
    /// The full clock tree at its reset state: every derived clock
    /// unconfigured.
    pub fn new() -> (r: ClocksManager)
        ensures
            r.system_clock.wf(),
            r.system_clock.spec_state() == ClockState::Unconfigured,
            r.reference_clock.wf(),
            r.reference_clock.spec_state() == ClockState::Unconfigured,
            r.peripheral_clock.spec_state() == ClockState::Unconfigured,
            r.usb_clock.spec_state() == ClockState::Unconfigured,
            r.adc_clock.spec_state() == ClockState::Unconfigured,
            r.hstx_clock.spec_state() == ClockState::Unconfigured,
    {
        ClocksManager {
            system_clock: SystemClock::new(),
            reference_clock: ReferenceClock::new(),
            peripheral_clock: PeripheralClock::new(),
            usb_clock: UsbClock::new(),
            adc_clock: AdcClock::new(),
            hstx_clock: HstxClock::new(),
        }
    }
}

} // verus!
