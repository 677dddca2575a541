//! The configuration engine shared by every named derived clock: candidate
//! source validation, divider resolution, and the configuration transition.
//!
//! Every request is validated in full before any state changes, so a failed
//! request leaves the prior configuration fully intact — the switch either
//! completes or does not start.

use vstd::prelude::*;
use vstd::arithmetic::div_mod::{
    lemma_div_basics_3, lemma_div_is_ordered, lemma_div_multiples_vanish,
    lemma_fundamental_div_mod,
};
use crate::frequency::Hertz;
use crate::source::{ClockSource, SourceId};

verus! {

/// Why a configuration request was rejected.  Both errors are detected
/// before any state is mutated and are never retried automatically: a
/// misconfigured clock is a bring-up mistake, not a transient condition.
#[derive(Clone, Copy, PartialEq, Eq, Structural, Debug)]
pub enum ClockError {
    /// The requested source is not in the target clock's candidate list.
    InvalidSource,
    /// No legal divider brings the source frequency to the requested target.
    UnachievableFrequency,
}

/// Identity of every named derived clock.
#[derive(Clone, Copy, PartialEq, Eq, Structural, Debug)]
pub enum ClockId {
    System,
    Reference,
    Peripheral,
    Usb,
    Adc,
    Hstx,
}

/// Largest legal integer divider of a derived clock generator.
pub const MAX_DIVIDER: u32 = 65535;

/// The hardware-defined candidate list: whether derived clock `clock` may
/// legally select source `s`.  Selecting outside this set is a caller
/// mistake, not a hardware possibility, and is rejected before any mutation.
pub open spec fn spec_valid_source(clock: ClockId, s: SourceId) -> bool {
    match clock {
        ClockId::System => match s {
            SourceId::ReferenceClock | SourceId::PllSys | SourceId::PllUsb | SourceId::Xosc
                | SourceId::Rosc | SourceId::GpIn0 | SourceId::GpIn1 => true,
            _ => false,
        },
        ClockId::Reference => match s {
            SourceId::Rosc | SourceId::Xosc | SourceId::LpOsc | SourceId::PllUsb
                | SourceId::GpIn0 | SourceId::GpIn1 => true,
            _ => false,
        },
        ClockId::Peripheral => match s {
            SourceId::SystemClock | SourceId::PllSys | SourceId::PllUsb | SourceId::Xosc
                | SourceId::Rosc | SourceId::GpIn0 | SourceId::GpIn1 => true,
            _ => false,
        },
        ClockId::Usb => match s {
            SourceId::PllUsb | SourceId::PllSys | SourceId::Xosc | SourceId::Rosc
                | SourceId::GpIn0 | SourceId::GpIn1 => true,
            _ => false,
        },
        ClockId::Adc => match s {
            SourceId::PllUsb | SourceId::PllSys | SourceId::Xosc | SourceId::Rosc
                | SourceId::GpIn0 | SourceId::GpIn1 => true,
            _ => false,
        },
        ClockId::Hstx => match s {
            SourceId::SystemClock | SourceId::PllSys | SourceId::PllUsb
                | SourceId::GpIn0 | SourceId::GpIn1 => true,
            _ => false,
        },
    }
}

/// Executable membership test for the candidate list.
pub fn is_valid_source(clock: ClockId, s: SourceId) -> (b: bool)
    ensures
        b == spec_valid_source(clock, s),
{
    match clock {
        ClockId::System => matches!(
            s,
            SourceId::ReferenceClock | SourceId::PllSys | SourceId::PllUsb | SourceId::Xosc
                | SourceId::Rosc | SourceId::GpIn0 | SourceId::GpIn1
        ),
        ClockId::Reference => matches!(
            s,
            SourceId::Rosc | SourceId::Xosc | SourceId::LpOsc | SourceId::PllUsb
                | SourceId::GpIn0 | SourceId::GpIn1
        ),
        ClockId::Peripheral => matches!(
            s,
            SourceId::SystemClock | SourceId::PllSys | SourceId::PllUsb | SourceId::Xosc
                | SourceId::Rosc | SourceId::GpIn0 | SourceId::GpIn1
        ),
        ClockId::Usb => matches!(
            s,
            SourceId::PllUsb | SourceId::PllSys | SourceId::Xosc | SourceId::Rosc
                | SourceId::GpIn0 | SourceId::GpIn1
        ),
        ClockId::Adc => matches!(
            s,
            SourceId::PllUsb | SourceId::PllSys | SourceId::Xosc | SourceId::Rosc
                | SourceId::GpIn0 | SourceId::GpIn1
        ),
        ClockId::Hstx => matches!(
            s,
            SourceId::SystemClock | SourceId::PllSys | SourceId::PllUsb
                | SourceId::GpIn0 | SourceId::GpIn1
        ),
    }
}

/// The divider chosen for source frequency `sfreq` and requested target
/// `target`.
pub open spec fn spec_divider_for(sfreq: u32, target: u32) -> u32
    recommends
        target >= 1,
{
    sfreq / target
}

/// Whether some legal divider turns `sfreq` into exactly `target`.  The
/// declared tolerance of this engine is exact integer division: a target the
/// divider cannot hit exactly is rejected rather than silently approximated.
pub open spec fn spec_achievable(sfreq: u32, target: u32) -> bool {
    &&& 1 <= target <= sfreq
    &&& sfreq % target == 0
    &&& sfreq / target <= MAX_DIVIDER
}

/// Pick the divider that turns `source_freq` into exactly `target`, or
/// report that no legal divider does.
pub fn resolve_divider(source_freq: Hertz, target: Hertz) -> (r: Result<u32, ClockError>)
    ensures
        r is Ok <==> spec_achievable(source_freq.spec_hz(), target.spec_hz()),
        r matches Ok(d) ==> {
            &&& d == spec_divider_for(source_freq.spec_hz(), target.spec_hz())
            &&& 1 <= d <= MAX_DIVIDER
            &&& source_freq.spec_hz() / d == target.spec_hz()
        },
        r is Err ==> r == Err::<u32, ClockError>(ClockError::UnachievableFrequency),
{
    let f = source_freq.hz();
    let t = target.hz();
    if t == 0 || t > f {
        return Err(ClockError::UnachievableFrequency);
    }
    if f % t != 0 {
        return Err(ClockError::UnachievableFrequency);
    }
    let d = f / t;
    if d > MAX_DIVIDER {
        return Err(ClockError::UnachievableFrequency);
    }
    proof {
        lemma_div_basics_3(t as int);
        lemma_div_is_ordered(t as int, f as int, t as int);
        lemma_fundamental_div_mod(f as int, t as int);
        lemma_div_multiples_vanish(t as int, d as int);
    }
    Ok(d)
}

/// Software-visible state of one named derived clock: either never
/// configured, or configured with a recorded source, divider and cached
/// output frequency.
#[derive(Clone, Copy, PartialEq, Eq, Structural, Debug)]
pub enum ClockState {
    Unconfigured,
    Configured { source: SourceId, divider: u32, freq_hz: u32 },
}

/// Whether a configuration request for `clock` with source `sid` (producing
/// `sfreq` Hertz) and requested target `target` is accepted.
pub open spec fn spec_configure_ok(clock: ClockId, sid: SourceId, sfreq: u32, target: u32) -> bool {
    spec_valid_source(clock, sid) && spec_achievable(sfreq, target)
}

/// The state a derived clock reaches when such a request is accepted.
pub open spec fn spec_configured_state(sid: SourceId, sfreq: u32, target: u32) -> ClockState {
    ClockState::Configured {
        source: sid,
        divider: spec_divider_for(sfreq, target),
        freq_hz: sfreq / spec_divider_for(sfreq, target),
    }
}

/// The error a rejected request reports: an illegal source is diagnosed
/// first, an unreachable target second.
pub open spec fn spec_configure_err(clock: ClockId, sid: SourceId, sfreq: u32, target: u32) -> ClockError {
    if !spec_valid_source(clock, sid) {
        ClockError::InvalidSource
    } else {
        ClockError::UnachievableFrequency
    }
}

/// The configuration transition of one derived clock: the state after a
/// request against prior state `st`, and the reported outcome.  A rejected
/// request leaves the prior state untouched.
pub open spec fn spec_configure(
    clock: ClockId,
    st: ClockState,
    sid: SourceId,
    sfreq: u32,
    target: u32,
) -> (ClockState, Result<(), ClockError>) {
    if spec_configure_ok(clock, sid, sfreq, target) {
        (spec_configured_state(sid, sfreq, target), Ok(()))
    } else {
        (st, Err(spec_configure_err(clock, sid, sfreq, target)))
    }
}

/// The configuration transition for a caller-supplied explicit divider: the
/// source must be a legal candidate and the divider in the legal range; the
/// cached frequency is the source frequency scaled by the divider.
pub open spec fn spec_configure_div(
    clock: ClockId,
    st: ClockState,
    sid: SourceId,
    sfreq: u32,
    divider: u32,
) -> (ClockState, Result<(), ClockError>) {
    if !spec_valid_source(clock, sid) {
        (st, Err(ClockError::InvalidSource))
    } else if !(1 <= divider <= MAX_DIVIDER) {
        (st, Err(ClockError::UnachievableFrequency))
    } else {
        (ClockState::Configured { source: sid, divider, freq_hz: sfreq / divider }, Ok(()))
    }
}

/// Validate a target-frequency request in full, before any state changes:
/// the accepted plan is the state the clock will take, or the error the
/// caller gets.
pub(crate) fn plan_configure<S: ClockSource>(clock: ClockId, src: &S, target: Hertz) -> (r:
    Result<ClockState, ClockError>)
    requires
        src.ready(),
    ensures
        spec_configure_ok(clock, src.source_id(), src.freq_hz(), target.spec_hz()) ==> r
            == Ok::<ClockState, ClockError>(
            spec_configured_state(src.source_id(), src.freq_hz(), target.spec_hz()),
        ),
        !spec_configure_ok(clock, src.source_id(), src.freq_hz(), target.spec_hz()) ==> r
            == Err::<ClockState, ClockError>(
            spec_configure_err(clock, src.source_id(), src.freq_hz(), target.spec_hz()),
        ),
        r matches Ok(st) ==> (st matches ClockState::Configured { source, divider, freq_hz }
            && source == src.source_id() && 1 <= divider <= MAX_DIVIDER && freq_hz
            == target.spec_hz()),
{
    let f = src.get_freq();
    let sid = src.id();
    if !is_valid_source(clock, sid) {
        return Err(ClockError::InvalidSource);
    }
    let divider = match resolve_divider(f, target) {
        Ok(d) => d,
        Err(e) => {
            return Err(e);
        },
    };
    Ok(ClockState::Configured { source: sid, divider, freq_hz: f.hz() / divider })
}

/// Validate an explicit-divider request in full, before any state changes.
pub(crate) fn plan_configure_div<S: ClockSource>(clock: ClockId, src: &S, divider: u32) -> (r:
    Result<ClockState, ClockError>)
    requires
        src.ready(),
    ensures
        ({
            let (st, res) = spec_configure_div(
                clock,
                ClockState::Unconfigured,
                src.source_id(),
                src.freq_hz(),
                divider,
            );
            match r {
                Ok(planned) => res is Ok && planned == st,
                Err(e) => res matches Err(e2) && e == e2,
            }
        }),
        r matches Ok(st) ==> (st matches ClockState::Configured { source, divider: d, freq_hz }
            && source == src.source_id() && 1 <= d <= MAX_DIVIDER && d == divider && freq_hz
            == src.freq_hz() / divider),
{
    let f = src.get_freq();
    let sid = src.id();
    if !is_valid_source(clock, sid) {
        return Err(ClockError::InvalidSource);
    }
    if divider == 0 || divider > MAX_DIVIDER {
        return Err(ClockError::UnachievableFrequency);
    }
    Ok(ClockState::Configured { source: sid, divider, freq_hz: f.hz() / divider })
}

/// Law: a request naming a source outside the candidate list fails with the
/// invalid-source error and leaves the prior configuration unchanged.
pub proof fn lemma_invalid_source_rejected(
    clock: ClockId,
    st: ClockState,
    sid: SourceId,
    sfreq: u32,
    target: u32,
)
    requires
        !spec_valid_source(clock, sid),
    ensures
        spec_configure(clock, st, sid, sfreq, target) == (
            st,
            Err::<(), ClockError>(ClockError::InvalidSource),
        ),
{
}

/// Law: a request whose target no legal divider can reach fails with the
/// unachievable-frequency error and leaves the prior configuration
/// unchanged.
pub proof fn lemma_unachievable_rejected(
    clock: ClockId,
    st: ClockState,
    sid: SourceId,
    sfreq: u32,
    target: u32,
)
    requires
        spec_valid_source(clock, sid),
        !spec_achievable(sfreq, target),
    ensures
        spec_configure(clock, st, sid, sfreq, target) == (
            st,
            Err::<(), ClockError>(ClockError::UnachievableFrequency),
        ),
{
}

/// Law: every legal (source, target) pair is accepted, and the cached
/// frequency the clock then reports is the source frequency scaled by the
/// chosen divider — which hits the requested target exactly.
pub proof fn lemma_legal_request_succeeds(
    clock: ClockId,
    st: ClockState,
    sid: SourceId,
    sfreq: u32,
    target: u32,
)
    requires
        spec_valid_source(clock, sid),
        spec_achievable(sfreq, target),
    ensures
        ({
            let (st2, res) = spec_configure(clock, st, sid, sfreq, target);
            &&& res is Ok
            &&& st2 == spec_configured_state(sid, sfreq, target)
            &&& st2 matches ClockState::Configured { source, divider, freq_hz }
                && source == sid && freq_hz == sfreq / divider && freq_hz == target
        }),
{
    let d = spec_divider_for(sfreq, target);
    lemma_fundamental_div_mod(sfreq as int, target as int);
    lemma_div_multiples_vanish(target as int, d as int);
}

/// Law: configuration is idempotent.  Re-running a request against the state
/// it produced yields the same state and the same outcome, whether the first
/// run was accepted or rejected.
pub proof fn lemma_configure_idempotent(
    clock: ClockId,
    st: ClockState,
    sid: SourceId,
    sfreq: u32,
    target: u32,
)
    ensures
        ({
            let (st1, r1) = spec_configure(clock, st, sid, sfreq, target);
            let (st2, r2) = spec_configure(clock, st1, sid, sfreq, target);
            st2 == st1 && r2 == r1
        }),
{
}

/// Law: idempotence for explicit-divider requests — re-running a request
/// with the same source and divider yields the same cached frequency and
/// changes nothing.
pub proof fn lemma_configure_div_idempotent(
    clock: ClockId,
    st: ClockState,
    sid: SourceId,
    sfreq: u32,
    divider: u32,
)
    ensures
        ({
            let (st1, r1) = spec_configure_div(clock, st, sid, sfreq, divider);
            let (st2, r2) = spec_configure_div(clock, st1, sid, sfreq, divider);
            st2 == st1 && r2 == r1
        }),
{
}

} // verus!
