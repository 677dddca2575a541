//! Tests of the configuration engine: candidate lists and divider
//! resolution.

use clock_tree::configure::{is_valid_source, resolve_divider, ClockError, ClockId, MAX_DIVIDER};
use clock_tree::frequency::Hertz;
use clock_tree::source::SourceId;

#[test]
fn divider_resolution_exact() {
    assert_eq!(
        resolve_divider(Hertz::from_hz(12_000_000), Hertz::from_hz(1_000_000)),
        Ok(12)
    );
    assert_eq!(
        resolve_divider(Hertz::from_hz(12_000_000), Hertz::from_hz(12_000_000)),
        Ok(1)
    );
    assert_eq!(
        resolve_divider(Hertz::from_hz(125_000_000), Hertz::from_hz(25_000_000)),
        Ok(5)
    );
}

#[test]
fn divider_resolution_rejects_zero_target() {
    assert_eq!(
        resolve_divider(Hertz::from_hz(12_000_000), Hertz::from_hz(0)),
        Err(ClockError::UnachievableFrequency)
    );
}

#[test]
fn divider_resolution_rejects_target_above_source() {
    assert_eq!(
        resolve_divider(Hertz::from_hz(12_000_000), Hertz::from_hz(12_000_001)),
        Err(ClockError::UnachievableFrequency)
    );
}

#[test]
fn divider_resolution_rejects_inexact_target() {
    // 12 MHz / 5 MHz is not an integer ratio.
    assert_eq!(
        resolve_divider(Hertz::from_hz(12_000_000), Hertz::from_hz(5_000_000)),
        Err(ClockError::UnachievableFrequency)
    );
}

#[test]
fn divider_resolution_respects_divider_cap() {
    // The largest legal divider is accepted ...
    assert_eq!(
        resolve_divider(Hertz::from_hz(MAX_DIVIDER), Hertz::from_hz(1)),
        Ok(MAX_DIVIDER)
    );
    // ... and one past it is not.
    assert_eq!(
        resolve_divider(Hertz::from_hz(MAX_DIVIDER + 1), Hertz::from_hz(1)),
        Err(ClockError::UnachievableFrequency)
    );
}

#[test]
fn system_clock_candidate_list() {
    assert!(is_valid_source(ClockId::System, SourceId::ReferenceClock));
    assert!(is_valid_source(ClockId::System, SourceId::PllSys));
    assert!(is_valid_source(ClockId::System, SourceId::PllUsb));
    assert!(is_valid_source(ClockId::System, SourceId::Xosc));
    assert!(is_valid_source(ClockId::System, SourceId::Rosc));
    assert!(is_valid_source(ClockId::System, SourceId::GpIn0));
    assert!(is_valid_source(ClockId::System, SourceId::GpIn1));
    assert!(!is_valid_source(ClockId::System, SourceId::UsbClock));
    assert!(!is_valid_source(ClockId::System, SourceId::SystemClock));
    assert!(!is_valid_source(ClockId::System, SourceId::LpOsc));
}

#[test]
fn reference_clock_candidate_list() {
    assert!(is_valid_source(ClockId::Reference, SourceId::Rosc));
    assert!(is_valid_source(ClockId::Reference, SourceId::Xosc));
    assert!(is_valid_source(ClockId::Reference, SourceId::LpOsc));
    assert!(is_valid_source(ClockId::Reference, SourceId::PllUsb));
    assert!(!is_valid_source(ClockId::Reference, SourceId::PllSys));
    assert!(!is_valid_source(ClockId::Reference, SourceId::SystemClock));
}

#[test]
fn auxiliary_clock_candidate_lists() {
    assert!(is_valid_source(ClockId::Peripheral, SourceId::SystemClock));
    assert!(!is_valid_source(ClockId::Peripheral, SourceId::LpOsc));
    assert!(is_valid_source(ClockId::Usb, SourceId::PllUsb));
    assert!(!is_valid_source(ClockId::Usb, SourceId::SystemClock));
    assert!(is_valid_source(ClockId::Adc, SourceId::PllUsb));
    assert!(!is_valid_source(ClockId::Adc, SourceId::ReferenceClock));
    assert!(is_valid_source(ClockId::Hstx, SourceId::SystemClock));
    assert!(!is_valid_source(ClockId::Hstx, SourceId::Xosc));
}
