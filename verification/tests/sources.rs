//! Tests of the oscillator, synthesizer and external-input wrappers.

use clock_tree::frequency::Hertz;
use clock_tree::gpin::{GpIn0, GpIn1};
use clock_tree::oscillators::{CrystalOscillator, LowPowerOscillator, RingOscillator, LOW_POWER_OSC_HZ};
use clock_tree::pll::{PhaseLockedLoop, PllDevice};
use clock_tree::source::{ClockSource, SourceId};

#[test]
fn crystal_reports_drive_frequency() {
    let xosc = CrystalOscillator::new(Hertz::from_hz(12_000_000)).stabilize();
    assert_eq!(xosc.operating_frequency().hz(), 12_000_000);
    assert_eq!(xosc.get_freq().hz(), 12_000_000);
    assert_eq!(xosc.id(), SourceId::Xosc);
}

#[test]
fn crystal_get_freq_is_pure() {
    let xosc = CrystalOscillator::new(Hertz::from_hz(12_000_000)).stabilize();
    let first = xosc.get_freq();
    let second = xosc.get_freq();
    assert_eq!(first.hz(), second.hz());
    assert_eq!(first, second);
}

#[test]
fn ring_oscillator_reports_nominal_frequency() {
    let rosc = RingOscillator::new(Hertz::from_hz(6_500_000)).enable();
    assert_eq!(rosc.operating_frequency().hz(), 6_500_000);
    assert_eq!(rosc.get_freq().hz(), 6_500_000);
    assert_eq!(rosc.id(), SourceId::Rosc);
}

#[test]
fn low_power_oscillator_is_fixed() {
    let lposc = LowPowerOscillator::new();
    assert_eq!(lposc.get_freq().hz(), LOW_POWER_OSC_HZ);
    assert_eq!(lposc.get_freq().hz(), 32_768);
    assert_eq!(lposc.id(), SourceId::LpOsc);
}

#[test]
fn pll_computes_output_from_reference_and_dividers() {
    // 12 MHz reference, feedback multiplier 125 -> 1500 MHz internal,
    // post-dividers 6 and 2 -> 125 MHz output.
    let pll = PhaseLockedLoop::new(PllDevice::Sys, Hertz::from_hz(12_000_000), 125, 6, 2).lock();
    assert_eq!(pll.operating_frequency().hz(), 125_000_000);
    assert_eq!(pll.get_freq().hz(), 125_000_000);
    assert_eq!(pll.id(), SourceId::PllSys);
}

#[test]
fn usb_pll_computes_48_megahertz() {
    // 12 MHz reference, feedback multiplier 100 -> 1200 MHz internal,
    // post-dividers 5 and 5 -> 48 MHz output.
    let pll = PhaseLockedLoop::new(PllDevice::Usb, Hertz::from_hz(12_000_000), 100, 5, 5).lock();
    assert_eq!(pll.operating_frequency().hz(), 48_000_000);
    assert_eq!(pll.id(), SourceId::PllUsb);
}

#[test]
fn pll_get_freq_is_pure() {
    let pll = PhaseLockedLoop::new(PllDevice::Sys, Hertz::from_hz(12_000_000), 125, 6, 2).lock();
    assert_eq!(pll.get_freq(), pll.get_freq());
}

#[test]
fn external_inputs_report_asserted_frequency_verbatim() {
    let gpin0 = GpIn0::new(Hertz::from_hz(1_000_000));
    let gpin1 = GpIn1::new(Hertz::from_hz(25_000_000));
    assert_eq!(gpin0.frequency().hz(), 1_000_000);
    assert_eq!(gpin0.get_freq().hz(), 1_000_000);
    assert_eq!(gpin1.get_freq().hz(), 25_000_000);
    assert_eq!(gpin0.id(), SourceId::GpIn0);
    assert_eq!(gpin1.id(), SourceId::GpIn1);
}

#[test]
fn frequency_arithmetic() {
    let f = Hertz::from_hz(12_000_000);
    assert_eq!(f.div(4).hz(), 3_000_000);
    assert_eq!(f.div(7).hz(), 1_714_285);
    assert_eq!(f.checked_mul(2).unwrap().hz(), 24_000_000);
    assert!(Hertz::from_hz(3_000_000_000).checked_mul(2).is_none());
    assert!(Hertz::from_hz(1_000).le(Hertz::from_hz(1_001)));
    assert!(!Hertz::from_hz(1_002).le(Hertz::from_hz(1_001)));
}
