//! Tests of the derived clocks and the clock-tree manager.

use clock_tree::clocks::ClocksManager;
use clock_tree::configure::ClockError;
use clock_tree::frequency::Hertz;
use clock_tree::gpin::GpIn0;
use clock_tree::oscillators::CrystalOscillator;
use clock_tree::pll::{PhaseLockedLoop, PllDevice};
use clock_tree::source::{ClockSource, SourceId};

#[test]
fn external_input_drives_system_clock() {
    // External pin input asserted at 1 MHz; system clock selects it with
    // divider 1.
    let gpin0 = GpIn0::new(Hertz::from_hz(1_000_000));
    let mut clocks = ClocksManager::new();
    let r = clocks.system_clock.configure_with_divider(&gpin0, 1);
    assert_eq!(r, Ok(()));
    assert_eq!(clocks.system_clock.get_freq().hz(), 1_000_000);
    assert_eq!(
        clocks.system_clock.current_config(),
        Some((SourceId::GpIn0, 1))
    );
}

#[test]
fn crystal_drives_reference_clock() {
    // Crystal oscillator stable at 12 MHz; reference clock selects it with
    // divider 1.
    let xosc = CrystalOscillator::new(Hertz::from_hz(12_000_000)).stabilize();
    let mut clocks = ClocksManager::new();
    let r = clocks.reference_clock.configure_with_divider(&xosc, 1);
    assert_eq!(r, Ok(()));
    assert_eq!(clocks.reference_clock.get_freq().hz(), 12_000_000);
}

#[test]
fn system_clock_switches_from_pll_to_crystal() {
    // Locked system synthesizer at 125 MHz drives the system clock; a later
    // switch to the 12 MHz crystal replaces the frequency in one step, with
    // no zero or garbage value readable between the two configurations.
    let pll = PhaseLockedLoop::new(PllDevice::Sys, Hertz::from_hz(12_000_000), 125, 6, 2).lock();
    let xosc = CrystalOscillator::new(Hertz::from_hz(12_000_000)).stabilize();
    let mut clocks = ClocksManager::new();

    assert_eq!(clocks.system_clock.configure_with_divider(&pll, 1), Ok(()));
    assert_eq!(clocks.system_clock.get_freq().hz(), 125_000_000);

    assert_eq!(clocks.system_clock.configure_with_divider(&xosc, 1), Ok(()));
    assert_eq!(clocks.system_clock.get_freq().hz(), 12_000_000);
    assert_eq!(
        clocks.system_clock.current_config(),
        Some((SourceId::Xosc, 1))
    );
}

#[test]
fn invalid_source_is_rejected_and_state_kept() {
    // The USB clock may not select the system clock; the failed request
    // leaves the prior source, divider and frequency readable and unchanged.
    let usb_pll = PhaseLockedLoop::new(PllDevice::Usb, Hertz::from_hz(12_000_000), 100, 5, 5).lock();
    let gpin0 = GpIn0::new(Hertz::from_hz(1_000_000));
    let mut clocks = ClocksManager::new();

    assert_eq!(
        clocks.usb_clock.configure_clock(&usb_pll, Hertz::from_hz(48_000_000)),
        Ok(())
    );
    assert_eq!(clocks.system_clock.configure_with_divider(&gpin0, 1), Ok(()));

    let sys = clocks.system_clock;
    let r = clocks.usb_clock.configure_clock(&sys, Hertz::from_hz(1_000_000));
    assert_eq!(r, Err(ClockError::InvalidSource));
    assert_eq!(clocks.usb_clock.get_freq().hz(), 48_000_000);
    assert_eq!(
        clocks.usb_clock.current_config(),
        Some((SourceId::PllUsb, 1))
    );
}

#[test]
fn invalid_source_rejected_on_unconfigured_clock() {
    // A derived clock that was never configured stays unconfigured after a
    // rejected request.
    let lposc = clock_tree::oscillators::LowPowerOscillator::new();
    let mut clocks = ClocksManager::new();
    let r = clocks.peripheral_clock.configure_clock(&lposc, Hertz::from_hz(32_768));
    assert_eq!(r, Err(ClockError::InvalidSource));
    assert_eq!(clocks.peripheral_clock.current_config(), None);
}

#[test]
fn unachievable_frequency_is_rejected_and_state_kept() {
    let xosc = CrystalOscillator::new(Hertz::from_hz(12_000_000)).stabilize();
    let mut clocks = ClocksManager::new();
    assert_eq!(
        clocks.peripheral_clock.configure_clock(&xosc, Hertz::from_hz(12_000_000)),
        Ok(())
    );

    // 12 MHz cannot be divided down to 5 MHz by an integer divider.
    let r = clocks.peripheral_clock.configure_clock(&xosc, Hertz::from_hz(5_000_000));
    assert_eq!(r, Err(ClockError::UnachievableFrequency));
    assert_eq!(clocks.peripheral_clock.get_freq().hz(), 12_000_000);
    assert_eq!(
        clocks.peripheral_clock.current_config(),
        Some((SourceId::Xosc, 1))
    );

    // A target above the source frequency is unreachable too.
    let r2 = clocks.peripheral_clock.configure_clock(&xosc, Hertz::from_hz(24_000_000));
    assert_eq!(r2, Err(ClockError::UnachievableFrequency));
    assert_eq!(clocks.peripheral_clock.get_freq().hz(), 12_000_000);
}

#[test]
fn divider_out_of_range_is_rejected() {
    let xosc = CrystalOscillator::new(Hertz::from_hz(12_000_000)).stabilize();
    let mut clocks = ClocksManager::new();
    assert_eq!(
        clocks.adc_clock.configure_with_divider(&xosc, 0),
        Err(ClockError::UnachievableFrequency)
    );
    assert_eq!(
        clocks.adc_clock.configure_with_divider(&xosc, 65_536),
        Err(ClockError::UnachievableFrequency)
    );
    assert_eq!(clocks.adc_clock.current_config(), None);
    assert_eq!(clocks.adc_clock.configure_with_divider(&xosc, 65_535), Ok(()));
    assert_eq!(clocks.adc_clock.get_freq().hz(), 12_000_000 / 65_535);
}

#[test]
fn reconfiguration_is_idempotent() {
    // The same source and divider, applied twice, yield the same cached
    // frequency and the same recorded configuration.
    let xosc = CrystalOscillator::new(Hertz::from_hz(12_000_000)).stabilize();
    let mut clocks = ClocksManager::new();

    assert_eq!(clocks.reference_clock.configure_with_divider(&xosc, 4), Ok(()));
    let freq_first = clocks.reference_clock.get_freq();
    let config_first = clocks.reference_clock.current_config();

    assert_eq!(clocks.reference_clock.configure_with_divider(&xosc, 4), Ok(()));
    assert_eq!(clocks.reference_clock.get_freq(), freq_first);
    assert_eq!(clocks.reference_clock.current_config(), config_first);
    assert_eq!(freq_first.hz(), 3_000_000);
}

#[test]
fn target_frequency_solves_for_divider() {
    // A legal (source, target) pair is accepted and the cached frequency is
    // the source frequency divided by the chosen divider.
    let xosc = CrystalOscillator::new(Hertz::from_hz(12_000_000)).stabilize();
    let mut clocks = ClocksManager::new();
    assert_eq!(
        clocks.peripheral_clock.configure_clock(&xosc, Hertz::from_hz(3_000_000)),
        Ok(())
    );
    assert_eq!(clocks.peripheral_clock.get_freq().hz(), 3_000_000);
    assert_eq!(
        clocks.peripheral_clock.current_config(),
        Some((SourceId::Xosc, 4))
    );
}

#[test]
fn derived_clock_feeds_another_clock() {
    // The reference clock, once configured, is itself a clock source the
    // system clock may select.
    let xosc = CrystalOscillator::new(Hertz::from_hz(12_000_000)).stabilize();
    let mut clocks = ClocksManager::new();
    assert_eq!(clocks.reference_clock.configure_with_divider(&xosc, 1), Ok(()));

    let reference = clocks.reference_clock;
    assert_eq!(
        clocks.system_clock.configure_clock(&reference, Hertz::from_hz(6_000_000)),
        Ok(())
    );
    assert_eq!(clocks.system_clock.get_freq().hz(), 6_000_000);
    assert_eq!(
        clocks.system_clock.current_config(),
        Some((SourceId::ReferenceClock, 2))
    );

    // And the system clock in turn feeds the high-speed transmit clock.
    let system = clocks.system_clock;
    assert_eq!(clocks.hstx_clock.configure_with_divider(&system, 3), Ok(()));
    assert_eq!(clocks.hstx_clock.get_freq().hz(), 2_000_000);
}

#[test]
fn fresh_manager_reports_no_configuration() {
    let clocks = ClocksManager::new();
    assert_eq!(clocks.system_clock.current_config(), None);
    assert_eq!(clocks.reference_clock.current_config(), None);
    assert_eq!(clocks.peripheral_clock.current_config(), None);
    assert_eq!(clocks.usb_clock.current_config(), None);
    assert_eq!(clocks.adc_clock.current_config(), None);
    assert_eq!(clocks.hstx_clock.current_config(), None);
}
