//! Clock-tree configuration for a small microcontroller.
//!
//! Oscillators, frequency synthesizers and external pin inputs are wrapped so
//! that each one exposes a single capability — "report your current output
//! frequency" — only once it has reached its ready state.  A fixed set of
//! named derived clocks selects among these sources through hardware-defined
//! candidate lists and an integer divider; the configuration engine validates
//! every request before it touches any state, so a failed request leaves the
//! previous configuration fully intact.

pub mod frequency;
pub mod source;
pub mod oscillators;
pub mod pll;
pub mod gpin;
pub mod mux;
pub mod configure;
pub mod clocks;
