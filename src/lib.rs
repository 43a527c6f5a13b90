//! A two-phase (work / break) countdown timer: the phase and pause state
//! machine, the manual adjustment of the countdown, and the helpers that turn
//! its values into what a small display shows.

pub mod clock;
pub mod laws;
pub mod display;
