//! Wavetable synthesis core: one-period waveform tables and an oscillator
//! that reads them with a fixed-point phase accumulator and linear
//! interpolation.

pub mod oscillator;
pub mod table;

pub use oscillator::{OscillatorError, WaveTableOscillator};
pub use table::{build_square, FULL_SCALE};
