//! Global constants of the synthesizer: key range, bus layout, sample rate,
//! and the fixed-point scales used throughout the engine.

use vstd::prelude::*;

verus! {

/// Lowest MIDI pitch with a physical key (A0 on an 88-key keyboard).
pub const BOTTOM_NOTE: u8 = 21;

/// Number of physical keys tracked by the voice manager.
pub const NUM_KEYS: usize = 88;

/// Number of audio buses in one bus set.
pub const AUDIO_BUS_LENGTH: usize = 16;

/// Bus that is copied to the hardware output.
pub const BUS_OUT: usize = 0;

/// Conventional bus for the not-yet-effected signal.
pub const BUS_DRY: usize = 1;

/// Sample rate of the audio backend, in frames per second.
pub const SAMPLE_RATE_HZ: u32 = 44_100;

/// Number of samples in one wavetable (one extra entry is appended for
/// interpolation wrap-around).
pub const TABLE_SIZE: usize = 512;

/// Fixed-point scale for amplitudes, gains and wavetable samples:
/// the representation of 1.0.
pub const FX_ONE: i64 = 1_000_000;

/// Largest magnitude an amplitude-scaled fixed-point value may take;
/// arithmetic saturates here instead of overflowing.
pub const FX_MAX: i64 = 1_000_000_000_000;

/// Times are counted in nanoseconds: the representation of one second.
pub const NS_PER_S: i64 = 1_000_000_000;

/// Upper bound on each ADSR phase length (1000 seconds).
pub const TIME_MAX: i64 = 1_000_000_000_000;

/// Envelope clocks saturate here, far beyond any phase length, so a held
/// note cannot overflow its timer.
pub const TIME_CAP: i64 = 1_000_000_000_000_000;

/// Upper bound on an oscillator frequency: one cycle per sample.
pub const FREQ_MAX: i64 = 44_100_000_000;

/// One tick at the nominal sample rate, in nanoseconds.
pub const TICK_NS: i64 = 22_676;

/// Upper bound on a tick length accepted by the envelope clock (one second).
pub const TICK_MAX: i64 = 1_000_000_000;

/// Number of instruments in the sequencer grid.
pub const SEQ_NUM_INSTRS: usize = 3;

/// Number of steps in the sequencer grid.
pub const SEQ_PATTERN_LEN: usize = 16;

/// Number of control-block slots in a freshly built state.
pub const NUM_CONTROL_BLOCKS: usize = 16;

/// Control-block slot that newly spawned drums read by convention.
pub const DEFAULT_DRUM_CONTROL_BLOCK: usize = 10;

/// Control-block slot that newly struck keyboard voices read by convention.
pub const DEFAULT_REASONABLE_CONTROL_BLOCK: usize = 0;

} // verus!
