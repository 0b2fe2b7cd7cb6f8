//! Core of a polyphonic software synthesizer.
//!
//! MIDI note events and a step sequencer drive a graph of unit generators
//! ("ugens") — oscillator voices, envelopes, delay-line effects, gain and
//! metering nodes — that fill shared audio buses one block at a time.
//! Sample amplitudes and times are fixed-point integers (see [`fx`]), so the
//! whole signal path is plain integer arithmetic with proved contracts.

pub mod allpass;
pub mod consts;
pub mod delay;
pub mod drum;
pub mod envelope;
pub mod fx;
pub mod gain;
pub mod lowpass;
pub mod meter;
pub mod midi;
pub mod midi_manager;
pub mod notegen;
pub mod reasonable_synth;
pub mod reduce;
pub mod reverb;
pub mod sequencer;
pub mod rng;
pub mod state;
pub mod synth;
pub mod ugen;
pub mod ugen_group;
pub mod util;
pub mod wavetables;
