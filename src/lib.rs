//! A polyphonic synthesis engine: a fixed bank of generators (oscillators and
//! sample players), a mixer that sums them into clipped PCM frames, and the
//! playback state machine around them. All arithmetic is fixed-point: frequencies
//! in millihertz, amplitudes and duty cycles per-mille, phases in whole units of
//! `1 / (1000 * sample_rate)` of a cycle.

pub mod engine;
pub mod generator;
pub mod laws;
pub mod mixer;
pub mod pcm;

pub use engine::{EngineState, Poly, PolyError};
pub use generator::{poly_wavetype, Generator, AMP_ONE, DUTY_ONE, MAX_RATE, MAX_TABLE, WAVE_ONE};
pub use mixer::CLIP_MAX;
pub use pcm::encode_pcm;
