//! A SoundFont synthesizer's decisions, verified: fonts and presets, MIDI
//! channels and their controllers, note-on plans, the voice pool, tunings.

pub mod types;
pub mod generator;
pub mod modulator;
pub mod voice;
pub mod soundfont;
pub mod loader;
pub mod noteon;
pub mod channel;
pub mod font_bank;
pub mod tuning;
pub mod synth;
pub mod voice_pool;
pub mod laws;
pub mod chorus;
