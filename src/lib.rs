//! Core of a hotkey-driven dictation tool: sample-rate conversion, the live
//! waveform window, PCM16 WAV framing, the session state machine, hotkey
//! debouncing and configuration resolution.
use vstd::prelude::*;

pub mod resample;
pub mod waveform;
pub mod wav;
pub mod session;
pub mod hotkey;
pub mod config;

verus! {

} // verus!
