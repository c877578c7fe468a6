//! Verified core of an audio latency tester: configuration values, WAV
//! format checks, the playback engine that the audio backends drive, the
//! node-latency text used with PipeWire, and the trigger that turns key
//! presses into playback commands.
use vstd::prelude::*;

pub mod actor;
pub mod audio;
pub mod config;
pub mod decimal;
pub mod error;
pub mod sample;
pub mod trigger;

verus! {

} // verus!
