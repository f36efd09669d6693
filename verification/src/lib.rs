//! Background audio capture for a dictation workflow: a device directory,
//! a voice-biased capture-configuration selector, a recording-session state
//! machine, and a command/response protocol that a control surface uses to
//! drive the capture worker.

pub mod config;
pub mod device;
pub mod error;
pub mod host;
pub mod laws;
pub mod manager;
pub mod recording;
pub mod text;
pub mod worker;

use vstd::prelude::*;

verus! {

/// Preferred sample rate for voice capture, in hertz.
pub const VOICE_SAMPLE_RATE: u32 = 16000;

/// Buffer capacity restored at every start: about two minutes of samples
/// at the voice rate, so capture does not reallocate mid-recording.
pub const INITIAL_BUFFER_CAPACITY: usize = 16000 * 120;

} // verus!
