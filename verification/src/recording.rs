//! The output artifact of one recording cycle: the captured samples and the
//! format they were captured in. A sample is carried as its raw 32-bit
//! encoding; the capture engine buffers and counts samples but never
//! interprets their values.

use vstd::prelude::*;

verus! {

/// An immutable snapshot of one finished recording cycle.
#[derive(Debug, Clone)]
pub struct AudioRecording {
    /// The captured samples, in delivery order, as raw 32-bit encodings.
    pub audio_data: Vec<u32>,
    /// The sample rate the session was opened with, in hertz.
    pub sample_rate: u32,
    /// The channel count the session was opened with.
    pub channels: u16,
}

/// The mathematical shape of an `AudioRecording`.
#[verifier::ext_equal]
pub struct RecordingModel {
    pub audio_data: Seq<u32>,
    pub sample_rate: u32,
    pub channels: u16,
}

impl View for AudioRecording {
    type V = RecordingModel;

    open spec fn view(&self) -> RecordingModel {
        RecordingModel {
            audio_data: self.audio_data@,
            sample_rate: self.sample_rate,
            channels: self.channels,
        }
    }
}

/// The exact duration of a recording in whole microseconds:
/// `samples / (rate * channels)` seconds, scaled and truncated.
pub open spec fn spec_duration_micros(r: RecordingModel) -> int {
    (r.audio_data.len() * 1000000) as int / (r.sample_rate as int * r.channels as int)
}

impl AudioRecording {
    /// The duration of the recording in whole microseconds, derived from
    /// the sample count and the capture format; `None` when the format
    /// reports a zero rate or channel count.
    pub fn duration_micros(&self) -> (r: Option<u128>)
        ensures
            self.sample_rate * self.channels > 0 ==> r == Some(
                spec_duration_micros(self@) as u128,
            ),
            self.sample_rate * self.channels == 0 ==> r is None,
    {
        proof {
            assert((self.sample_rate as int) * (self.channels as int) <= 0xffff_ffff * 0xffff)
                by (nonlinear_arith)
                requires
                    self.sample_rate <= 0xffff_ffffu32,
                    self.channels <= 0xffffu16,
            ;
        }
        let denom: u64 = (self.sample_rate as u64) * (self.channels as u64);
        if denom == 0 {
            None
        } else {
            let scaled: u128 = (self.audio_data.len() as u128) * 1000000;
            Some(scaled / (denom as u128))
        }
    }
}

} // verus!
