//! A plain-data picture of the platform audio host: the input devices it
//! reports, their supported capture configurations, and the outcomes of the
//! stream operations one command may attempt. The worker's decision logic is
//! verified for every such picture; the unverified shell fills one in from
//! the live host before each command.

use vstd::prelude::*;

verus! {

/// The wire format a device delivers samples in. Anything the capture
/// pipeline cannot convert to 32-bit samples is `Other`.
#[derive(Debug, Clone, Copy, PartialEq, Eq, Structural)]
pub enum SampleFormat {
    F32,
    I16,
    U16,
    Other,
}

/// One concrete capture configuration: the format a session is opened with.
#[derive(Debug, Clone, Copy, PartialEq, Eq, Structural)]
pub struct CaptureConfig {
    pub sample_rate: u32,
    pub channels: u16,
    pub sample_format: SampleFormat,
}

/// One supported configuration family of a device: a fixed channel count and
/// sample format over a range of sample rates.
#[derive(Debug, Clone, Copy, PartialEq, Eq, Structural)]
pub struct ConfigRange {
    pub channels: u16,
    pub min_sample_rate: u32,
    pub max_sample_rate: u32,
    pub sample_format: SampleFormat,
}

/// What the host reports about one input device. The two `Result`s model
/// queries that the host may answer with an error message.
#[derive(Debug)]
pub struct DeviceSnapshot {
    /// The host-assigned display name; the only identity a device has.
    pub name: String,
    /// The supported input configurations, or the host's error text.
    pub supported: Result<Vec<ConfigRange>, String>,
    /// The device's default input configuration, or the host's error text.
    pub default_config: Result<CaptureConfig, String>,
}

/// Everything the platform audio host would answer during one command:
/// the device inventory and the outcomes of the stream operations the
/// command may attempt.
#[derive(Debug)]
pub struct HostSnapshot {
    /// The current input devices, or the enumeration error.
    pub devices: Result<Vec<DeviceSnapshot>, String>,
    /// The host's default input device, if it has one.
    pub default_device: Option<DeviceSnapshot>,
    /// What building an input stream on the resolved device would report.
    pub build_outcome: Result<(), String>,
    /// What starting the live stream would report.
    pub play_outcome: Result<(), String>,
}

impl HostSnapshot {
    /// A picture for commands that consult nothing of the host.
    pub fn unused() -> HostSnapshot {
        HostSnapshot {
            devices: Ok(Vec::new()),
            default_device: None,
            build_outcome: Ok(()),
            play_outcome: Ok(()),
        }
    }
}

} // verus!
