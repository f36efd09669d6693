//! The error taxonomy of the capture subsystem. Transport failures
//! (`SendError`, `ReceiveError`) are kept apart from application-level
//! `AudioError`s so a caller can tell "the engine is down" from "the
//! operation failed".

use vstd::prelude::*;
use vstd::string::StringExecFns;

verus! {

/// Everything a recorder operation can fail with.
#[derive(Debug)]
pub enum RecorderError {
    /// The worker was never started.
    ThreadNotInitialized,
    /// A command could not be handed to the worker.
    SendError(String),
    /// The worker's reply never arrived.
    ReceiveError(String),
    /// The worker reported a device, configuration or stream failure.
    AudioError(String),
    /// Start or stop was asked for while no recording session existed.
    NoActiveRecording,
    /// A lock on shared state could not be taken.
    LockError(String),
}

/// The mathematical shape of a `RecorderError`: the same variants over
/// character sequences.
pub enum RecorderErrorModel {
    ThreadNotInitialized,
    Send(Seq<char>),
    Receive(Seq<char>),
    Audio(Seq<char>),
    NoActiveRecording,
    Lock(Seq<char>),
}

impl View for RecorderError {
    type V = RecorderErrorModel;

    open spec fn view(&self) -> RecorderErrorModel {
        match self {
            RecorderError::ThreadNotInitialized => RecorderErrorModel::ThreadNotInitialized,
            RecorderError::SendError(e) => RecorderErrorModel::Send(e@),
            RecorderError::ReceiveError(e) => RecorderErrorModel::Receive(e@),
            RecorderError::AudioError(e) => RecorderErrorModel::Audio(e@),
            RecorderError::NoActiveRecording => RecorderErrorModel::NoActiveRecording,
            RecorderError::LockError(e) => RecorderErrorModel::Lock(e@),
        }
    }
}

/// The human-readable description of each error.
pub open spec fn spec_error_message(e: RecorderErrorModel) -> Seq<char> {
    match e {
        RecorderErrorModel::ThreadNotInitialized => "Audio thread not initialized"@,
        RecorderErrorModel::Send(d) => "Failed to send command: "@ + d,
        RecorderErrorModel::Receive(d) => "Failed to receive response: "@ + d,
        RecorderErrorModel::Audio(d) => "Audio error: "@ + d,
        RecorderErrorModel::NoActiveRecording => "No active recording"@,
        RecorderErrorModel::Lock(d) => "Failed to acquire lock: "@ + d,
    }
}

impl RecorderError {
    /// A descriptive message for the error, suitable for showing to a user.
    pub fn message(&self) -> (r: String)
        ensures
            r@ == spec_error_message(self@),
    {
        match self {
            RecorderError::ThreadNotInitialized => String::from_str("Audio thread not initialized"),
            RecorderError::SendError(e) => {
                let mut r = String::from_str("Failed to send command: ");
                r.append(e.as_str());
                r
            },
            RecorderError::ReceiveError(e) => {
                let mut r = String::from_str("Failed to receive response: ");
                r.append(e.as_str());
                r
            },
            RecorderError::AudioError(e) => {
                let mut r = String::from_str("Audio error: ");
                r.append(e.as_str());
                r
            },
            RecorderError::NoActiveRecording => String::from_str("No active recording"),
            RecorderError::LockError(e) => {
                let mut r = String::from_str("Failed to acquire lock: ");
                r.append(e.as_str());
                r
            },
        }
    }
}

} // verus!
