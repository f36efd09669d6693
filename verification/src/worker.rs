//! The capture worker: at most one recording session, driven strictly
//! sequentially by commands. Every command handler is verified against
//! `worker_step`, the mathematical transition function of the worker, so the
//! protocol table (which command is answered with what, in which state)
//! holds for every reachable state and every answer the platform host can
//! give.

use crate::config::{get_optimal_config, spec_optimal_config};
use crate::device::{collect_device_names, device_names, find_device, spec_find_device};
use crate::host::{CaptureConfig, HostSnapshot, SampleFormat};
use crate::recording::{AudioRecording, RecordingModel};
use crate::text::{push_dec_u32, spec_dec_digits};
use crate::INITIAL_BUFFER_CAPACITY;
use vstd::prelude::*;
use vstd::string::StringExecFns;

verus! {

/// Commands that can be sent to the capture worker.
#[derive(Debug)]
pub enum AudioCommand {
    /// Report the current state of the recorder.
    GetRecorderState,
    /// Tear the worker down; terminal.
    CloseThread,
    /// List the available recording devices.
    EnumerateRecordingDevices,
    /// Open a recording session on the named device.
    InitRecordingSession(String),
    /// Close the current recording session, if any.
    CloseRecordingSession,
    /// Start capturing into a freshly cleared buffer.
    StartRecording,
    /// Stop capturing and hand the recorded audio out.
    StopRecording,
}

/// The mathematical shape of an `AudioCommand`.
pub enum CommandModel {
    GetRecorderState,
    CloseThread,
    EnumerateRecordingDevices,
    InitRecordingSession(Seq<char>),
    CloseRecordingSession,
    StartRecording,
    StopRecording,
}

impl View for AudioCommand {
    type V = CommandModel;

    open spec fn view(&self) -> CommandModel {
        match self {
            AudioCommand::GetRecorderState => CommandModel::GetRecorderState,
            AudioCommand::CloseThread => CommandModel::CloseThread,
            AudioCommand::EnumerateRecordingDevices => CommandModel::EnumerateRecordingDevices,
            AudioCommand::InitRecordingSession(name) => CommandModel::InitRecordingSession(name@),
            AudioCommand::CloseRecordingSession => CommandModel::CloseRecordingSession,
            AudioCommand::StartRecording => CommandModel::StartRecording,
            AudioCommand::StopRecording => CommandModel::StopRecording,
        }
    }
}

/// Responses from the capture worker; exactly one per command.
#[derive(Debug)]
pub enum AudioResponse {
    /// The available recording devices.
    RecordingDeviceList(Vec<String>),
    /// The recorded audio of one finished cycle.
    AudioData(AudioRecording),
    /// A device, configuration or stream failure, described.
    Error(String),
    /// Acknowledgement, described.
    Success(String),
}

/// The mathematical shape of an `AudioResponse`.
#[verifier::ext_equal]
pub enum ResponseModel {
    RecordingDeviceList(Seq<Seq<char>>),
    AudioData(RecordingModel),
    Error(Seq<char>),
    Success(Seq<char>),
}

impl View for AudioResponse {
    type V = ResponseModel;

    open spec fn view(&self) -> ResponseModel {
        match self {
            AudioResponse::RecordingDeviceList(v) => ResponseModel::RecordingDeviceList(
                v.deep_view(),
            ),
            AudioResponse::AudioData(rec) => ResponseModel::AudioData(rec@),
            AudioResponse::Error(e) => ResponseModel::Error(e@),
            AudioResponse::Success(m) => ResponseModel::Success(m@),
        }
    }
}

/// One open binding to an input device, across possibly many record cycles.
/// The live stream handle itself stays with the unverified shell; what the
/// engine owns is the capture format, the recording flag and the sample
/// buffer the capture callback appends to.
pub struct RecordingSession {
    /// Whether the capture callback may append; the sole gate on the buffer.
    pub is_recording: bool,
    /// Captured samples of the current cycle, as raw 32-bit encodings.
    pub audio_buffer: Vec<u32>,
    /// The sample rate the session was opened with, in hertz.
    pub sample_rate: u32,
    /// The channel count the session was opened with.
    pub channels: u16,
}

/// The mathematical shape of a `RecordingSession`.
#[verifier::ext_equal]
pub struct SessionModel {
    pub is_recording: bool,
    pub audio_buffer: Seq<u32>,
    pub sample_rate: u32,
    pub channels: u16,
}

impl View for RecordingSession {
    type V = SessionModel;

    open spec fn view(&self) -> SessionModel {
        SessionModel {
            is_recording: self.is_recording,
            audio_buffer: self.audio_buffer@,
            sample_rate: self.sample_rate,
            channels: self.channels,
        }
    }
}

/// The capture worker: owns at most one recording session.
pub struct AudioWorker {
    pub session: Option<RecordingSession>,
}

/// The mathematical shape of an `AudioWorker`.
#[verifier::ext_equal]
pub struct WorkerModel {
    pub session: Option<SessionModel>,
}

impl View for AudioWorker {
    type V = WorkerModel;

    open spec fn view(&self) -> WorkerModel {
        match &self.session {
            Some(s) => WorkerModel { session: Some(s@) },
            None => WorkerModel { session: None },
        }
    }
}

/// The observable state of the recorder, derived from the worker.
#[derive(Debug, Clone, Copy, PartialEq, Eq, Structural)]
pub enum RecorderState {
    /// No session exists.
    Idle,
    /// A session exists but is not recording.
    Session,
    /// A session exists and is recording.
    Recording,
}

/// Which observable state a worker is in.
pub open spec fn state_of(m: WorkerModel) -> RecorderState {
    match m.session {
        None => RecorderState::Idle,
        Some(s) => if s.is_recording {
            RecorderState::Recording
        } else {
            RecorderState::Session
        },
    }
}

/// The protocol label of each observable state.
pub open spec fn spec_state_label(s: RecorderState) -> Seq<char> {
    match s {
        RecorderState::Idle => "IDLE"@,
        RecorderState::Session => "SESSION"@,
        RecorderState::Recording => "RECORDING"@,
    }
}

/// The outcome of one worker step: the next worker, the response, and
/// whether the worker loop exits.
#[verifier::ext_equal]
pub struct StepModel {
    pub worker: WorkerModel,
    pub response: ResponseModel,
    pub exit: bool,
}

/// The acknowledgement sent for a successfully opened session; it names the
/// chosen sample rate and channel count.
pub open spec fn spec_init_success_message(c: CaptureConfig) -> Seq<char> {
    "Recording session initialized: "@ + spec_dec_digits(c.sample_rate as nat) + "Hz, "@
        + spec_dec_digits(c.channels as nat) + " channels"@
}

/// The configuration a session on the named device is opened with, or the
/// exact error text: device resolution, then configuration selection, then
/// the format check, then the host's stream-build outcome.
pub open spec fn spec_init_config(host: HostSnapshot, name: Seq<char>) -> Result<
    CaptureConfig,
    Seq<char>,
> {
    match spec_find_device(host, name) {
        Err(e) => Err(e),
        Ok(dev) => match spec_optimal_config(dev) {
            Err(e) => Err("Device '"@ + name + "' configuration error: "@ + e),
            Ok(c) => if c.sample_format is Other {
                Err("Unsupported sample format"@)
            } else {
                match host.build_outcome {
                    Ok(_) => Ok(c),
                    Err(e) => Err("Failed to build stream: "@ + e@),
                }
            },
        },
    }
}

/// `EnumerateRecordingDevices`: the device names, or the host's error;
/// the worker is untouched.
pub open spec fn enumerate_step(m: WorkerModel, host: HostSnapshot) -> StepModel {
    match host.devices {
        Ok(devs) => StepModel {
            worker: m,
            response: ResponseModel::RecordingDeviceList(device_names(devs@)),
            exit: false,
        },
        Err(e) => StepModel { worker: m, response: ResponseModel::Error(e@), exit: false },
    }
}

/// `InitRecordingSession`: any existing session is closed first; on success
/// a fresh session (not recording, empty buffer) replaces it, on failure no
/// session remains.
pub open spec fn init_step(m: WorkerModel, host: HostSnapshot, name: Seq<char>) -> StepModel {
    match spec_init_config(host, name) {
        Ok(c) => StepModel {
            worker: WorkerModel {
                session: Some(
                    SessionModel {
                        is_recording: false,
                        audio_buffer: Seq::empty(),
                        sample_rate: c.sample_rate,
                        channels: c.channels,
                    },
                ),
            },
            response: ResponseModel::Success(spec_init_success_message(c)),
            exit: false,
        },
        Err(e) => StepModel {
            worker: WorkerModel { session: None },
            response: ResponseModel::Error(e),
            exit: false,
        },
    }
}

/// `GetRecorderState`: reports the state label, transitions nothing.
pub open spec fn get_state_step(m: WorkerModel) -> StepModel {
    StepModel {
        worker: m,
        response: ResponseModel::Success(spec_state_label(state_of(m))),
        exit: false,
    }
}

/// `StartRecording`: without a session, an error and no transition. With
/// one, the buffer is cleared first in every outcome; the recording flag is
/// set only when the host starts the stream.
pub open spec fn start_step(m: WorkerModel, host: HostSnapshot) -> StepModel {
    match m.session {
        None => StepModel {
            worker: m,
            response: ResponseModel::Error("Recording session not initialized"@),
            exit: false,
        },
        Some(s) => {
            let cleared = SessionModel {
                is_recording: s.is_recording,
                audio_buffer: Seq::empty(),
                sample_rate: s.sample_rate,
                channels: s.channels,
            };
            match host.play_outcome {
                Ok(_) => StepModel {
                    worker: WorkerModel {
                        session: Some(SessionModel { is_recording: true, ..cleared }),
                    },
                    response: ResponseModel::Success("Recording started"@),
                    exit: false,
                },
                Err(e) => StepModel {
                    worker: WorkerModel { session: Some(cleared) },
                    response: ResponseModel::Error("Failed to start stream: "@ + e@),
                    exit: false,
                },
            }
        },
    }
}

/// `StopRecording`: without a session, an error and no transition. With
/// one, the recording flag is cleared before the buffer is read, and the
/// buffer's contents are handed out with the capture format; the buffer
/// itself is kept until the next start clears it.
pub open spec fn stop_step(m: WorkerModel) -> StepModel {
    match m.session {
        None => StepModel {
            worker: m,
            response: ResponseModel::Error("No active recording"@),
            exit: false,
        },
        Some(s) => StepModel {
            worker: WorkerModel {
                session: Some(SessionModel { is_recording: false, ..s }),
            },
            response: ResponseModel::AudioData(
                RecordingModel {
                    audio_data: s.audio_buffer,
                    sample_rate: s.sample_rate,
                    channels: s.channels,
                },
            ),
            exit: false,
        },
    }
}

/// `CloseRecordingSession`: drops the session if present; success either way.
pub open spec fn close_session_step(m: WorkerModel) -> StepModel {
    match m.session {
        Some(_) => StepModel {
            worker: WorkerModel { session: None },
            response: ResponseModel::Success("Recording session closed"@),
            exit: false,
        },
        None => StepModel {
            worker: m,
            response: ResponseModel::Success("No active session to close"@),
            exit: false,
        },
    }
}

/// `CloseThread`: drops any session, acknowledges, and exits the loop.
pub open spec fn close_thread_step(m: WorkerModel) -> StepModel {
    StepModel {
        worker: WorkerModel { session: None },
        response: ResponseModel::Success("Thread closed"@),
        exit: true,
    }
}

/// The transition function of the capture worker: one command consumed,
/// one response produced, against one picture of the platform host.
pub open spec fn worker_step(m: WorkerModel, cmd: CommandModel, host: HostSnapshot) -> StepModel {
    match cmd {
        CommandModel::GetRecorderState => get_state_step(m),
        CommandModel::CloseThread => close_thread_step(m),
        CommandModel::EnumerateRecordingDevices => enumerate_step(m, host),
        CommandModel::InitRecordingSession(name) => init_step(m, host, name),
        CommandModel::CloseRecordingSession => close_session_step(m),
        CommandModel::StartRecording => start_step(m, host),
        CommandModel::StopRecording => stop_step(m),
    }
}

/// What the capture callback does to the worker: when a session exists and
/// its recording flag is set, the delivered block is appended to the sample
/// buffer; in every other state the delivery is dropped.
pub open spec fn deliver_model(m: WorkerModel, block: Seq<u32>) -> WorkerModel {
    match m.session {
        Some(s) => if s.is_recording {
            WorkerModel {
                session: Some(SessionModel { audio_buffer: s.audio_buffer + block, ..s }),
            }
        } else {
            m
        },
        None => m,
    }
}

impl AudioWorker {
    /// A worker with no session: the recorder starts out `IDLE`.
    pub fn new() -> (r: AudioWorker)
        ensures
            r@.session is None,
    {
        AudioWorker { session: None }
    }

    /// Handles one command against the given picture of the platform host,
    /// returning the response and whether the worker loop exits. Refines
    /// `worker_step` exactly.
    pub fn handle_command(&mut self, cmd: &AudioCommand, host: &HostSnapshot) -> (r: (
        AudioResponse,
        bool,
    ))
        ensures
            final(self)@ == worker_step(old(self)@, cmd@, *host).worker,
            r.0@ == worker_step(old(self)@, cmd@, *host).response,
            r.1 == worker_step(old(self)@, cmd@, *host).exit,
    {
        match cmd {
            AudioCommand::EnumerateRecordingDevices => {
                let resp = match &host.devices {
                    Ok(devs) => AudioResponse::RecordingDeviceList(collect_device_names(devs)),
                    Err(e) => AudioResponse::Error(e.clone()),
                };
                proof {
                    assert(resp@ =~~= worker_step(old(self)@, cmd@, *host).response);
                }
                (resp, false)
            },
            AudioCommand::InitRecordingSession(device_name) => {
                // Any existing session is closed before the new one is tried.
                self.session = None;
                let dev = match find_device(host, device_name) {
                    Ok(d) => d,
                    Err(e) => {
                        return (AudioResponse::Error(e), false);
                    },
                };
                let config = match get_optimal_config(dev) {
                    Ok(c) => c,
                    Err(e) => {
                        let mut msg = String::from_str("Device '");
                        msg.append(device_name.as_str());
                        msg.append("' configuration error: ");
                        msg.append(e.as_str());
                        proof {
                            assert(msg@ =~= "Device '"@ + device_name@
                                + "' configuration error: "@ + e@);
                        }
                        return (AudioResponse::Error(msg), false);
                    },
                };
                let format_supported = match config.sample_format {
                    SampleFormat::Other => false,
                    _ => true,
                };
                if !format_supported {
                    return (
                        AudioResponse::Error(String::from_str("Unsupported sample format")),
                        false,
                    );
                }
                match &host.build_outcome {
                    Err(e) => {
                        let mut msg = String::from_str("Failed to build stream: ");
                        msg.append(e.as_str());
                        return (AudioResponse::Error(msg), false);
                    },
                    Ok(_) => {},
                }
                self.session = Some(
                    RecordingSession {
                        is_recording: false,
                        audio_buffer: Vec::new(),
                        sample_rate: config.sample_rate,
                        channels: config.channels,
                    },
                );
                let mut msg = String::from_str("Recording session initialized: ");
                push_dec_u32(&mut msg, config.sample_rate);
                msg.append("Hz, ");
                push_dec_u32(&mut msg, config.channels as u32);
                msg.append(" channels");
                proof {
                    assert(msg@ =~= spec_init_success_message(config));
                    assert(self@ =~~= worker_step(old(self)@, cmd@, *host).worker);
                }
                (AudioResponse::Success(msg), false)
            },
            AudioCommand::GetRecorderState => {
                let label = match &self.session {
                    Some(s) => if s.is_recording {
                        String::from_str("RECORDING")
                    } else {
                        String::from_str("SESSION")
                    },
                    None => String::from_str("IDLE"),
                };
                (AudioResponse::Success(label), false)
            },
            AudioCommand::StartRecording => {
                match &mut self.session {
                    Some(session) => {
                        // The buffer is cleared, and its capacity restored,
                        // before the stream is asked to run: the callback can
                        // never observe "recording" over a stale buffer.
                        session.audio_buffer.clear();
                        session.audio_buffer.reserve(INITIAL_BUFFER_CAPACITY);
                        match &host.play_outcome {
                            Ok(_) => {
                                session.is_recording = true;
                                (
                                    AudioResponse::Success(String::from_str("Recording started")),
                                    false,
                                )
                            },
                            Err(e) => {
                                let mut msg = String::from_str("Failed to start stream: ");
                                msg.append(e.as_str());
                                (AudioResponse::Error(msg), false)
                            },
                        }
                    },
                    None => (
                        AudioResponse::Error(
                            String::from_str("Recording session not initialized"),
                        ),
                        false,
                    ),
                }
            },
            AudioCommand::StopRecording => {
                match &mut self.session {
                    Some(session) => {
                        // The flag falls before the buffer is read, so no
                        // further capture lands in what is handed out.
                        session.is_recording = false;
                        let data = session.audio_buffer.clone();
                        proof {
                            assert forall|i: int|
                                0 <= i < data@.len() implies data@[i]
                                == session.audio_buffer@[i] by {
                                assert(cloned::<u32>(session.audio_buffer@[i], data@[i]));
                            }
                            assert(data@ =~= session.audio_buffer@);
                        }
                        let rec = AudioRecording {
                            audio_data: data,
                            sample_rate: session.sample_rate,
                            channels: session.channels,
                        };
                        (AudioResponse::AudioData(rec), false)
                    },
                    None => (
                        AudioResponse::Error(String::from_str("No active recording")),
                        false,
                    ),
                }
            },
            AudioCommand::CloseRecordingSession => {
                if self.session.is_some() {
                    self.session = None;
                    (
                        AudioResponse::Success(String::from_str("Recording session closed")),
                        false,
                    )
                } else {
                    (
                        AudioResponse::Success(String::from_str("No active session to close")),
                        false,
                    )
                }
            },
            AudioCommand::CloseThread => {
                self.session = None;
                (AudioResponse::Success(String::from_str("Thread closed")), true)
            },
        }
    }

    /// The capture callback's effect, as the engine sees it: the delivered
    /// block lands in the buffer exactly when a session exists and its
    /// recording flag is set. The real callback runs this append under the
    /// buffer lock on the platform's audio thread.
    pub fn deliver_input_block(&mut self, block: &[u32])
        ensures
            final(self)@ == deliver_model(old(self)@, block@),
    {
        match &mut self.session {
            Some(session) => {
                if session.is_recording {
                    session.audio_buffer.extend_from_slice(block);
                    proof {
                        assert forall|i: int|
                            0 <= i < session.audio_buffer@.len() implies session.audio_buffer@[i]
                            == (old(self)@.session->0.audio_buffer + block@)[i] by {
                            let prev = old(self)@.session->0.audio_buffer;
                            if i >= prev.len() {
                                assert(cloned::<u32>(
                                    block@[i - prev.len()],
                                    session.audio_buffer@[i],
                                ));
                            }
                        }
                        assert(session.audio_buffer@ =~= old(self)@.session->0.audio_buffer
                            + block@);
                    }
                }
            },
            None => {},
        }
        proof {
            assert(self@ =~~= deliver_model(old(self)@, block@));
        }
    }
}

} // verus!
