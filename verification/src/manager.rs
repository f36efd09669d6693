//! The control-thread facade. It lazily brings the capture worker up on
//! first use, hands it one command per operation, and maps each protocol
//! response to a typed result. Every operation is verified against the
//! worker's transition function, so what a caller gets back is pinned for
//! every reachable state and every answer the platform host can give.

use crate::device::{DeviceInfo, DeviceInfoModel};
use crate::error::{RecorderError, RecorderErrorModel};
use crate::host::HostSnapshot;
use crate::recording::{AudioRecording, RecordingModel};
use crate::worker::{
    close_session_step, close_thread_step, get_state_step, stop_step, worker_step, AudioCommand,
    AudioResponse, AudioWorker, CommandModel, ResponseModel, WorkerModel,
};
use vstd::prelude::*;
use vstd::string::StringExecFns;

verus! {

/// The facade owned by the control thread.
pub struct AudioManager {
    /// The worker, once one has been started.
    pub worker: Option<AudioWorker>,
    /// The facade's own record of whether a recording is running.
    pub is_recording: bool,
}

/// The mathematical shape of an `AudioManager`.
#[verifier::ext_equal]
pub struct ManagerModel {
    pub worker: Option<WorkerModel>,
    pub is_recording: bool,
}

impl View for AudioManager {
    type V = ManagerModel;

    open spec fn view(&self) -> ManagerModel {
        match &self.worker {
            Some(w) => ManagerModel { worker: Some(w@), is_recording: self.is_recording },
            None => ManagerModel { worker: None, is_recording: self.is_recording },
        }
    }
}

/// The worker an operation runs against: the existing one, or the fresh
/// worker that lazy initialization brings up.
pub open spec fn effective_worker(m: ManagerModel) -> WorkerModel {
    match m.worker {
        Some(w) => w,
        None => WorkerModel { session: None },
    }
}

/// How an acknowledgement-style response maps to a typed result.
pub open spec fn ack_result(resp: ResponseModel) -> Result<(), RecorderErrorModel> {
    match resp {
        ResponseModel::Success(_) => Ok(()),
        ResponseModel::Error(e) => Err(RecorderErrorModel::Audio(e)),
        _ => Err(RecorderErrorModel::Audio("Unexpected response"@)),
    }
}

/// The device list entries built from the reported names: the host gives no
/// identity beyond the display name, so both fields carry it.
pub open spec fn device_infos_of(names: Seq<Seq<char>>) -> Seq<DeviceInfoModel> {
    names.map_values(|n: Seq<char>| DeviceInfoModel { device_id: n, label: n })
}

/// How the enumeration response maps to a typed result.
pub open spec fn device_list_result(resp: ResponseModel) -> Result<
    Seq<DeviceInfoModel>,
    RecorderErrorModel,
> {
    match resp {
        ResponseModel::RecordingDeviceList(names) => Ok(device_infos_of(names)),
        ResponseModel::Error(e) => Err(RecorderErrorModel::Audio(e)),
        _ => Err(RecorderErrorModel::Audio("Unexpected response"@)),
    }
}

/// How the state-query response maps to a typed result.
pub open spec fn state_result(resp: ResponseModel) -> Result<Seq<char>, RecorderErrorModel> {
    match resp {
        ResponseModel::Success(label) => Ok(label),
        ResponseModel::Error(e) => Err(RecorderErrorModel::Audio(e)),
        _ => Err(RecorderErrorModel::Audio("Unexpected response"@)),
    }
}

/// How the stop response maps to a typed result carrying the recording.
pub open spec fn audio_result(resp: ResponseModel) -> Result<RecordingModel, RecorderErrorModel> {
    match resp {
        ResponseModel::AudioData(rec) => Ok(rec),
        ResponseModel::Error(e) => Err(RecorderErrorModel::Audio(e)),
        _ => Err(RecorderErrorModel::Audio("Unexpected response"@)),
    }
}

/// How the stop response maps when the captured audio is discarded.
pub open spec fn cancel_result(resp: ResponseModel) -> Result<(), RecorderErrorModel> {
    match resp {
        ResponseModel::AudioData(_) => Ok(()),
        ResponseModel::Error(e) => Err(RecorderErrorModel::Audio(e)),
        _ => Err(RecorderErrorModel::Audio("Unexpected response"@)),
    }
}

/// A unit result, reduced to its mathematical shape.
pub open spec fn result_ack_model(r: Result<(), RecorderError>) -> Result<
    (),
    RecorderErrorModel,
> {
    match r {
        Ok(_) => Ok(()),
        Err(e) => Err(e@),
    }
}

/// A device-list result, reduced to its mathematical shape.
pub open spec fn result_devices_model(r: Result<Vec<DeviceInfo>, RecorderError>) -> Result<
    Seq<DeviceInfoModel>,
    RecorderErrorModel,
> {
    match r {
        Ok(v) => Ok(v.deep_view()),
        Err(e) => Err(e@),
    }
}

/// A state-label result, reduced to its mathematical shape.
pub open spec fn result_state_model(r: Result<String, RecorderError>) -> Result<
    Seq<char>,
    RecorderErrorModel,
> {
    match r {
        Ok(s) => Ok(s@),
        Err(e) => Err(e@),
    }
}

/// A recording result, reduced to its mathematical shape.
pub open spec fn result_recording_model(r: Result<AudioRecording, RecorderError>) -> Result<
    RecordingModel,
    RecorderErrorModel,
> {
    match r {
        Ok(rec) => Ok(rec@),
        Err(e) => Err(e@),
    }
}

impl AudioManager {
    /// A facade with no worker yet; the worker comes up on first use.
    pub fn new() -> (r: AudioManager)
        ensures
            r@.worker is None,
            !r@.is_recording,
    {
        AudioManager { worker: None, is_recording: false }
    }

    /// Brings the worker up if none is running yet; an existing worker is
    /// kept as it is.
    pub fn ensure_initialized(&mut self) -> (r: Result<(), RecorderError>)
        ensures
            r is Ok,
            final(self)@.worker == Some(effective_worker(old(self)@)),
            final(self)@.is_recording == old(self)@.is_recording,
    {
        if self.worker.is_none() {
            self.worker = Some(AudioWorker::new());
        }
        Ok(())
    }

    /// Lists the recording devices the host reports, each name serving as
    /// both identifier and label.
    pub fn enumerate_recording_devices(&mut self, host: &HostSnapshot) -> (r: Result<
        Vec<DeviceInfo>,
        RecorderError,
    >)
        ensures
            ({
                let step = worker_step(
                    effective_worker(old(self)@),
                    CommandModel::EnumerateRecordingDevices,
                    *host,
                );
                &&& final(self)@.worker == Some(step.worker)
                &&& final(self)@.is_recording == old(self)@.is_recording
                &&& result_devices_model(r) == device_list_result(step.response)
            }),
    {
        self.ensure_initialized()?;
        let worker = match &mut self.worker {
            Some(w) => w,
            None => {
                return Err(RecorderError::ThreadNotInitialized);
            },
        };
        let (resp, _exit) = worker.handle_command(
            &AudioCommand::EnumerateRecordingDevices,
            host,
        );
        match resp {
            AudioResponse::RecordingDeviceList(names) => {
                let mut out: Vec<DeviceInfo> = Vec::new();
                let mut i: usize = 0;
                while i < names.len()
                    invariant
                        i <= names.len(),
                        out.deep_view() =~= device_infos_of(names.deep_view().take(i as int)),
                    decreases names.len() - i,
                {
                    let ghost prev = out;
                    out.push(
                        DeviceInfo { device_id: names[i].clone(), label: names[i].clone() },
                    );
                    proof {
                        let infos = device_infos_of(names.deep_view());
                        assert(prev.deep_view() =~= device_infos_of(
                            names.deep_view().take(i as int),
                        ));
                        assert(prev.deep_view().len() == i as int);
                        assert(prev@.len() == i as int);
                        assert forall|j: int|
                            0 <= j < i as int + 1 implies #[trigger] out.deep_view()[j]
                            == device_infos_of(names.deep_view().take(i as int + 1))[j] by {
                            assert(out.deep_view()[j] == out@[j]@);
                            if j < i as int {
                                assert(out@[j] == prev@[j]);
                                assert(prev.deep_view()[j] == prev@[j]@);
                                assert(prev.deep_view()[j] == device_infos_of(
                                    names.deep_view().take(i as int),
                                )[j]);
                            }
                            assert(names.deep_view()[j] == names@[j]@);
                        }
                        assert(out.deep_view() =~= device_infos_of(
                            names.deep_view().take(i as int + 1),
                        ));
                    }
                    i += 1;
                }
                proof {
                    assert(names.deep_view().take(names@.len() as int) =~= names.deep_view());
                }
                Ok(out)
            },
            AudioResponse::Error(e) => Err(RecorderError::AudioError(e)),
            _ => Err(RecorderError::AudioError(String::from_str("Unexpected response"))),
        }
    }

    /// Opens a recording session on the named device, replacing any
    /// existing session.
    pub fn init_recording_session(&mut self, device_name: String, host: &HostSnapshot) -> (r:
        Result<(), RecorderError>)
        ensures
            ({
                let step = worker_step(
                    effective_worker(old(self)@),
                    CommandModel::InitRecordingSession(device_name@),
                    *host,
                );
                &&& final(self)@.worker == Some(step.worker)
                &&& final(self)@.is_recording == old(self)@.is_recording
                &&& result_ack_model(r) == ack_result(step.response)
            }),
    {
        self.ensure_initialized()?;
        let worker = match &mut self.worker {
            Some(w) => w,
            None => {
                return Err(RecorderError::ThreadNotInitialized);
            },
        };
        let cmd = AudioCommand::InitRecordingSession(device_name);
        let (resp, _exit) = worker.handle_command(&cmd, host);
        match resp {
            AudioResponse::Success(_) => Ok(()),
            AudioResponse::Error(e) => Err(RecorderError::AudioError(e)),
            _ => Err(RecorderError::AudioError(String::from_str("Unexpected response"))),
        }
    }

    /// Closes the current recording session; succeeds whether or not one
    /// existed.
    pub fn close_recording_session(&mut self) -> (r: Result<(), RecorderError>)
        ensures
            ({
                let step = close_session_step(effective_worker(old(self)@));
                &&& final(self)@.worker == Some(step.worker)
                &&& result_ack_model(r) == ack_result(step.response)
                &&& final(self)@.is_recording == (if r is Ok {
                    false
                } else {
                    old(self)@.is_recording
                })
            }),
    {
        self.ensure_initialized()?;
        let worker = match &mut self.worker {
            Some(w) => w,
            None => {
                return Err(RecorderError::ThreadNotInitialized);
            },
        };
        let host = HostSnapshot::unused();
        let (resp, _exit) = worker.handle_command(&AudioCommand::CloseRecordingSession, &host);
        match resp {
            AudioResponse::Success(_) => {
                self.is_recording = false;
                Ok(())
            },
            AudioResponse::Error(e) => Err(RecorderError::AudioError(e)),
            _ => Err(RecorderError::AudioError(String::from_str("Unexpected response"))),
        }
    }

    /// Reports the recorder's observable state: `IDLE`, `SESSION` or
    /// `RECORDING`.
    pub fn get_recorder_state(&mut self) -> (r: Result<String, RecorderError>)
        ensures
            ({
                let step = get_state_step(effective_worker(old(self)@));
                &&& final(self)@.worker == Some(step.worker)
                &&& final(self)@.is_recording == old(self)@.is_recording
                &&& result_state_model(r) == state_result(step.response)
            }),
    {
        self.ensure_initialized()?;
        let worker = match &mut self.worker {
            Some(w) => w,
            None => {
                return Err(RecorderError::ThreadNotInitialized);
            },
        };
        let host = HostSnapshot::unused();
        let (resp, _exit) = worker.handle_command(&AudioCommand::GetRecorderState, &host);
        match resp {
            AudioResponse::Success(label) => Ok(label),
            AudioResponse::Error(e) => Err(RecorderError::AudioError(e)),
            _ => Err(RecorderError::AudioError(String::from_str("Unexpected response"))),
        }
    }

    /// Starts capturing into a freshly cleared buffer.
    pub fn start_recording(&mut self, host: &HostSnapshot) -> (r: Result<(), RecorderError>)
        ensures
            ({
                let step = worker_step(
                    effective_worker(old(self)@),
                    CommandModel::StartRecording,
                    *host,
                );
                &&& final(self)@.worker == Some(step.worker)
                &&& result_ack_model(r) == ack_result(step.response)
                &&& final(self)@.is_recording == (if r is Ok {
                    true
                } else {
                    old(self)@.is_recording
                })
            }),
    {
        self.ensure_initialized()?;
        let worker = match &mut self.worker {
            Some(w) => w,
            None => {
                return Err(RecorderError::ThreadNotInitialized);
            },
        };
        let (resp, _exit) = worker.handle_command(&AudioCommand::StartRecording, host);
        match resp {
            AudioResponse::Success(_) => {
                self.is_recording = true;
                Ok(())
            },
            AudioResponse::Error(e) => Err(RecorderError::AudioError(e)),
            _ => Err(RecorderError::AudioError(String::from_str("Unexpected response"))),
        }
    }

    /// Stops capturing and hands the recorded audio out.
    pub fn stop_recording(&mut self) -> (r: Result<AudioRecording, RecorderError>)
        ensures
            ({
                let step = stop_step(effective_worker(old(self)@));
                &&& final(self)@.worker == Some(step.worker)
                &&& result_recording_model(r) == audio_result(step.response)
                &&& final(self)@.is_recording == (if r is Ok {
                    false
                } else {
                    old(self)@.is_recording
                })
            }),
    {
        self.ensure_initialized()?;
        let worker = match &mut self.worker {
            Some(w) => w,
            None => {
                return Err(RecorderError::ThreadNotInitialized);
            },
        };
        let host = HostSnapshot::unused();
        let (resp, _exit) = worker.handle_command(&AudioCommand::StopRecording, &host);
        match resp {
            AudioResponse::AudioData(rec) => {
                self.is_recording = false;
                Ok(rec)
            },
            AudioResponse::Error(e) => Err(RecorderError::AudioError(e)),
            _ => Err(RecorderError::AudioError(String::from_str("Unexpected response"))),
        }
    }

    /// Stops capturing and discards whatever was recorded.
    pub fn cancel_recording(&mut self) -> (r: Result<(), RecorderError>)
        ensures
            ({
                let step = stop_step(effective_worker(old(self)@));
                &&& final(self)@.worker == Some(step.worker)
                &&& result_ack_model(r) == cancel_result(step.response)
                &&& final(self)@.is_recording == (if r is Ok {
                    false
                } else {
                    old(self)@.is_recording
                })
            }),
    {
        self.ensure_initialized()?;
        let worker = match &mut self.worker {
            Some(w) => w,
            None => {
                return Err(RecorderError::ThreadNotInitialized);
            },
        };
        let host = HostSnapshot::unused();
        let (resp, _exit) = worker.handle_command(&AudioCommand::StopRecording, &host);
        match resp {
            AudioResponse::AudioData(_) => {
                self.is_recording = false;
                Ok(())
            },
            AudioResponse::Error(e) => Err(RecorderError::AudioError(e)),
            _ => Err(RecorderError::AudioError(String::from_str("Unexpected response"))),
        }
    }

    /// Tears the worker down. With no worker running this is a success and
    /// changes nothing; otherwise the worker acknowledges and is dropped,
    /// whatever it answers.
    pub fn close_thread(&mut self) -> (r: Result<(), RecorderError>)
        ensures
            final(self)@.worker is None,
            old(self)@.worker is None ==> r is Ok && final(self)@.is_recording == old(
                self,
            )@.is_recording,
            old(self)@.worker matches Some(w0) ==> {
                &&& result_ack_model(r) == ack_result(close_thread_step(w0).response)
                &&& final(self)@.is_recording == (if r is Ok {
                    false
                } else {
                    old(self)@.is_recording
                })
            },
    {
        let taken = self.worker.take();
        match taken {
            None => Ok(()),
            Some(mut worker) => {
                let host = HostSnapshot::unused();
                let (resp, _exit) = worker.handle_command(&AudioCommand::CloseThread, &host);
                match resp {
                    AudioResponse::Success(_) => {
                        self.is_recording = false;
                        Ok(())
                    },
                    AudioResponse::Error(e) => Err(RecorderError::AudioError(e)),
                    _ => Err(RecorderError::AudioError(String::from_str("Unexpected response"))),
                }
            },
        }
    }
}

} // verus!
