//! The control-thread facade: typed results, lazy worker start, and the
//! scenarios a control surface actually drives.

use audio_recorder::error::RecorderError;
use audio_recorder::host::{
    CaptureConfig, ConfigRange, DeviceSnapshot, HostSnapshot, SampleFormat,
};
use audio_recorder::manager::AudioManager;

fn mono_voice_device(name: &str) -> DeviceSnapshot {
    DeviceSnapshot {
        name: name.to_string(),
        supported: Ok(vec![ConfigRange {
            channels: 1,
            min_sample_rate: 8000,
            max_sample_rate: 48000,
            sample_format: SampleFormat::F32,
        }]),
        default_config: Ok(CaptureConfig {
            sample_rate: 44100,
            channels: 2,
            sample_format: SampleFormat::F32,
        }),
    }
}

fn host_with(devices: Vec<DeviceSnapshot>, default_device: Option<DeviceSnapshot>) -> HostSnapshot {
    HostSnapshot {
        devices: Ok(devices),
        default_device,
        build_outcome: Ok(()),
        play_outcome: Ok(()),
    }
}

fn audio_error(e: RecorderError) -> String {
    match e {
        RecorderError::AudioError(m) => m,
        other => panic!("expected AudioError, got {:?}", other),
    }
}

#[test]
fn enumerate_then_init_unknown_name() {
    // Enumerate first, then ask for a name that is not there: the error
    // names the device and the names that were available.
    let host = host_with(vec![mono_voice_device("Mic A"), mono_voice_device("Mic B")], None);
    let mut m = AudioManager::new();
    let devices = m.enumerate_recording_devices(&host).unwrap();
    assert_eq!(devices.len(), 2);
    for d in &devices {
        assert_eq!(d.device_id, d.label);
    }
    assert_eq!(devices[0].label, "Mic A");
    assert_eq!(devices[1].label, "Mic B");
    let err = m.init_recording_session("NoSuchMic".to_string(), &host).unwrap_err();
    assert_eq!(
        audio_error(err),
        "Device 'NoSuchMic' not found. Available devices: [Mic A, Mic B]"
    );
}

#[test]
fn default_session_three_deliveries_of_one_hundred() {
    // Init with "default", record three callback deliveries of a hundred
    // samples each, stop: exactly three hundred samples come back.
    let host = host_with(vec![], Some(mono_voice_device("Built-in")));
    let mut m = AudioManager::new();
    m.init_recording_session("default".to_string(), &host).unwrap();
    m.start_recording(&host).unwrap();
    let block = vec![0u32; 100];
    let worker = m.worker.as_mut().unwrap();
    worker.deliver_input_block(&block);
    worker.deliver_input_block(&block);
    worker.deliver_input_block(&block);
    let rec = m.stop_recording().unwrap();
    assert_eq!(rec.audio_data.len(), 300);
    assert_eq!(rec.sample_rate, 16000);
    assert_eq!(rec.channels, 1);
    assert_eq!(rec.duration_micros(), Some(18750));
}

#[test]
fn state_is_reported_per_last_transition() {
    let host = host_with(vec![mono_voice_device("Mic")], None);
    let mut m = AudioManager::new();
    assert_eq!(m.get_recorder_state().unwrap(), "IDLE");
    m.init_recording_session("Mic".to_string(), &host).unwrap();
    assert_eq!(m.get_recorder_state().unwrap(), "SESSION");
    m.start_recording(&host).unwrap();
    assert_eq!(m.get_recorder_state().unwrap(), "RECORDING");
    m.stop_recording().unwrap();
    assert_eq!(m.get_recorder_state().unwrap(), "SESSION");
    m.close_recording_session().unwrap();
    assert_eq!(m.get_recorder_state().unwrap(), "IDLE");
}

#[test]
fn closes_are_idempotent() {
    let mut m = AudioManager::new();
    assert!(m.close_thread().is_ok());
    assert!(m.close_recording_session().is_ok());
    assert!(m.close_recording_session().is_ok());
    assert!(m.close_thread().is_ok());
    assert!(m.worker.is_none());
}

#[test]
fn start_and_stop_while_idle_are_errors() {
    let host = HostSnapshot::unused();
    let mut m = AudioManager::new();
    let err = m.start_recording(&host).unwrap_err();
    assert_eq!(audio_error(err), "Recording session not initialized");
    let err = m.stop_recording().unwrap_err();
    assert_eq!(audio_error(err), "No active recording");
    assert!(!m.is_recording);
}

#[test]
fn cancel_discards_audio_but_stops() {
    let host = host_with(vec![mono_voice_device("Mic")], None);
    let mut m = AudioManager::new();
    m.init_recording_session("Mic".to_string(), &host).unwrap();
    m.start_recording(&host).unwrap();
    assert!(m.is_recording);
    m.worker.as_mut().unwrap().deliver_input_block(&[1, 2, 3]);
    m.cancel_recording().unwrap();
    assert!(!m.is_recording);
    assert_eq!(m.get_recorder_state().unwrap(), "SESSION");
}

#[test]
fn cancel_while_idle_is_an_error() {
    let mut m = AudioManager::new();
    let err = m.cancel_recording().unwrap_err();
    assert_eq!(audio_error(err), "No active recording");
}

#[test]
fn enumeration_failure_surfaces_as_audio_error() {
    let host = HostSnapshot {
        devices: Err("backend unavailable".to_string()),
        default_device: None,
        build_outcome: Ok(()),
        play_outcome: Ok(()),
    };
    let mut m = AudioManager::new();
    let err = m.enumerate_recording_devices(&host).unwrap_err();
    assert_eq!(audio_error(err), "backend unavailable");
}

#[test]
fn close_thread_tears_the_worker_down() {
    let host = host_with(vec![mono_voice_device("Mic")], None);
    let mut m = AudioManager::new();
    m.init_recording_session("Mic".to_string(), &host).unwrap();
    m.start_recording(&host).unwrap();
    m.close_thread().unwrap();
    assert!(m.worker.is_none());
    assert!(!m.is_recording);
    // The next operation lazily brings a fresh worker up, in IDLE.
    assert_eq!(m.get_recorder_state().unwrap(), "IDLE");
}

#[test]
fn two_cycles_on_one_session_do_not_mix() {
    let host = host_with(vec![mono_voice_device("Mic")], None);
    let mut m = AudioManager::new();
    m.init_recording_session("Mic".to_string(), &host).unwrap();
    m.start_recording(&host).unwrap();
    m.worker.as_mut().unwrap().deliver_input_block(&[1, 2, 3]);
    let first = m.stop_recording().unwrap();
    assert_eq!(first.audio_data, vec![1, 2, 3]);
    m.start_recording(&host).unwrap();
    m.worker.as_mut().unwrap().deliver_input_block(&[9]);
    let second = m.stop_recording().unwrap();
    assert_eq!(second.audio_data, vec![9]);
}
