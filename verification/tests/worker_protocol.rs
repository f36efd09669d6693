//! The worker's command/response protocol, driven with synthetic pictures
//! of the platform host.

use audio_recorder::host::{
    CaptureConfig, ConfigRange, DeviceSnapshot, HostSnapshot, SampleFormat,
};
use audio_recorder::worker::{AudioCommand, AudioResponse, AudioWorker};

fn mono_voice_device(name: &str) -> DeviceSnapshot {
    DeviceSnapshot {
        name: name.to_string(),
        supported: Ok(vec![ConfigRange {
            channels: 1,
            min_sample_rate: 8000,
            max_sample_rate: 48000,
            sample_format: SampleFormat::F32,
        }]),
        default_config: Ok(CaptureConfig {
            sample_rate: 44100,
            channels: 2,
            sample_format: SampleFormat::F32,
        }),
    }
}

fn host_with(devices: Vec<DeviceSnapshot>, default_device: Option<DeviceSnapshot>) -> HostSnapshot {
    HostSnapshot {
        devices: Ok(devices),
        default_device,
        build_outcome: Ok(()),
        play_outcome: Ok(()),
    }
}

fn expect_success(resp: AudioResponse) -> String {
    match resp {
        AudioResponse::Success(m) => m,
        other => panic!("expected Success, got {:?}", other),
    }
}

fn expect_error(resp: AudioResponse) -> String {
    match resp {
        AudioResponse::Error(m) => m,
        other => panic!("expected Error, got {:?}", other),
    }
}

#[test]
fn init_success_names_rate_and_channels() {
    let host = host_with(vec![mono_voice_device("Mic")], None);
    let mut w = AudioWorker::new();
    let (resp, exit) =
        w.handle_command(&AudioCommand::InitRecordingSession("Mic".to_string()), &host);
    assert!(!exit);
    assert_eq!(
        expect_success(resp),
        "Recording session initialized: 16000Hz, 1 channels"
    );
    assert!(w.session.is_some());
}

#[test]
fn unknown_device_error_names_it_and_lists_available() {
    let host = host_with(vec![mono_voice_device("Mic A"), mono_voice_device("Mic B")], None);
    let mut w = AudioWorker::new();
    let (resp, _) = w.handle_command(
        &AudioCommand::InitRecordingSession("NoSuchMic".to_string()),
        &host,
    );
    assert_eq!(
        expect_error(resp),
        "Device 'NoSuchMic' not found. Available devices: [Mic A, Mic B]"
    );
    assert!(w.session.is_none());
}

#[test]
fn default_is_matched_in_any_letter_case() {
    let host = host_with(vec![], Some(mono_voice_device("Built-in")));
    let mut w = AudioWorker::new();
    let (resp, _) = w.handle_command(
        &AudioCommand::InitRecordingSession("DEFAULT".to_string()),
        &host,
    );
    expect_success(resp);
    assert!(w.session.is_some());
}

#[test]
fn missing_default_device_is_reported() {
    let host = host_with(vec![mono_voice_device("Mic")], None);
    let mut w = AudioWorker::new();
    let (resp, _) = w.handle_command(
        &AudioCommand::InitRecordingSession("default".to_string()),
        &host,
    );
    assert_eq!(expect_error(resp), "No default input device available");
}

#[test]
fn empty_inventory_is_reported() {
    let host = host_with(vec![], None);
    let mut w = AudioWorker::new();
    let (resp, _) =
        w.handle_command(&AudioCommand::InitRecordingSession("Mic".to_string()), &host);
    assert_eq!(expect_error(resp), "No recording devices available");
}

#[test]
fn enumeration_failure_is_an_error_response() {
    let host = HostSnapshot {
        devices: Err("backend unavailable".to_string()),
        default_device: None,
        build_outcome: Ok(()),
        play_outcome: Ok(()),
    };
    let mut w = AudioWorker::new();
    let (resp, _) = w.handle_command(&AudioCommand::EnumerateRecordingDevices, &host);
    assert_eq!(expect_error(resp), "backend unavailable");
}

#[test]
fn enumerate_reports_names_in_order() {
    let host = host_with(vec![mono_voice_device("B"), mono_voice_device("A")], None);
    let mut w = AudioWorker::new();
    let (resp, _) = w.handle_command(&AudioCommand::EnumerateRecordingDevices, &host);
    match resp {
        AudioResponse::RecordingDeviceList(names) => {
            assert_eq!(names, vec!["B".to_string(), "A".to_string()]);
        }
        other => panic!("expected device list, got {:?}", other),
    }
}

#[test]
fn build_failure_is_reported_and_leaves_no_session() {
    let mut host = host_with(vec![mono_voice_device("Mic")], None);
    host.build_outcome = Err("device busy".to_string());
    let mut w = AudioWorker::new();
    let (resp, _) =
        w.handle_command(&AudioCommand::InitRecordingSession("Mic".to_string()), &host);
    assert_eq!(expect_error(resp), "Failed to build stream: device busy");
    assert!(w.session.is_none());
}

#[test]
fn unsupported_sample_format_is_rejected() {
    let dev = DeviceSnapshot {
        name: "Odd".to_string(),
        supported: Ok(vec![ConfigRange {
            channels: 1,
            min_sample_rate: 16000,
            max_sample_rate: 16000,
            sample_format: SampleFormat::Other,
        }]),
        default_config: Ok(CaptureConfig {
            sample_rate: 44100,
            channels: 2,
            sample_format: SampleFormat::F32,
        }),
    };
    let host = host_with(vec![dev], None);
    let mut w = AudioWorker::new();
    let (resp, _) =
        w.handle_command(&AudioCommand::InitRecordingSession("Odd".to_string()), &host);
    assert_eq!(expect_error(resp), "Unsupported sample format");
}

#[test]
fn config_query_failure_is_wrapped_with_device_name() {
    let dev = DeviceSnapshot {
        name: "Flaky".to_string(),
        supported: Err("query timed out".to_string()),
        default_config: Err("unused".to_string()),
    };
    let host = host_with(vec![dev], None);
    let mut w = AudioWorker::new();
    let (resp, _) =
        w.handle_command(&AudioCommand::InitRecordingSession("Flaky".to_string()), &host);
    assert_eq!(
        expect_error(resp),
        "Device 'Flaky' configuration error: query timed out"
    );
}

#[test]
fn state_labels_follow_commands() {
    let host = host_with(vec![mono_voice_device("Mic")], None);
    let mut w = AudioWorker::new();
    let state = |w: &mut AudioWorker| {
        let (resp, _) = w.handle_command(&AudioCommand::GetRecorderState, &HostSnapshot::unused());
        match resp {
            AudioResponse::Success(s) => s,
            other => panic!("expected state label, got {:?}", other),
        }
    };
    assert_eq!(state(&mut w), "IDLE");
    w.handle_command(&AudioCommand::InitRecordingSession("Mic".to_string()), &host);
    assert_eq!(state(&mut w), "SESSION");
    w.handle_command(&AudioCommand::StartRecording, &host);
    assert_eq!(state(&mut w), "RECORDING");
    w.handle_command(&AudioCommand::StopRecording, &host);
    assert_eq!(state(&mut w), "SESSION");
    w.handle_command(&AudioCommand::CloseRecordingSession, &host);
    assert_eq!(state(&mut w), "IDLE");
}

#[test]
fn start_and_stop_without_session_fail() {
    let host = HostSnapshot::unused();
    let mut w = AudioWorker::new();
    let (resp, _) = w.handle_command(&AudioCommand::StartRecording, &host);
    assert_eq!(expect_error(resp), "Recording session not initialized");
    let (resp, _) = w.handle_command(&AudioCommand::StopRecording, &host);
    assert_eq!(expect_error(resp), "No active recording");
}

#[test]
fn close_without_session_succeeds() {
    let host = HostSnapshot::unused();
    let mut w = AudioWorker::new();
    let (resp, exit) = w.handle_command(&AudioCommand::CloseRecordingSession, &host);
    assert!(!exit);
    assert_eq!(expect_success(resp), "No active session to close");
    let (resp, exit) = w.handle_command(&AudioCommand::CloseThread, &host);
    assert!(exit);
    assert_eq!(expect_success(resp), "Thread closed");
}

#[test]
fn close_thread_drops_the_session_and_exits() {
    let host = host_with(vec![mono_voice_device("Mic")], None);
    let mut w = AudioWorker::new();
    w.handle_command(&AudioCommand::InitRecordingSession("Mic".to_string()), &host);
    let (resp, exit) = w.handle_command(&AudioCommand::CloseThread, &host);
    assert!(exit);
    assert_eq!(expect_success(resp), "Thread closed");
    assert!(w.session.is_none());
}

#[test]
fn play_failure_keeps_session_but_not_recording() {
    let mut host = host_with(vec![mono_voice_device("Mic")], None);
    let mut w = AudioWorker::new();
    w.handle_command(&AudioCommand::InitRecordingSession("Mic".to_string()), &host);
    host.play_outcome = Err("stream stuck".to_string());
    let (resp, _) = w.handle_command(&AudioCommand::StartRecording, &host);
    assert_eq!(expect_error(resp), "Failed to start stream: stream stuck");
    assert!(w.session.as_ref().unwrap().audio_buffer.is_empty());
    assert!(!w.session.as_ref().unwrap().is_recording);
}

#[test]
fn second_cycle_excludes_first_cycle_samples() {
    let host = host_with(vec![mono_voice_device("Mic")], None);
    let mut w = AudioWorker::new();
    w.handle_command(&AudioCommand::InitRecordingSession("Mic".to_string()), &host);
    w.handle_command(&AudioCommand::StartRecording, &host);
    w.deliver_input_block(&[1, 2, 3]);
    let (resp, _) = w.handle_command(&AudioCommand::StopRecording, &host);
    match resp {
        AudioResponse::AudioData(rec) => assert_eq!(rec.audio_data, vec![1, 2, 3]),
        other => panic!("expected audio data, got {:?}", other),
    }
    w.handle_command(&AudioCommand::StartRecording, &host);
    w.deliver_input_block(&[9]);
    let (resp, _) = w.handle_command(&AudioCommand::StopRecording, &host);
    match resp {
        AudioResponse::AudioData(rec) => assert_eq!(rec.audio_data, vec![9]),
        other => panic!("expected audio data, got {:?}", other),
    }
}

#[test]
fn delivery_is_dropped_unless_recording() {
    let host = host_with(vec![mono_voice_device("Mic")], None);
    let mut w = AudioWorker::new();
    w.deliver_input_block(&[7, 7]);
    assert!(w.session.is_none());
    w.handle_command(&AudioCommand::InitRecordingSession("Mic".to_string()), &host);
    w.deliver_input_block(&[7, 7]);
    assert!(w.session.as_ref().unwrap().audio_buffer.is_empty());
    w.handle_command(&AudioCommand::StartRecording, &host);
    w.deliver_input_block(&[1]);
    w.handle_command(&AudioCommand::StopRecording, &host);
    w.deliver_input_block(&[2, 2]);
    let (resp, _) = w.handle_command(&AudioCommand::StopRecording, &host);
    match resp {
        AudioResponse::AudioData(rec) => assert_eq!(rec.audio_data, vec![1]),
        other => panic!("expected audio data, got {:?}", other),
    }
}

#[test]
fn reinit_replaces_the_session_and_its_buffer() {
    let host = host_with(vec![mono_voice_device("Mic A"), mono_voice_device("Mic B")], None);
    let mut w = AudioWorker::new();
    w.handle_command(&AudioCommand::InitRecordingSession("Mic A".to_string()), &host);
    w.handle_command(&AudioCommand::StartRecording, &host);
    w.deliver_input_block(&[5, 5, 5]);
    w.handle_command(&AudioCommand::InitRecordingSession("Mic B".to_string()), &host);
    let s = w.session.as_ref().unwrap();
    assert!(!s.is_recording);
    assert!(s.audio_buffer.is_empty());
}

#[test]
fn failed_reinit_also_drops_the_old_session() {
    let host = host_with(vec![mono_voice_device("Mic")], None);
    let mut w = AudioWorker::new();
    w.handle_command(&AudioCommand::InitRecordingSession("Mic".to_string()), &host);
    let (resp, _) = w.handle_command(
        &AudioCommand::InitRecordingSession("NoSuchMic".to_string()),
        &host,
    );
    expect_error(resp);
    assert!(w.session.is_none());
}
