//! Protocol-level laws of the capture engine, proved once and for all over
//! the worker's transition function: closing is idempotent, the observable
//! state tracks the transition table over any command sequence, start and
//! stop without a session always fail, a cycle's result contains exactly
//! what was delivered after its own start, and nothing is captured once the
//! recording flag has fallen.

use crate::config::{spec_first_voice, spec_optimal_config, voice_match};
use crate::host::{ConfigRange, DeviceSnapshot, HostSnapshot};
use crate::manager::{ack_result, audio_result};
use crate::error::RecorderErrorModel;
use crate::worker::{
    close_session_step, close_thread_step, deliver_model, spec_init_config, spec_state_label,
    start_step, state_of, stop_step, worker_step, CommandModel, RecorderState, ResponseModel,
    SessionModel, WorkerModel,
};
use vstd::prelude::*;

verus! {

/// Closing the session, or the worker itself, is acknowledged with success
/// in every state; with no session to close, the worker is left untouched.
pub proof fn lemma_close_is_idempotent(m: WorkerModel)
    ensures
        close_session_step(m).response is Success,
        close_thread_step(m).response is Success,
        ack_result(close_session_step(m).response) is Ok,
        ack_result(close_thread_step(m).response) is Ok,
        close_session_step(m).worker.session is None,
        close_thread_step(m).worker.session is None,
        m.session is None ==> close_session_step(m).worker == m,
{
}

/// The observable-state transition table of the protocol: what one command
/// does to `IDLE`/`SESSION`/`RECORDING`, for a given picture of the host.
pub open spec fn next_state(s: RecorderState, cmd: CommandModel, host: HostSnapshot) -> RecorderState {
    match cmd {
        CommandModel::GetRecorderState => s,
        CommandModel::EnumerateRecordingDevices => s,
        CommandModel::CloseThread => RecorderState::Idle,
        CommandModel::CloseRecordingSession => RecorderState::Idle,
        CommandModel::InitRecordingSession(name) => if spec_init_config(host, name) is Ok {
            RecorderState::Session
        } else {
            RecorderState::Idle
        },
        CommandModel::StartRecording => if s is Idle {
            RecorderState::Idle
        } else if host.play_outcome is Ok {
            RecorderState::Recording
        } else {
            s
        },
        CommandModel::StopRecording => if s is Idle {
            RecorderState::Idle
        } else {
            RecorderState::Session
        },
    }
}

/// One worker step moves the observable state exactly as the transition
/// table says, and the state query reports the label of the current state
/// without transitioning anything.
pub proof fn lemma_state_machine_fidelity(m: WorkerModel, cmd: CommandModel, host: HostSnapshot)
    ensures
        state_of(worker_step(m, cmd, host).worker) == next_state(state_of(m), cmd, host),
        worker_step(m, CommandModel::GetRecorderState, host).worker == m,
        worker_step(m, CommandModel::GetRecorderState, host).response == ResponseModel::Success(
            spec_state_label(state_of(m)),
        ),
{
}

/// A command sequence, folded over the worker's transition function.
pub open spec fn run_commands(m: WorkerModel, cmds: Seq<(CommandModel, HostSnapshot)>) -> WorkerModel
    decreases cmds.len(),
{
    if cmds.len() == 0 {
        m
    } else {
        run_commands(worker_step(m, cmds[0].0, cmds[0].1).worker, cmds.drop_first())
    }
}

/// A command sequence, folded over the observable-state table alone.
pub open spec fn run_states(s: RecorderState, cmds: Seq<(CommandModel, HostSnapshot)>) -> RecorderState
    decreases cmds.len(),
{
    if cmds.len() == 0 {
        s
    } else {
        run_states(next_state(s, cmds[0].0, cmds[0].1), cmds.drop_first())
    }
}

/// Over any command sequence, the state the worker ends up in is exactly
/// the fold of the transition table: what `GetRecorderState` reports always
/// reflects the last state-changing command.
pub proof fn lemma_sequence_fidelity(m: WorkerModel, cmds: Seq<(CommandModel, HostSnapshot)>)
    ensures
        state_of(run_commands(m, cmds)) == run_states(state_of(m), cmds),
    decreases cmds.len(),
{
    if cmds.len() > 0 {
        lemma_state_machine_fidelity(m, cmds[0].0, cmds[0].1);
        lemma_sequence_fidelity(worker_step(m, cmds[0].0, cmds[0].1).worker, cmds.drop_first());
    }
}

/// With no session, starting and stopping both answer the exact protocol
/// error, never success, and leave the worker untouched; the facade turns
/// them into errors as well.
pub proof fn lemma_no_session_start_stop_error(m: WorkerModel, host: HostSnapshot)
    requires
        m.session is None,
    ensures
        start_step(m, host).response == ResponseModel::Error("Recording session not initialized"@),
        stop_step(m).response == ResponseModel::Error("No active recording"@),
        !(start_step(m, host).response is Success),
        !(stop_step(m).response is AudioData),
        start_step(m, host).worker == m,
        stop_step(m).worker == m,
        ack_result(start_step(m, host).response) == Err::<(), RecorderErrorModel>(
            RecorderErrorModel::Audio("Recording session not initialized"@),
        ),
        audio_result(stop_step(m).response) is Err,
{
}

/// A block sequence, folded over the capture callback's effect.
pub open spec fn deliver_all(m: WorkerModel, blocks: Seq<Seq<u32>>) -> WorkerModel
    decreases blocks.len(),
{
    if blocks.len() == 0 {
        m
    } else {
        deliver_all(deliver_model(m, blocks[0]), blocks.drop_first())
    }
}

/// While recording, deliveries accumulate: after all blocks land, the
/// buffer is the old buffer followed by the blocks in delivery order.
pub proof fn lemma_deliver_all_appends(m: WorkerModel, blocks: Seq<Seq<u32>>)
    requires
        m.session matches Some(s) && s.is_recording,
    ensures
        deliver_all(m, blocks).session == Some(
            SessionModel {
                is_recording: m.session->0.is_recording,
                audio_buffer: m.session->0.audio_buffer + blocks.flatten(),
                sample_rate: m.session->0.sample_rate,
                channels: m.session->0.channels,
            },
        ),
    decreases blocks.len(),
{
    let s = m.session->0;
    if blocks.len() == 0 {
        assert(blocks.flatten() == Seq::<u32>::empty());
        assert(s.audio_buffer + blocks.flatten() =~= s.audio_buffer);
        assert(deliver_all(m, blocks).session->0 =~= SessionModel {
            is_recording: s.is_recording,
            audio_buffer: s.audio_buffer + blocks.flatten(),
            sample_rate: s.sample_rate,
            channels: s.channels,
        });
    } else {
        let m1 = deliver_model(m, blocks[0]);
        assert(m1.session->0.audio_buffer == s.audio_buffer + blocks[0]);
        lemma_deliver_all_appends(m1, blocks.drop_first());
        assert(blocks.flatten() == blocks[0] + blocks.drop_first().flatten());
        assert((s.audio_buffer + blocks[0]) + blocks.drop_first().flatten() =~= s.audio_buffer
            + blocks.flatten());
        assert(deliver_all(m, blocks).session->0 =~= SessionModel {
            is_recording: s.is_recording,
            audio_buffer: s.audio_buffer + blocks.flatten(),
            sample_rate: s.sample_rate,
            channels: s.channels,
        });
    }
}

/// One full cycle on an existing session: after a successful start, the
/// recording handed out by stop holds exactly the blocks delivered in that
/// cycle, in order — whatever the buffer held from any earlier cycle is
/// gone, because start clears it.
pub proof fn lemma_cycle_captures_exactly_what_was_delivered(
    m: WorkerModel,
    host: HostSnapshot,
    blocks: Seq<Seq<u32>>,
)
    requires
        m.session is Some,
        host.play_outcome is Ok,
    ensures
        ({
            let after = deliver_all(start_step(m, host).worker, blocks);
            &&& stop_step(after).response matches ResponseModel::AudioData(r)
            &&& stop_step(after).response->AudioData_0.audio_data == blocks.flatten()
        }),
{
    let started = start_step(m, host).worker;
    assert(started.session->0.audio_buffer =~= Seq::<u32>::empty());
    lemma_deliver_all_appends(started, blocks);
    assert(Seq::<u32>::empty() + blocks.flatten() =~= blocks.flatten());
}

/// Once stop has cleared the recording flag, a late delivery changes
/// nothing: the block is dropped, and the recording already handed out is
/// what the buffer held at the stop.
pub proof fn lemma_no_capture_after_stop(m: WorkerModel, block: Seq<u32>)
    requires
        m.session is Some,
    ensures
        deliver_model(stop_step(m).worker, block) == stop_step(m).worker,
        stop_step(m).response->AudioData_0.audio_data == m.session->0.audio_buffer,
{
}

/// A device whose supported ranges all exclude the voice rate still gets a
/// configuration: selection falls back to the device's reported default.
pub proof fn lemma_config_falls_back_to_default(dev: DeviceSnapshot)
    requires
        dev.supported matches Ok(ranges) && ranges@.len() > 0,
        forall|i: int|
            0 <= i < dev.supported->Ok_0@.len() ==> !(#[trigger] dev.supported->Ok_0@[i].min_sample_rate
                <= crate::VOICE_SAMPLE_RATE && dev.supported->Ok_0@[i].max_sample_rate
                >= crate::VOICE_SAMPLE_RATE),
    ensures
        spec_optimal_config(dev) == (match dev.default_config {
            Ok(c) => Ok::<_, Seq<char>>(c),
            Err(e) => Err::<crate::host::CaptureConfig, _>(e@),
        }),
{
    let ranges = dev.supported->Ok_0@;
    assert forall|i: int| 0 <= i < ranges.len() implies !voice_match(#[trigger] ranges[i], true) by {}
    assert forall|i: int| 0 <= i < ranges.len() implies !voice_match(#[trigger] ranges[i], false) by {}
    lemma_first_voice_none(ranges, true);
    lemma_first_voice_none(ranges, false);
}

/// When no supported range can serve voice capture, the scan finds nothing.
pub proof fn lemma_first_voice_none(ranges: Seq<ConfigRange>, mono_only: bool)
    requires
        forall|i: int| 0 <= i < ranges.len() ==> !voice_match(#[trigger] ranges[i], mono_only),
    ensures
        spec_first_voice(ranges, mono_only) is None,
    decreases ranges.len(),
{
    if ranges.len() > 0 {
        assert forall|i: int|
            0 <= i < ranges.drop_first().len() implies !voice_match(
            #[trigger] ranges.drop_first()[i],
            mono_only,
        ) by {
            assert(ranges.drop_first()[i] == ranges[i + 1]);
        }
        lemma_first_voice_none(ranges.drop_first(), mono_only);
    }
}

} // verus!
