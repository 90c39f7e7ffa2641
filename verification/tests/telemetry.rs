use tutti_session::analysis::AnalysisCommands;
use tutti_session::analysis::AnalysisSnapshot;
use tutti_session::analysis::LiveAnalysisData;
use tutti_session::analysis::PitchResult;
use tutti_session::analysis::Transient;
use tutti_session::analysis::WaveformSummary;
use tutti_session::analysis::live_analysis_control_system;
use tutti_session::analysis::live_analysis_sync_system;
use tutti_session::audio_input::AudioInputDeviceInfo;
use tutti_session::audio_input::AudioInputSnapshot;
use tutti_session::audio_input::AudioInputState;
use tutti_session::audio_input::audio_input_control_system;
use tutti_session::audio_input::audio_input_sync_system;
use tutti_session::components::EnableAudioInput;
use tutti_session::content_bounds::ContentBounds;
use tutti_session::content_bounds::content_bounds_sync_system;
use tutti_session::device_state::AudioDeviceState;
use tutti_session::device_state::DeviceSnapshot;
use tutti_session::device_state::device_state_sync_system;
use tutti_session::metering::MasterMeterLevels;
use tutti_session::metering::metering_sync_system;
use tutti_session::session::Session;
use tutti_session::transport::TransportSnapshot;
use tutti_session::transport::TransportState;
use tutti_session::transport::transport_sync_system;

#[test]
fn transport_mirror_replaces_values_wholesale() {
    let mut state = TransportState::default();
    assert_eq!(state.tempo(), 120_000);
    assert_eq!(state.beat(), 0);
    assert!(!state.is_playing());

    transport_sync_system(
        &mut state,
        Some(TransportSnapshot {
            beat: 4500,
            is_playing: true,
            is_recording: false,
            tempo: 128_000,
            is_looping: true,
            loop_range: Some((1000, 9000)),
        }),
    );
    assert_eq!(state.beat(), 4500);
    assert_eq!(state.tempo(), 128_000);
    assert!(state.is_playing());
    assert!(state.is_looping());
    assert_eq!(state.loop_range(), (1000, 9000));

    // Without an engine the mirror passes prior values through.
    let before = state.clone();
    transport_sync_system(&mut state, None);
    assert_eq!(state, before);
}

#[test]
fn metering_mirror_copies_the_amplitude_read() {
    let mut levels = MasterMeterLevels::default();
    metering_sync_system(&mut levels, Some((900, 850, 500, 480)));
    assert_eq!(levels.peak_left, 900);
    assert_eq!(levels.peak_right, 850);
    assert_eq!(levels.rms_left, 500);
    assert_eq!(levels.rms_right, 480);
    metering_sync_system(&mut levels, None);
    assert_eq!(levels.peak_left, 900);
}

#[test]
fn device_mirror_replaces_the_list_wholesale() {
    let mut state = AudioDeviceState::default();
    device_state_sync_system(
        &mut state,
        Some(DeviceSnapshot {
            is_running: true,
            channels: 2,
            current_device: Some(String::from("Main Out")),
            output_devices: Some(vec![String::from("Main Out"), String::from("HDMI")]),
        }),
    );
    assert!(state.is_running);
    assert_eq!(state.current_device, "Main Out");
    assert_eq!(state.output_devices.len(), 2);

    // A same-length enumeration with different content still replaces the
    // mirrored list; a failed name read keeps the prior name.
    device_state_sync_system(
        &mut state,
        Some(DeviceSnapshot {
            is_running: true,
            channels: 2,
            current_device: None,
            output_devices: Some(vec![String::from("Other"), String::from("Names")]),
        }),
    );
    assert_eq!(state.output_devices, vec!["Other", "Names"]);
    assert_eq!(state.current_device, "Main Out");

    // A failed enumeration keeps the prior list.
    device_state_sync_system(
        &mut state,
        Some(DeviceSnapshot {
            is_running: false,
            channels: 2,
            current_device: None,
            output_devices: None,
        }),
    );
    assert_eq!(state.output_devices, vec!["Other", "Names"]);
    assert!(!state.is_running);
}

#[test]
fn content_bounds_mirror_copies_both_fields() {
    let mut bounds = ContentBounds::default();
    content_bounds_sync_system(&mut bounds, Some((64_000, 32_000)));
    assert_eq!(bounds.end_beat, 64_000);
    assert_eq!(bounds.duration_seconds, 32_000);
}

#[test]
fn audio_input_intents_become_engine_commands() {
    let mut s = Session::new(1);
    s.enable_audio_input = Some(EnableAudioInput::new().device(3).monitoring(true).gain(800));
    let cmds = audio_input_control_system(&mut s);
    assert_eq!(cmds.select_device, Some(3));
    assert_eq!(cmds.set_gain, Some(800));
    assert_eq!(cmds.set_monitoring, Some(true));
    assert!(s.enable_audio_input.is_none());

    // A disable wins over a simultaneous enable.
    s.enable_audio_input = Some(EnableAudioInput::new().monitoring(true));
    s.disable_audio_input = true;
    let cmds = audio_input_control_system(&mut s);
    assert_eq!(cmds.set_monitoring, Some(false));
    assert!(!s.disable_audio_input);
}

#[test]
fn audio_input_mirror_replaces_peak_and_list_wholesale() {
    let mut state = AudioInputState::default();
    audio_input_sync_system(
        &mut state,
        Some(AudioInputSnapshot {
            peak_level: 420,
            devices: vec![AudioInputDeviceInfo { index: 0, name: String::from("Mic") }],
        }),
    );
    assert_eq!(state.peak_level, 420);
    assert_eq!(state.devices.len(), 1);

    // A same-length enumeration with different content still replaces the
    // mirrored list.
    audio_input_sync_system(
        &mut state,
        Some(AudioInputSnapshot {
            peak_level: 300,
            devices: vec![AudioInputDeviceInfo { index: 0, name: String::from("Line In") }],
        }),
    );
    assert_eq!(state.peak_level, 300);
    assert_eq!(state.devices[0].name, "Line In");

    // Without an engine the mirror passes prior values through.
    audio_input_sync_system(&mut state, None);
    assert_eq!(state.peak_level, 300);
}

#[test]
fn analysis_toggles_and_mirror() {
    let mut s = Session::new(2);
    let mut data = LiveAnalysisData::default();

    // While the mirror is off, snapshots are ignored.
    live_analysis_sync_system(
        &mut data,
        Some(AnalysisSnapshot {
            pitch: PitchResult { frequency: 440_000, confidence: 900 },
            transients: Vec::new(),
            waveform: WaveformSummary { peaks: Vec::new() },
        }),
    );
    assert_eq!(data.pitch.frequency, 0);

    s.enable_live_analysis = true;
    let cmds = live_analysis_control_system(&mut s, &mut data);
    assert_eq!(cmds, AnalysisCommands { enable: true, disable: false });
    assert!(data.is_live);

    live_analysis_sync_system(
        &mut data,
        Some(AnalysisSnapshot {
            pitch: PitchResult { frequency: 440_000, confidence: 900 },
            transients: vec![Transient { position: 10, strength: 500 }],
            waveform: WaveformSummary { peaks: vec![100, 200] },
        }),
    );
    assert_eq!(data.pitch.frequency, 440_000);
    assert_eq!(data.transients.len(), 1);
    assert_eq!(data.waveform.peaks, vec![100, 200]);

    s.disable_live_analysis = true;
    live_analysis_control_system(&mut s, &mut data);
    assert!(!data.is_live);
}
