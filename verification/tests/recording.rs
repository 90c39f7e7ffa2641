use tutti_session::components::RecordingActive;
use tutti_session::components::RecordingMode;
use tutti_session::components::RecordingSource;
use tutti_session::components::StartRecording;
use tutti_session::components::StopRecording;
use tutti_session::session::SessionStore;
use tutti_session::systems::RecordedData;
use tutti_session::systems::RecordingStartOutcome;
use tutti_session::systems::RecordingStopOutcome;
use tutti_session::systems::recording_start_system;
use tutti_session::systems::recording_stop_system;

#[test]
fn start_then_stop_yields_result_and_clears_active() {
    let mut store = SessionStore::new();
    let id = store.spawn();
    let i = store.index_of(id).unwrap();

    // Start recording on channel 2 from the input, replacing content.
    store.session_at_mut(i).start_recording =
        Some(StartRecording::new(2, RecordingSource::Input));
    let report = recording_start_system(store.session_at_mut(i), RecordingStartOutcome::Started);
    assert!(report.is_none());
    let active = store.session_at(i).recording_active.expect("recording must be active");
    assert_eq!(active.channel_index, 2);
    assert_eq!(active.source, RecordingSource::Input);
    assert_eq!(active.mode, RecordingMode::Replace);
    assert!(store.session_at(i).start_recording.is_none());

    // Stop channel 2: the payload lands on the stopping session and the
    // active marker disappears.
    store.session_at_mut(i).stop_recording = Some(StopRecording { channel_index: 2 });
    let report = recording_stop_system(
        &mut store,
        i,
        RecordingStopOutcome::Stopped { data: RecordedData { token: 77 } },
    );
    assert!(report.is_none());
    let s = store.session_at(i);
    assert!(s.stop_recording.is_none());
    assert!(s.recording_active.is_none());
    assert_eq!(s.recording_result.map(|r| r.0.token), Some(77));
}

#[test]
fn failed_stop_has_no_side_effects_beyond_its_own_intent() {
    let mut store = SessionStore::new();
    let recorder = store.spawn();
    let stopper = store.spawn();
    let ri = store.index_of(recorder).unwrap();
    let si = store.index_of(stopper).unwrap();

    // Channel 2 is recording; someone asks to stop channel 3.
    store.session_at_mut(ri).recording_active = Some(RecordingActive {
        channel_index: 2,
        source: RecordingSource::Input,
        mode: RecordingMode::Replace,
    });
    store.session_at_mut(si).stop_recording = Some(StopRecording { channel_index: 3 });

    let report = recording_stop_system(
        &mut store,
        si,
        RecordingStopOutcome::StopFailed { reason: String::from("channel 3 is not recording") },
    );
    let report = report.expect("a failed stop is reported");
    assert_eq!(report.session, stopper);
    assert_eq!(report.reason, "channel 3 is not recording");

    // The stop intent is gone; the running recording is untouched and the
    // operation can be retried.
    assert!(store.session_at(si).stop_recording.is_none());
    assert!(store.session_at(si).recording_result.is_none());
    assert!(store.session_at(ri).recording_active.is_some());
}

#[test]
fn failed_start_discards_intent_and_reports() {
    let mut store = SessionStore::new();
    let id = store.spawn();
    let i = store.index_of(id).unwrap();
    store.session_at_mut(i).start_recording =
        Some(StartRecording::new(0, RecordingSource::Master).mode(RecordingMode::Overdub));
    let report = recording_start_system(
        store.session_at_mut(i),
        RecordingStartOutcome::StartFailed { reason: String::from("no input device") },
    );
    let report = report.expect("a failed start is reported");
    assert_eq!(report.session, id);
    assert!(store.session_at(i).start_recording.is_none());
    assert!(store.session_at(i).recording_active.is_none());
}

#[test]
fn successful_stop_clears_matching_actives_everywhere() {
    let mut store = SessionStore::new();
    let a = store.spawn();
    let b = store.spawn();
    let c = store.spawn();
    let ai = store.index_of(a).unwrap();
    let bi = store.index_of(b).unwrap();
    let ci = store.index_of(c).unwrap();

    store.session_at_mut(ai).recording_active = Some(RecordingActive {
        channel_index: 4,
        source: RecordingSource::Input,
        mode: RecordingMode::Replace,
    });
    store.session_at_mut(bi).recording_active = Some(RecordingActive {
        channel_index: 9,
        source: RecordingSource::Master,
        mode: RecordingMode::Overdub,
    });
    store.session_at_mut(ci).stop_recording = Some(StopRecording { channel_index: 4 });

    recording_stop_system(
        &mut store,
        ci,
        RecordingStopOutcome::Stopped { data: RecordedData { token: 5 } },
    );
    assert!(store.session_at(ai).recording_active.is_none());
    // A recording on another channel is untouched.
    assert_eq!(store.session_at(bi).recording_active.map(|r| r.channel_index), Some(9));
}
