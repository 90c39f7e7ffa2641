use tutti_session::components::AudioEmitter;
use tutti_session::components::AudioPlaybackState;
use tutti_session::components::AudioVolume;
use tutti_session::components::PlayAudio;
use tutti_session::components::PlaySoundFont;
use tutti_session::components::TimeStretch;
use tutti_session::components::TimeStretchControl;
use tutti_session::session::Intent;
use tutti_session::session::Session;
use tutti_session::systems::BuildOutcome;
use tutti_session::systems::NodeOutcome;
use tutti_session::systems::audio_cleanup_system;
use tutti_session::systems::audio_parameter_sync_system;
use tutti_session::systems::audio_playback_system;
use tutti_session::systems::sampler_request;
use tutti_session::systems::soundfont_playback_system;
use tutti_session::systems::time_stretch_sync_system;

fn play_session(id: u64) -> Session {
    let mut s = Session::new(id);
    s.insert_intent(Intent::PlayAudio(PlayAudio::once(7)));
    s
}

#[test]
fn deferred_build_leaves_intent_in_place() {
    let mut s = play_session(1);
    let before = s.clone();
    let report = audio_playback_system(&mut s, BuildOutcome::Deferred);
    assert!(report.is_none());
    assert_eq!(s, before);
}

#[test]
fn built_outcome_swaps_intent_for_emitter() {
    let mut s = play_session(2);
    let report = audio_playback_system(
        &mut s,
        BuildOutcome::Built { node_id: 42, stretch_control: None },
    );
    assert!(report.is_none());
    assert!(s.intent.is_none());
    assert_eq!(s.emitter, Some(AudioEmitter { node_id: 42 }));
    assert_eq!(s.playback, AudioPlaybackState::Playing);
    assert!(!s.despawn_on_finish);
}

#[test]
fn built_outcome_installs_stretch_control_and_despawn_marker() {
    let mut s = Session::new(3);
    s.insert_intent(Intent::PlayAudio(PlayAudio::once(7).despawn_on_finish()));
    s.time_stretch = Some(TimeStretch { stretch_factor: 500, pitch_cents: -100 });
    let report = audio_playback_system(
        &mut s,
        BuildOutcome::Built {
            node_id: 5,
            stretch_control: Some(TimeStretchControl { control: 99 }),
        },
    );
    assert!(report.is_none());
    assert!(s.despawn_on_finish);
    assert_eq!(s.stretch_control, Some(TimeStretchControl { control: 99 }));
}

#[test]
fn failed_build_removes_intent_and_reports() {
    let mut s = play_session(4);
    let report = audio_playback_system(
        &mut s,
        BuildOutcome::Failed { reason: String::from("unsupported format") },
    );
    let report = report.expect("a permanent failure must be reported");
    assert_eq!(report.session, 4);
    assert_eq!(report.reason, "unsupported format");
    assert!(s.intent.is_none());
    assert!(s.emitter.is_none());
}

#[test]
fn soundfont_dispatch_installs_emitter_without_playback_state() {
    let mut s = Session::new(5);
    s.insert_intent(Intent::PlaySoundFont(PlaySoundFont::new(3).preset(12).channel(2)));
    let report = soundfont_playback_system(&mut s, NodeOutcome::Built(11));
    assert!(report.is_none());
    assert_eq!(s.emitter, Some(AudioEmitter { node_id: 11 }));
    assert_eq!(s.playback, AudioPlaybackState::Stopped);
}

#[test]
fn cleanup_moves_playing_to_finished_and_stays_there() {
    let mut s = Session::new(6);
    s.emitter = Some(AudioEmitter { node_id: 8 });
    s.playback = AudioPlaybackState::Playing;

    // Still audible: nothing happens.
    assert_eq!(audio_cleanup_system(&mut s, true), None);
    assert_eq!(s.playback, AudioPlaybackState::Playing);

    // The node stopped: the state becomes terminal and the node is removed.
    assert_eq!(audio_cleanup_system(&mut s, false), Some(8));
    assert_eq!(s.playback, AudioPlaybackState::Finished);

    // Finished is never left again, whatever later polls say.
    assert_eq!(audio_cleanup_system(&mut s, true), None);
    assert_eq!(s.playback, AudioPlaybackState::Finished);
    assert_eq!(audio_cleanup_system(&mut s, false), None);
    assert_eq!(s.playback, AudioPlaybackState::Finished);
}

#[test]
fn cleanup_despawns_marked_sessions() {
    let mut s = Session::new(7);
    s.emitter = Some(AudioEmitter { node_id: 9 });
    s.playback = AudioPlaybackState::Playing;
    s.despawn_on_finish = true;
    assert_eq!(audio_cleanup_system(&mut s, false), Some(9));
    assert!(s.despawned);
}

#[test]
fn parameter_sync_emits_one_write_per_dirty_session() {
    let mut s = Session::new(8);
    s.emitter = Some(AudioEmitter { node_id: 3 });
    s.set_volume(AudioVolume(250));
    let cmd = audio_parameter_sync_system(&mut s).expect("dirty volume owes a write");
    assert_eq!(cmd.node_id, 3);
    assert_eq!(cmd.gain, 250);
    assert!(!s.volume_dirty);
    // Clean sessions owe nothing.
    assert!(audio_parameter_sync_system(&mut s).is_none());
}

#[test]
fn time_stretch_sync_writes_through_the_control() {
    let mut s = Session::new(9);
    s.stretch_control = Some(TimeStretchControl { control: 17 });
    s.set_time_stretch(TimeStretch { stretch_factor: 750, pitch_cents: 200 });
    let w = time_stretch_sync_system(&mut s).expect("dirty stretch owes a write");
    assert_eq!(w.control, 17);
    assert_eq!(w.stretch_factor, 750);
    assert_eq!(w.pitch_cents, 200);
    assert!(!s.time_stretch_dirty);
    assert!(time_stretch_sync_system(&mut s).is_none());
}

#[test]
fn sampler_request_carries_the_stretch_companion() {
    let mut s = play_session(11);
    let req = sampler_request(&s).expect("a play intent owes a request");
    assert_eq!(req.source, 7);
    assert_eq!(req.gain, 1000);
    assert_eq!(req.stretch, None);

    s.time_stretch = Some(TimeStretch { stretch_factor: 500, pitch_cents: 0 });
    let req = sampler_request(&s).unwrap();
    assert_eq!(req.stretch, Some(TimeStretch { stretch_factor: 500, pitch_cents: 0 }));

    let bare = Session::new(12);
    assert!(sampler_request(&bare).is_none());
}

#[test]
fn dirty_volume_without_emitter_is_drained_silently() {
    let mut s = Session::new(10);
    s.set_volume(AudioVolume(400));
    assert!(audio_parameter_sync_system(&mut s).is_none());
    assert!(!s.volume_dirty);
}
