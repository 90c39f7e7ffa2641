use tutti_session::components::AttenuationModel;
use tutti_session::components::AudioPlaybackState;
use tutti_session::components::PlayAudio;
use tutti_session::components::SpatialAudio;
use tutti_session::components::AudioVolume;
use tutti_session::session::Intent;
use tutti_session::session::Session;
use tutti_session::systems::BuildOutcome;
use tutti_session::tick::SessionTickInput;
use tutti_session::tick::session_tick;

fn quiet_input() -> SessionTickInput {
    SessionTickInput {
        sampler_outcome: None,
        node_outcome: None,
        effect_node: None,
        plugin_outcome: None,
        panner_created: None,
        relative_x: 0,
        relative_y: 0,
        relative_z: 0,
        recording_outcome: None,
        export_handle: None,
        export_status: None,
        plugin_crashed: false,
        is_playing: true,
    }
}

#[test]
fn one_tick_dispatches_syncs_and_cleans_up() {
    let mut s = Session::new(1);
    s.insert_intent(Intent::PlayAudio(PlayAudio::once(7).gain(900)));
    s.set_volume(AudioVolume(900));

    // Tick one: the sampler is built; the same tick already syncs the
    // dirty volume to the new node and sees it playing.
    let mut input = quiet_input();
    input.sampler_outcome = Some(BuildOutcome::Built { node_id: 5, stretch_control: None });
    let out = session_tick(&mut s, input);
    assert!(out.dispatch_report.is_none());
    assert!(s.intent.is_none());
    assert_eq!(s.emitter.map(|e| e.node_id), Some(5));
    assert_eq!(s.playback, AudioPlaybackState::Playing);
    let gain = out.gain.expect("the dirty volume is synced on the same tick");
    assert_eq!(gain.node_id, 5);
    assert_eq!(gain.gain, 900);
    assert!(out.removed_on_finish.is_none());

    // Tick two: the engine reports the node stopped; cleanup removes it.
    let mut input = quiet_input();
    input.is_playing = false;
    let out = session_tick(&mut s, input);
    assert_eq!(out.removed_on_finish, Some(5));
    assert_eq!(s.playback, AudioPlaybackState::Finished);
    assert_eq!(s.emitter.map(|e| e.node_id), Some(5));

    // Tick three: finished is terminal.
    let mut input = quiet_input();
    input.is_playing = false;
    let out = session_tick(&mut s, input);
    assert!(out.removed_on_finish.is_none());
    assert_eq!(s.playback, AudioPlaybackState::Finished);
}

#[test]
fn deferred_intent_is_retried_next_tick() {
    let mut s = Session::new(2);
    s.insert_intent(Intent::PlayAudio(PlayAudio::looping(9)));

    let mut input = quiet_input();
    input.sampler_outcome = Some(BuildOutcome::Deferred);
    let out = session_tick(&mut s, input);
    assert!(out.dispatch_report.is_none());
    assert!(s.intent.is_some());
    assert!(s.emitter.is_none());

    let mut input = quiet_input();
    input.sampler_outcome = Some(BuildOutcome::Built { node_id: 6, stretch_control: None });
    session_tick(&mut s, input);
    assert!(s.intent.is_none());
    assert_eq!(s.emitter.map(|e| e.node_id), Some(6));
}

#[test]
fn failed_intent_vanishes_with_a_report() {
    let mut s = Session::new(3);
    s.insert_intent(Intent::PlayAudio(PlayAudio::once(1)));
    let mut input = quiet_input();
    input.sampler_outcome = Some(BuildOutcome::Failed { reason: String::from("bad sample") });
    let out = session_tick(&mut s, input);
    let report = out.dispatch_report.expect("the failure is reported");
    assert_eq!(report.session, 3);
    assert_eq!(report.reason, "bad sample");
    assert!(s.intent.is_none());
    assert!(s.emitter.is_none());
}

#[test]
fn spatial_emitter_ten_units_to_the_right_gets_a_tenth_of_gain() {
    // Listener at the origin facing forward; the emitter sits ten units to
    // the right: relative position (10, 0, 0), reference distance 1,
    // maximum 100, inverse-distance model.
    let mut s = Session::new(4);
    s.insert_intent(Intent::PlayAudio(PlayAudio::looping(2)));
    s.spatial = Some(SpatialAudio {
        panner_node_id: None,
        attenuation: AttenuationModel::InverseDistance,
        max_distance: 100_000,
        ref_distance: 1000,
    });

    let mut input = quiet_input();
    input.sampler_outcome = Some(BuildOutcome::Built { node_id: 70, stretch_control: None });
    input.panner_created = Some(71);
    input.relative_x = 10_000;
    input.relative_y = 0;
    input.relative_z = 0;
    let out = session_tick(&mut s, input);

    let update = out.spatial.expect("a spatial emitter gets an update");
    assert_eq!(update.panner, 71);
    assert_eq!((update.x, update.y, update.z), (10_000, 0, 0));
    assert_eq!(update.distance, 10_000);
    assert_eq!(update.gain.node_id, 70);
    assert_eq!(update.gain.gain, 100);
    // The panner is cached for later ticks.
    assert_eq!(s.spatial.unwrap().panner_node_id, Some(71));
}

#[test]
fn failed_panner_creation_is_retried_every_tick() {
    let mut s = Session::new(5);
    s.insert_intent(Intent::PlayAudio(PlayAudio::looping(2)));
    s.spatial = Some(SpatialAudio::default());

    let mut input = quiet_input();
    input.sampler_outcome = Some(BuildOutcome::Built { node_id: 80, stretch_control: None });
    // No panner could be created this tick.
    let out = session_tick(&mut s, input);
    assert!(out.spatial.is_none());
    assert_eq!(s.spatial.unwrap().panner_node_id, None);

    // The next tick succeeds and the panner is cached.
    let mut input = quiet_input();
    input.panner_created = Some(81);
    input.relative_x = 1000;
    let out = session_tick(&mut s, input);
    assert_eq!(out.spatial.unwrap().panner, 81);
    assert_eq!(s.spatial.unwrap().panner_node_id, Some(81));
}
