use tutti_session::EngineBuildRequest;
use tutti_session::TuttiPlugin;
use tutti_session::assets::TuttiAudioLoader;
use tutti_session::assets::TuttiAudioSource;
use tutti_session::assets::WaveHandle;
use tutti_session::components::AddCompressor;
use tutti_session::components::AudioEmitter;
use tutti_session::components::AutomationLaneEmitter;
use tutti_session::components::SpatialAudio;
use tutti_session::components::AddGate;
use tutti_session::components::AddLfo;
use tutti_session::components::LfoShape;
use tutti_session::components::PlayAudio;
use tutti_session::components::TimeStretch;
use tutti_session::midi::systems::MpeMode;
use tutti_session::session::SessionStore;
use tutti_session::soundfont_assets::Sf2Loader;
use tutti_session::soundfont_assets::SoundFontHandle;
use tutti_session::soundfont_assets::SoundFontSource;

#[test]
fn play_audio_builders_fill_the_fields() {
    let p = PlayAudio::once(3).gain(800).speed(1200).despawn_on_finish();
    assert_eq!(p.source, 3);
    assert!(!p.looping);
    assert_eq!(p.gain, 800);
    assert_eq!(p.speed, 1200);
    assert!(p.auto_despawn);

    let l = PlayAudio::looping(4);
    assert!(l.looping);
    assert_eq!(l.gain, 1000);

    let (p, ts) = PlayAudio::once(5).time_stretch(500, -1200);
    assert_eq!(p.source, 5);
    assert_eq!(ts, TimeStretch { stretch_factor: 500, pitch_cents: -1200 });
}

#[test]
fn dsp_builders_start_from_their_defaults() {
    let c = AddCompressor::new(-18_000, 3000).attack(10).release(250).makeup(2000).stereo();
    assert_eq!(c.threshold_db, -18_000);
    assert_eq!(c.ratio, 3000);
    assert_eq!(c.attack, 10);
    assert_eq!(c.release, 250);
    assert_eq!(c.makeup_db, 2000);
    assert!(c.stereo);

    let g = AddGate::new(-40_000).hold(20);
    assert_eq!(g.threshold_db, -40_000);
    assert_eq!(g.hold, 20);
    assert!(!g.stereo);

    let lfo = AddLfo::beat_synced(LfoShape::Triangle, 4000).depth(500);
    assert!(lfo.beat_synced);
    assert_eq!(lfo.frequency, 4000);
    assert_eq!(lfo.depth, 500);
}

#[test]
fn engine_request_follows_the_configuration() {
    let plugin = TuttiPlugin::with_io(2, 2).with_output_device(1).with_mpe(MpeMode::LowerZone);
    assert!(plugin.enable_midi);
    assert_eq!(
        plugin.engine_request(),
        EngineBuildRequest {
            inputs: 2,
            outputs: 2,
            output_device: Some(1),
            midi: true,
            mpe_mode: Some(MpeMode::LowerZone),
        }
    );

    let bare = TuttiPlugin::default().without_ecs();
    assert!(!bare.enable_ecs);
    assert_eq!(bare.outputs, 2);
}

#[test]
fn session_store_spawns_unique_identities() {
    let mut store = SessionStore::new();
    let a = store.spawn();
    let b = store.spawn();
    let c = store.spawn();
    assert_ne!(a, b);
    assert_ne!(b, c);
    assert_eq!(store.len(), 3);
    assert_eq!(store.index_of(b), Some(1));
    assert_eq!(store.index_of(999), None);
}

#[test]
fn removing_a_session_hands_back_every_owned_node() {
    let mut store = SessionStore::new();
    let a = store.spawn();
    let b = store.spawn();
    let bi = store.index_of(b).unwrap();
    {
        let s = store.session_at_mut(bi);
        s.emitter = Some(AudioEmitter { node_id: 30 });
        s.spatial = Some(SpatialAudio { panner_node_id: Some(31), ..SpatialAudio::default() });
        s.automation_lane = Some(AutomationLaneEmitter { node_id: 32 });
    }
    let nodes = store.remove_session(bi);
    assert_eq!(nodes, vec![30, 31, 32]);
    assert_eq!(store.len(), 1);
    assert_eq!(store.index_of(a), Some(0));
    assert_eq!(store.index_of(b), None);

    // A bare session owns nothing.
    let ai = store.index_of(a).unwrap();
    assert_eq!(store.remove_session(ai), Vec::<u64>::new());
}

#[test]
fn asset_sources_copy_their_metadata() {
    let wave = WaveHandle { id: 1, duration_seconds: 2500, sample_rate: 48_000, channels: 2 };
    let source = TuttiAudioSource::from_wave(wave);
    assert_eq!(source.duration_seconds, 2500);
    assert_eq!(source.sample_rate, 48_000);
    assert_eq!(source.channels, 2);
    assert_eq!(source.wave(), &wave);

    let sf = SoundFontHandle { id: 2, preset_count: 128, instrument_count: 40 };
    let sf_source = SoundFontSource::from_soundfont(sf);
    assert_eq!(sf_source.preset_count, 128);
    assert_eq!(sf_source.instrument_count, 40);

    let audio_exts = TuttiAudioLoader.extensions();
    assert_eq!(audio_exts, vec!["wav", "flac", "mp3", "ogg"]);
    assert_eq!(Sf2Loader.extensions(), vec!["sf2"]);
}
