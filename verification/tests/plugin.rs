use tutti_session::components::AudioEmitter;
use tutti_session::components::LoadPlugin;
use tutti_session::components::PluginEmitter;
use tutti_session::paths::PluginKind;
use tutti_session::paths::plugin_kind_from_path;
use tutti_session::session::Intent;
use tutti_session::session::Session;
use tutti_session::systems::PluginLoadOutcome;
use tutti_session::systems::plugin_crash_detect_system;
use tutti_session::systems::plugin_editor_idle_system;
use tutti_session::systems::plugin_load_system;

#[test]
fn plugin_kind_is_resolved_from_the_extension() {
    assert_eq!(plugin_kind_from_path("synths/Massive.vst3"), Some(PluginKind::Vst3));
    assert_eq!(plugin_kind_from_path("fx/Reverb.clap"), Some(PluginKind::Clap));
    assert_eq!(plugin_kind_from_path("old/Comp.dll"), Some(PluginKind::Vst2));
    assert_eq!(plugin_kind_from_path("old/Comp.so"), Some(PluginKind::Vst2));
    assert_eq!(plugin_kind_from_path("old/Comp.vst"), Some(PluginKind::Vst2));
}

#[test]
fn plugin_kind_ignores_ascii_case() {
    assert_eq!(plugin_kind_from_path("X.VST3"), Some(PluginKind::Vst3));
    assert_eq!(plugin_kind_from_path("y.Clap"), Some(PluginKind::Clap));
    assert_eq!(plugin_kind_from_path("z.DLL"), Some(PluginKind::Vst2));
}

#[test]
fn unrecognized_paths_have_no_kind() {
    assert_eq!(plugin_kind_from_path("a.xyz"), None);
    assert_eq!(plugin_kind_from_path("noextension"), None);
    assert_eq!(plugin_kind_from_path(".vst3"), None);
    assert_eq!(plugin_kind_from_path("dir.vst3/binary"), None);
    assert_eq!(plugin_kind_from_path(""), None);
}

#[test]
fn built_plugin_gets_emitter_and_handle() {
    let mut s = Session::new(1);
    s.insert_intent(Intent::LoadPlugin(
        LoadPlugin::new(String::from("p.vst3")).param(String::from("cutoff"), 700),
    ));
    let report = plugin_load_system(
        &mut s,
        PluginLoadOutcome::Built { node_id: 40, handle: 41 },
    );
    assert!(report.is_none());
    assert!(s.intent.is_none());
    assert_eq!(s.emitter, Some(AudioEmitter { node_id: 40 }));
    assert_eq!(s.plugin, Some(PluginEmitter { handle: 41 }));
}

#[test]
fn unsupported_format_is_a_permanent_reported_failure() {
    let mut s = Session::new(2);
    s.insert_intent(Intent::LoadPlugin(LoadPlugin::new(String::from("p.wav"))));
    let report = plugin_load_system(&mut s, PluginLoadOutcome::UnsupportedFormat);
    let report = report.expect("an unsupported format is reported");
    assert_eq!(report.session, 2);
    assert_eq!(report.reason, "unsupported plugin format");
    assert!(s.intent.is_none());
    assert!(s.emitter.is_none());
    assert!(s.plugin.is_none());
}

#[test]
fn failed_load_leaves_no_partial_node() {
    let mut s = Session::new(3);
    s.insert_intent(Intent::LoadPlugin(LoadPlugin::new(String::from("p.clap"))));
    let report = plugin_load_system(
        &mut s,
        PluginLoadOutcome::LoadFailed { reason: String::from("missing symbol") },
    );
    assert_eq!(report.unwrap().reason, "missing symbol");
    assert!(s.intent.is_none());
    assert!(s.emitter.is_none());
    assert!(s.plugin.is_none());
}

#[test]
fn crash_strips_the_session_in_one_step() {
    let mut s = Session::new(4);
    s.emitter = Some(AudioEmitter { node_id: 50 });
    s.plugin = Some(PluginEmitter { handle: 51 });
    s.plugin_editor_open = true;

    // While the flag is down, nothing happens.
    assert_eq!(plugin_crash_detect_system(&mut s, false), None);
    assert!(s.plugin.is_some());

    // The flag comes up: the node is removed and every plugin marker goes.
    assert_eq!(plugin_crash_detect_system(&mut s, true), Some(50));
    assert!(s.emitter.is_none());
    assert!(s.plugin.is_none());
    assert!(!s.plugin_editor_open);
    // The session object itself survives for inspection.
    assert_eq!(s.id, 4);
}

#[test]
fn editor_idle_is_owed_only_while_the_editor_is_open() {
    let mut s = Session::new(5);
    s.plugin = Some(PluginEmitter { handle: 60 });
    assert_eq!(plugin_editor_idle_system(&s), None);
    s.plugin_editor_open = true;
    assert_eq!(plugin_editor_idle_system(&s), Some(60));
}
