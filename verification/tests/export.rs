use tutti_session::components::AudioFormat;
use tutti_session::components::NormalizationMode;
use tutti_session::components::StartExport;
use tutti_session::export_systems::ExportPhase;
use tutti_session::export_systems::ExportStatus;
use tutti_session::export_systems::export_poll_system;
use tutti_session::export_systems::export_start_system;
use tutti_session::session::Session;

#[test]
fn export_runs_to_complete_without_skipping_states() {
    let mut s = Session::new(1);
    s.start_export = Some(
        StartExport::new(String::from("out.wav"))
            .duration_seconds(5000)
            .format(AudioFormat::Wav),
    );

    // Starting consumes the intent and installs the running job.
    let request = export_start_system(&mut s, 31);
    assert_eq!(request.path, "out.wav");
    assert_eq!(request.duration_seconds, Some(5000));
    assert_eq!(request.format, Some(AudioFormat::Wav));
    assert!(s.start_export.is_none());
    assert!(matches!(s.export, ExportPhase::InProgress(p) if p.handle == 31));

    // Pending and Running polls keep the job in progress.
    export_poll_system(&mut s, ExportStatus::Pending);
    assert!(matches!(s.export, ExportPhase::InProgress(_)));
    export_poll_system(&mut s, ExportStatus::Running(400));
    assert!(matches!(s.export, ExportPhase::InProgress(_)));

    // A terminal poll moves the phase exactly once.
    export_poll_system(&mut s, ExportStatus::Complete);
    assert_eq!(s.export, ExportPhase::Complete);

    // Complete is terminal: further polling is a no-op.
    export_poll_system(&mut s, ExportStatus::Running(100));
    assert_eq!(s.export, ExportPhase::Complete);
    export_poll_system(&mut s, ExportStatus::Failed(String::from("late")));
    assert_eq!(s.export, ExportPhase::Complete);
}

#[test]
fn failed_export_keeps_its_reason_and_is_terminal() {
    let mut s = Session::new(2);
    s.start_export = Some(StartExport::new(String::from("x.flac")));
    export_start_system(&mut s, 8);
    export_poll_system(&mut s, ExportStatus::Failed(String::from("disk full")));
    match &s.export {
        ExportPhase::Failed(f) => assert_eq!(f.error, "disk full"),
        other => panic!("expected a failed phase, found {:?}", other),
    }
    export_poll_system(&mut s, ExportStatus::Complete);
    assert!(matches!(&s.export, ExportPhase::Failed(_)));
}

#[test]
fn export_builder_collects_every_override() {
    let e = StartExport::new(String::from("mix.ogg"))
        .duration_beats(32_000, 120_000)
        .normalization(NormalizationMode::Peak)
        .format(AudioFormat::Ogg);
    assert_eq!(e.duration_beats, Some((32_000, 120_000)));
    assert_eq!(e.duration_seconds, None);
    assert_eq!(e.normalization, Some(NormalizationMode::Peak));
    assert_eq!(e.format, Some(AudioFormat::Ogg));
}
