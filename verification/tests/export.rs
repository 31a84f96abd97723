use yadaw::audio_state::{rt_target_of, RtAutomationTarget};
use yadaw::model::automation::AutomationTarget as Target;
use yadaw::model::automation::{set_automation_mode, AutomationMode};
use yadaw::audio_export::{sample_format, ExportError, ExportFormat, SampleFormat};
use yadaw::experiments::automation::{lane_color, AutomationTarget};

#[test]
fn export_extensions() {
    assert_eq!(ExportFormat::Wav.default_extension(), "wav");
    assert_eq!(ExportFormat::Flac.default_extension(), "flac");
    assert_eq!(ExportFormat::Ogg.default_extension(), "ogg");
}

#[test]
fn export_sample_formats() {
    assert_eq!(sample_format(None, 16), Ok(SampleFormat::I16));
    assert_eq!(sample_format(Some(ExportFormat::Flac), 24), Ok(SampleFormat::I24));
    assert_eq!(sample_format(Some(ExportFormat::Ogg), 16), Ok(SampleFormat::I16));
    assert_eq!(sample_format(None, 32), Ok(SampleFormat::F32));
    assert_eq!(sample_format(Some(ExportFormat::Wav), 32), Ok(SampleFormat::F32));
    assert_eq!(
        sample_format(Some(ExportFormat::Flac), 32),
        Err(ExportError::FlacFloatUnsupported)
    );
    assert_eq!(sample_format(Some(ExportFormat::Ogg), 8), Ok(SampleFormat::F32));
    assert_eq!(sample_format(Some(ExportFormat::Ogg), 32), Ok(SampleFormat::F32));
    assert_eq!(sample_format(None, 8), Err(ExportError::UnsupportedBitDepth(8)));
    assert_eq!(
        sample_format(Some(ExportFormat::Flac), 20),
        Err(ExportError::UnsupportedBitDepth(20))
    );
}

#[test]
fn automation_lane_colours() {
    assert_eq!(lane_color(&AutomationTarget::TrackVolume(3)), (100, 150, 255));
    assert_eq!(lane_color(&AutomationTarget::SendLevel(1, 2)), (150, 255, 150));
    assert_eq!(lane_color(&AutomationTarget::PluginParameter(1, 2, 3)), (200, 150, 255));
    assert_eq!(lane_color(&AutomationTarget::Tempo), (255, 200, 100));
    assert_eq!(lane_color(&AutomationTarget::MasterPan), (200, 200, 200));
}

#[test]
fn desktop_does_not_write_to_uris() {
    let r = yadaw::file_picker::write_file_to_uri(&std::path::PathBuf::from("/tmp/x.wav"), "content://x");
    assert_eq!(r, Err("write_file_to_uri not needed on desktop".to_string()));
}

#[test]
fn lane_targets_for_the_audio_thread() {
    assert!(matches!(rt_target_of(&Target::TrackVolume), RtAutomationTarget::TrackVolume));
    assert!(matches!(rt_target_of(&Target::TrackPan), RtAutomationTarget::TrackPan));
    assert!(matches!(rt_target_of(&Target::TrackSend(4)), RtAutomationTarget::TrackSend(4)));
    match rt_target_of(&Target::PluginParam { plugin_id: 9, param_name: "cutoff".to_string() }) {
        RtAutomationTarget::PluginParam { plugin_id, param_name } => {
            assert_eq!(plugin_id, 9);
            assert_eq!(param_name, "cutoff");
        }
        other => panic!("unexpected {other:?}"),
    }
}

#[test]
fn automation_modes_are_set_per_lane() {
    let mut modes = vec![AutomationMode::Read, AutomationMode::Off];
    set_automation_mode(&mut modes, 1, AutomationMode::Latch);
    assert_eq!(modes, vec![AutomationMode::Read, AutomationMode::Latch]);
    set_automation_mode(&mut modes, 2, AutomationMode::Write);
    assert_eq!(modes, vec![AutomationMode::Read, AutomationMode::Latch]);
}
