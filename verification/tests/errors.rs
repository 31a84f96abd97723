use yadaw::error::common::{
    audio_import_failed, playback_error, plugin_load_failed, plugin_process_error,
    project_load_failed, project_save_failed, recording_error,
};
use yadaw::error::YadawError;

#[test]
fn error_texts() {
    let e = YadawError::audio("device lost");
    assert_eq!(e.title(), "Audio Error");
    assert_eq!(e.details(), "device lost");
    assert_eq!(e.hint(), Some("Check your audio device settings"));
    assert_eq!(
        e.user_message(),
        "Audio Error: device lost\n\nHint: Check your audio device settings"
    );
    assert_eq!(e.log_message(), "Audio error: device lost");

    let p = YadawError::plugin("crash");
    assert_eq!(p.title(), "Plugin Error");
    assert_eq!(p.log_message(), "Plugin error: crash");
    assert_eq!(p.hint(), Some("Try bypassing the plugin or checking for updates"));

    let f = YadawError::file("no space");
    assert_eq!(f.title(), "File Error");
    assert_eq!(f.hint(), Some("Check file permissions and disk space"));
    assert_eq!(f.log_message(), "File error: no space");

    let s = YadawError::state("bad");
    assert_eq!(s.title(), "Application Error");
    assert_eq!(s.user_message(), "Application Error: bad\n\nHint: Try restarting the application");
    assert_eq!(s.log_message(), "State error: bad");
}

#[test]
fn common_errors() {
    let e = project_save_failed("disk full");
    assert!(matches!(&e, YadawError::File(m) if m == "Failed to save project: disk full"));
    let e = project_load_failed("bad json");
    assert!(matches!(&e, YadawError::File(m) if m == "Failed to load project: bad json"));
    let e = audio_import_failed("/tmp/a.wav", "unsupported");
    assert!(matches!(&e, YadawError::File(m) if m == "Failed to import /tmp/a.wav: unsupported"));
    let e = plugin_load_failed("Reverb", "missing");
    assert!(matches!(&e, YadawError::Plugin(m) if m == "Failed to load plugin 'Reverb': missing"));
    let e = plugin_process_error("Reverb", "nan");
    assert!(matches!(&e, YadawError::Plugin(m) if m == "Plugin 'Reverb' processing error: nan"));
    let e = recording_error("overrun");
    assert!(matches!(&e, YadawError::Audio(m) if m == "Recording error: overrun"));
    let e = playback_error("underrun");
    assert!(matches!(&e, YadawError::Audio(m) if m == "Playback error: underrun"));
}

#[test]
fn errors_display_as_their_log_line() {
    assert_eq!(YadawError::audio("device lost").to_string(), "Audio error: device lost");
    assert_eq!(YadawError::state("bad").to_string(), "State error: bad");
}
