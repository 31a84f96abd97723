use vstd::prelude::*;
use vstd::string::*;

use crate::error::YadawError;

verus! {

/// A file error for a project that could not be saved.
pub fn project_save_failed(e: &str) -> (r: YadawError)
    ensures
        r matches YadawError::File(m) && m@ == "Failed to save project: "@ + e@,
{
    let mut s = String::from_str("Failed to save project: ");
    s.append(e);
    YadawError::File(s)
}

/// A file error for a project that could not be loaded.
pub fn project_load_failed(e: &str) -> (r: YadawError)
    ensures
        r matches YadawError::File(m) && m@ == "Failed to load project: "@ + e@,
{
    let mut s = String::from_str("Failed to load project: ");
    s.append(e);
    YadawError::File(s)
}

/// A file error for an audio file (shown by its path) that could not be imported.
pub fn audio_import_failed(path: &str, e: &str) -> (r: YadawError)
    ensures
        r matches YadawError::File(m) && m@ == "Failed to import "@ + path@ + ": "@ + e@,
{
    let mut s = String::from_str("Failed to import ");
    s.append(path);
    s.append(": ");
    s.append(e);
    YadawError::File(s)
}

/// A plugin error for a plugin that could not be loaded.
pub fn plugin_load_failed(name: &str, e: &str) -> (r: YadawError)
    ensures
        r matches YadawError::Plugin(m) && m@ == "Failed to load plugin '"@ + name@ + "': "@
            + e@,
{
    let mut s = String::from_str("Failed to load plugin '");
    s.append(name);
    s.append("': ");
    s.append(e);
    YadawError::Plugin(s)
}

/// A plugin error raised while a plugin processed audio.
pub fn plugin_process_error(name: &str, e: &str) -> (r: YadawError)
    ensures
        r matches YadawError::Plugin(m) && m@ == "Plugin '"@ + name@ + "' processing error: "@
            + e@,
{
    let mut s = String::from_str("Plugin '");
    s.append(name);
    s.append("' processing error: ");
    s.append(e);
    YadawError::Plugin(s)
}

/// An audio error raised while recording.
pub fn recording_error(e: &str) -> (r: YadawError)
    ensures
        r matches YadawError::Audio(m) && m@ == "Recording error: "@ + e@,
{
    let mut s = String::from_str("Recording error: ");
    s.append(e);
    YadawError::Audio(s)
}

/// An audio error raised during playback.
pub fn playback_error(e: &str) -> (r: YadawError)
    ensures
        r matches YadawError::Audio(m) && m@ == "Playback error: "@ + e@,
{
    let mut s = String::from_str("Playback error: ");
    s.append(e);
    YadawError::Audio(s)
}

} // verus!
