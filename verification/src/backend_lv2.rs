//! The LV2 plugin backend.
use vstd::prelude::*;

use crate::model::plugin_api::{BackendKind, UnifiedPluginInfo};

verus! {

/// The backend that hosts LV2 plugins through the shared plugin host.
pub struct Lv2HostBackend;

impl Lv2HostBackend {
    /// The backend.
    pub fn new() -> (r: Self)
        ensures
            r == Lv2HostBackend,
    {
        Lv2HostBackend
    }

    /// What the backend reports of a plugin the host found. A plugin without
    /// audio outputs is taken to take MIDI (the usual shape of LV2
    /// instruments).
    pub fn plugin_info(
        uri: String,
        name: String,
        is_instrument: bool,
        audio_inputs: usize,
        audio_outputs: usize,
        has_midi: bool,
    ) -> (r: UnifiedPluginInfo)
        ensures
            r.backend == BackendKind::Lv2,
            r.uri == uri,
            r.name == name,
            r.is_instrument == is_instrument,
            r.audio_inputs == audio_inputs,
            r.audio_outputs == audio_outputs,
            r.has_midi == (has_midi || audio_outputs == 0),
    {
        UnifiedPluginInfo {
            backend: BackendKind::Lv2,
            uri,
            name,
            is_instrument,
            audio_inputs,
            audio_outputs,
            has_midi: has_midi || audio_outputs == 0,
        }
    }
}

} // verus!
