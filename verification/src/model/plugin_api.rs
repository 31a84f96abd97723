use vstd::prelude::*;

verus! {

/// The plugin format a backend hosts.
#[derive(Debug, Clone, Copy, PartialEq, Eq, Structural)]
pub enum BackendKind {
    Clap,
    Lv2,
}

/// How a plugin parameter is addressed: a CLAP parameter id or an LV2
/// control port symbol.
#[derive(Debug, Clone)]
pub enum ParamKey {
    Clap(u32),
    Lv2(String),
}

/// What a backend reports of a plugin it found.
#[derive(Debug, Clone)]
pub struct UnifiedPluginInfo {
    pub backend: BackendKind,
    /// CLAP: `file:///path/lib.so#plugin_id`; LV2: the plugin URI.
    pub uri: String,
    pub name: String,
    pub is_instrument: bool,
    pub audio_inputs: usize,
    pub audio_outputs: usize,
    pub has_midi: bool,
}

/// A MIDI event handed to a plugin, at a frame offset in the block.
#[derive(Debug, Clone, Copy, PartialEq, Eq, Structural)]
pub struct MidiEvent {
    pub status: u8,
    pub data1: u8,
    pub data2: u8,
    pub time_frames: i64,
}

} // verus!
