//! Types of the experimental integration layer.
use vstd::prelude::*;

verus! {

/// Audio formats a project can be exported to.
#[derive(Debug, Clone, Copy, PartialEq, Eq, Structural)]
pub enum ExportFormat {
    Wav16,
    Wav24,
    Wav32Float,
    /// MP3 at a bitrate.
    Mp3(u32),
    Flac,
    Ogg,
}

} // verus!
