//! Raw messages from a MIDI input port.
use vstd::prelude::*;

verus! {

/// A raw three-byte MIDI message with its arrival time in microseconds.
#[derive(Debug, Clone, Copy)]
pub struct RawMidiMessage {
    pub timestamp_us: u64,
    pub message: [u8; 3],
}

} // verus!
