use vstd::prelude::*;

verus! {

/// How an automation lane records and plays back.
#[derive(Debug, Clone, Copy, PartialEq, Eq, Structural)]
pub enum AutomationMode {
    Off,
    Read,
    Write,
    Touch,
    Latch,
}

/// The parameter that an automation lane drives.
#[derive(Debug, Clone)]
pub enum AutomationTarget {
    TrackVolume,
    TrackPan,
    TrackSend(u64),
    PluginParam { plugin_id: u64, param_name: String },
}

/// Set the write mode of a track's automation lane at an index, given the
/// modes of its lanes in order; an index past the lanes changes nothing.
pub fn set_automation_mode(modes: &mut Vec<AutomationMode>, lane_idx: usize, mode: AutomationMode)
    ensures
        final(modes)@ == if lane_idx < old(modes)@.len() {
            old(modes)@.update(lane_idx as int, mode)
        } else {
            old(modes)@
        },
{
    if lane_idx < modes.len() {
        modes.set(lane_idx, mode);
    }
}

} // verus!
