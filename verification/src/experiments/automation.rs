//! Types of the experimental automation engine.
use vstd::prelude::*;

verus! {

/// A float stored by its bits, so that it can order a map.
#[derive(Debug, Clone, Copy, PartialEq, Eq, Structural)]
pub struct OrderedFloat(u64);

/// The curve between two automation points.
#[derive(Debug, Clone, Copy, PartialEq, Eq, Structural)]
pub enum CurveType {
    Linear,
    Exponential,
    Logarithmic,
    SCurve,
    Bezier,
    Step,
}

/// The parameter an automation lane drives.
#[derive(Debug, Clone, Copy, PartialEq, Eq, Structural)]
pub enum AutomationTarget {
    TrackVolume(usize),
    TrackPan(usize),
    TrackMute(usize),
    TrackSolo(usize),
    /// Track id and send id.
    SendLevel(usize, usize),
    /// Track id, plugin id and parameter id.
    PluginParameter(usize, usize, usize),
    MasterVolume,
    MasterPan,
    Tempo,
}

/// The colour a new lane is drawn in, by the parameter it drives.
pub fn lane_color(target: &AutomationTarget) -> (r: (u8, u8, u8))
    ensures
        r == match *target {
            AutomationTarget::TrackVolume(_) => (100u8, 150u8, 255u8),
            AutomationTarget::TrackPan(_) => (255, 150, 100),
            AutomationTarget::TrackMute(_) => (255, 100, 100),
            AutomationTarget::TrackSolo(_) => (255, 255, 100),
            AutomationTarget::SendLevel(_, _) => (150, 255, 150),
            AutomationTarget::PluginParameter(_, _, _) => (200, 150, 255),
            AutomationTarget::MasterVolume => (255, 255, 255),
            AutomationTarget::MasterPan => (200, 200, 200),
            AutomationTarget::Tempo => (255, 200, 100),
        },
{
    match target {
        AutomationTarget::TrackVolume(_) => (100, 150, 255),
        AutomationTarget::TrackPan(_) => (255, 150, 100),
        AutomationTarget::TrackMute(_) => (255, 100, 100),
        AutomationTarget::TrackSolo(_) => (255, 255, 100),
        AutomationTarget::SendLevel(_, _) => (150, 255, 150),
        AutomationTarget::PluginParameter(_, _, _) => (200, 150, 255),
        AutomationTarget::MasterVolume => (255, 255, 255),
        AutomationTarget::MasterPan => (200, 200, 200),
        AutomationTarget::Tempo => (255, 200, 100),
    }
}

} // verus!
