//! Types shared with the real-time audio thread.
use vstd::prelude::*;

use crate::model::automation::AutomationTarget;

verus! {

/// The curve between two automation points.
#[derive(Debug, Clone, Copy, PartialEq, Eq, Structural)]
pub enum RtCurveType {
    Linear,
    Exponential,
    Step,
}

/// The parameter a real-time automation lane drives.
#[derive(Debug, Clone)]
pub enum RtAutomationTarget {
    TrackVolume,
    TrackPan,
    /// A send, by id.
    TrackSend(u64),
    PluginParam { plugin_id: u64, param_name: String },
}

/// The real-time target of a lane's target: the same parameter, with the
/// same send, plugin and parameter name.
pub open spec fn rt_target_matches(t: AutomationTarget, r: RtAutomationTarget) -> bool {
    match (t, r) {
        (AutomationTarget::TrackVolume, RtAutomationTarget::TrackVolume) => true,
        (AutomationTarget::TrackPan, RtAutomationTarget::TrackPan) => true,
        (AutomationTarget::TrackSend(i), RtAutomationTarget::TrackSend(j)) => i == j,
        (
            AutomationTarget::PluginParam { plugin_id: p, param_name: n },
            RtAutomationTarget::PluginParam { plugin_id: q, param_name: m },
        ) => p == q && n@ == m@,
        _ => false,
    }
}

/// The parameter a lane drives, as the real-time thread names it.
pub fn rt_target_of(target: &AutomationTarget) -> (r: RtAutomationTarget)
    ensures
        rt_target_matches(*target, r),
{
    match target {
        AutomationTarget::TrackVolume => RtAutomationTarget::TrackVolume,
        AutomationTarget::TrackPan => RtAutomationTarget::TrackPan,
        AutomationTarget::TrackSend(i) => RtAutomationTarget::TrackSend(*i),
        AutomationTarget::PluginParam { plugin_id, param_name } => RtAutomationTarget::PluginParam {
            plugin_id: *plugin_id,
            param_name: param_name.clone(),
        },
    }
}

} // verus!
