//! The decisions that editing commands make on the tracks of a project:
//! muting, soloing, arming for recording, grouping, MIDI input ports, and
//! reordering of plugin chains and send lists.
use vstd::prelude::*;

use crate::model::track::TrackType;

use std::collections::HashMap;

verus! {

broadcast use {vstd::seq_lib::group_to_multiset_ensures, vstd::std_specs::hash::group_hash_axioms};

/// The flags of a track that commands set and read.
#[derive(Debug, Clone, Copy, PartialEq, Eq, Structural)]
pub struct TrackFlags {
    pub id: u64,
    pub track_type: TrackType,
    pub muted: bool,
    pub solo: bool,
    pub armed: bool,
    pub monitor_enabled: bool,
    pub group_id: Option<u64>,
    pub frozen: bool,
}

/// A change to one flag of a track.
#[derive(Debug, Clone, Copy, PartialEq, Eq, Structural)]
pub enum FlagChange {
    Mute(bool),
    Solo(bool),
    Armed(bool),
    Monitor(bool),
    Group(Option<u64>),
    Frozen(bool),
}

/// A track with one flag changed.
pub open spec fn with_change(t: TrackFlags, c: FlagChange) -> TrackFlags {
    match c {
        FlagChange::Mute(b) => TrackFlags { muted: b, ..t },
        FlagChange::Solo(b) => TrackFlags { solo: b, ..t },
        FlagChange::Armed(b) => TrackFlags { armed: b, ..t },
        FlagChange::Monitor(b) => TrackFlags { monitor_enabled: b, ..t },
        FlagChange::Group(g) => TrackFlags { group_id: g, ..t },
        FlagChange::Frozen(b) => TrackFlags { frozen: b, ..t },
    }
}

/// Changes the flag of the track with the given id and leaves the others.
pub open spec fn change_track(id: u64, c: FlagChange) -> spec_fn(TrackFlags) -> TrackFlags {
    |t: TrackFlags| if t.id == id { with_change(t, c) } else { t }
}

/// Whether a track with the given id exists.
pub open spec fn has_track(ts: Seq<TrackFlags>, id: u64) -> bool {
    exists|i: int| 0 <= i < ts.len() && #[trigger] ts[i].id == id
}

/// Whether the track with the given id exists and is a MIDI track.
pub open spec fn is_midi_track(ts: Seq<TrackFlags>, id: u64) -> bool {
    exists|i: int| 0 <= i < ts.len() && #[trigger] ts[i].id == id && ts[i].track_type == TrackType::Midi
}

/// Arming a track for recording: the track is armed, and every other track of
/// the same kind (MIDI, or not MIDI) as the target is disarmed. When the target
/// does not exist it counts as not MIDI.
pub open spec fn arm_update(id: u64, target_is_midi: bool) -> spec_fn(TrackFlags) -> TrackFlags {
    |t: TrackFlags|
        if t.id == id {
            TrackFlags { armed: true, ..t }
        } else if (t.track_type == TrackType::Midi) == target_is_midi {
            TrackFlags { armed: false, ..t }
        } else {
            t
        }
}

/// The largest group id that a track holds, or 0 when none holds one.
pub open spec fn max_group_id(ts: Seq<TrackFlags>) -> u64
    decreases ts.len(),
{
    if ts.len() == 0 {
        0
    } else {
        let rest = max_group_id(ts.drop_last());
        match ts.last().group_id {
            Some(g) => if g > rest {
                g
            } else {
                rest
            },
            None => rest,
        }
    }
}

/// The id a new group gets: one more than the largest in use, saturating.
pub open spec fn next_group_id(ts: Seq<TrackFlags>) -> u64 {
    if max_group_id(ts) == u64::MAX {
        u64::MAX
    } else {
        (max_group_id(ts) + 1) as u64
    }
}

/// Puts the tracks whose id is listed into a group.
pub open spec fn group_update(ids: Seq<u64>, gid: u64) -> spec_fn(TrackFlags) -> TrackFlags {
    |t: TrackFlags| if ids.contains(t.id) { TrackFlags { group_id: Some(gid), ..t } } else { t }
}

/// Takes the tracks of a group out of it.
pub open spec fn ungroup_update(gid: u64) -> spec_fn(TrackFlags) -> TrackFlags {
    |t: TrackFlags| if t.group_id == Some(gid) { TrackFlags { group_id: None, ..t } } else { t }
}

/// A track with one flag changed.
fn changed(t: TrackFlags, c: FlagChange) -> (r: TrackFlags)
    ensures
        r == with_change(t, c),
{
    let mut r = t;
    match c {
        FlagChange::Mute(b) => r.muted = b,
        FlagChange::Solo(b) => r.solo = b,
        FlagChange::Armed(b) => r.armed = b,
        FlagChange::Monitor(b) => r.monitor_enabled = b,
        FlagChange::Group(g) => r.group_id = g,
        FlagChange::Frozen(b) => r.frozen = b,
    }
    r
}

/// Change one flag of the track with the given id; the other tracks, and all
/// tracks when none has the id, stay as they are.
pub fn change_track_flag(tracks: &mut Vec<TrackFlags>, id: u64, c: FlagChange)
    ensures
        final(tracks)@ == old(tracks)@.map_values(change_track(id, c)),
{
    let ghost pre = tracks@;
    let mut i: usize = 0;
    while i < tracks.len()
        invariant
            i <= tracks.len(),
            tracks@.len() == pre.len(),
            forall|j: int| 0 <= j < i ==> #[trigger] tracks@[j] == change_track(id, c)(pre[j]),
            forall|j: int| i <= j < pre.len() ==> #[trigger] tracks@[j] == pre[j],
        decreases tracks.len() - i,
    {
        let t = tracks[i];
        if t.id == id {
            tracks.set(i, changed(t, c));
        }
        i = i + 1;
    }
    assert(tracks@ =~= pre.map_values(change_track(id, c)));
}

/// Mute or unmute a track.
pub fn set_track_mute(tracks: &mut Vec<TrackFlags>, id: u64, mute: bool)
    ensures
        final(tracks)@ == old(tracks)@.map_values(change_track(id, FlagChange::Mute(mute))),
{
    change_track_flag(tracks, id, FlagChange::Mute(mute));
}

/// Solo or unsolo a track.
pub fn set_track_solo(tracks: &mut Vec<TrackFlags>, id: u64, solo: bool)
    ensures
        final(tracks)@ == old(tracks)@.map_values(change_track(id, FlagChange::Solo(solo))),
{
    change_track_flag(tracks, id, FlagChange::Solo(solo));
}

/// Turn input monitoring of a track on or off.
pub fn set_track_monitor(tracks: &mut Vec<TrackFlags>, id: u64, enabled: bool)
    ensures
        final(tracks)@ == old(tracks)@.map_values(change_track(id, FlagChange::Monitor(enabled))),
{
    change_track_flag(tracks, id, FlagChange::Monitor(enabled));
}

/// Put a track into a group.
pub fn add_track_to_group(tracks: &mut Vec<TrackFlags>, id: u64, group_id: u64)
    ensures
        final(tracks)@ == old(tracks)@.map_values(
            change_track(id, FlagChange::Group(Some(group_id))),
        ),
{
    change_track_flag(tracks, id, FlagChange::Group(Some(group_id)));
}

/// Take a track out of its group.
pub fn remove_track_from_group(tracks: &mut Vec<TrackFlags>, id: u64)
    ensures
        final(tracks)@ == old(tracks)@.map_values(change_track(id, FlagChange::Group(None))),
{
    change_track_flag(tracks, id, FlagChange::Group(None));
}

/// Freeze a track (its rendered audio is dropped, to be rendered anew).
pub fn freeze_track(tracks: &mut Vec<TrackFlags>, id: u64)
    ensures
        final(tracks)@ == old(tracks)@.map_values(change_track(id, FlagChange::Frozen(true))),
{
    change_track_flag(tracks, id, FlagChange::Frozen(true));
}

/// Unfreeze a track (its rendered audio is dropped).
pub fn unfreeze_track(tracks: &mut Vec<TrackFlags>, id: u64)
    ensures
        final(tracks)@ == old(tracks)@.map_values(change_track(id, FlagChange::Frozen(false))),
{
    change_track_flag(tracks, id, FlagChange::Frozen(false));
}

/// Whether the track with the given id exists and is a MIDI track.
pub fn track_is_midi(tracks: &Vec<TrackFlags>, id: u64) -> (r: bool)
    ensures
        r == is_midi_track(tracks@, id),
{
    let mut i: usize = 0;
    while i < tracks.len()
        invariant
            i <= tracks.len(),
            forall|j: int|
                0 <= j < i ==> !(#[trigger] tracks@[j].id == id && tracks@[j].track_type
                    == TrackType::Midi),
        decreases tracks.len() - i,
    {
        if tracks[i].id == id && tracks[i].track_type == TrackType::Midi {
            return true;
        }
        i = i + 1;
    }
    false
}

/// Arm or disarm a track for recording. Arming a track disarms every other
/// track of the same kind (MIDI, or not MIDI), so that one track of each kind
/// records; disarming touches only the track itself.
pub fn arm_for_recording(tracks: &mut Vec<TrackFlags>, id: u64, armed: bool)
    ensures
        armed ==> final(tracks)@ == old(tracks)@.map_values(
            arm_update(id, is_midi_track(old(tracks)@, id)),
        ),
        !armed ==> final(tracks)@ == old(tracks)@.map_values(
            change_track(id, FlagChange::Armed(false)),
        ),
{
    if armed {
        let target_is_midi = track_is_midi(tracks, id);
        let ghost pre = tracks@;
        let mut i: usize = 0;
        while i < tracks.len()
            invariant
                i <= tracks.len(),
                tracks@.len() == pre.len(),
                target_is_midi == is_midi_track(pre, id),
                forall|j: int|
                    0 <= j < i ==> #[trigger] tracks@[j] == arm_update(id, target_is_midi)(pre[j]),
                forall|j: int| i <= j < pre.len() ==> #[trigger] tracks@[j] == pre[j],
            decreases tracks.len() - i,
        {
            let mut t = tracks[i];
            if t.id == id {
                t.armed = true;
                tracks.set(i, t);
            } else if (t.track_type == TrackType::Midi) == target_is_midi {
                t.armed = false;
                tracks.set(i, t);
            }
            i = i + 1;
        }
        assert(tracks@ =~= pre.map_values(arm_update(id, target_is_midi)));
    } else {
        change_track_flag(tracks, id, FlagChange::Armed(false));
    }
}

/// An armed MIDI track, if there is one (the one that records MIDI input).
pub fn armed_midi_track(tracks: &Vec<TrackFlags>) -> (r: Option<u64>)
    ensures
        r is None <==> forall|i: int|
            0 <= i < tracks@.len() ==> !(#[trigger] tracks@[i].armed && tracks@[i].track_type
                == TrackType::Midi),
        r matches Some(id) ==> exists|i: int|
            0 <= i < tracks@.len() && #[trigger] tracks@[i].id == id && tracks@[i].armed
                && tracks@[i].track_type == TrackType::Midi,
{
    let mut i: usize = 0;
    while i < tracks.len()
        invariant
            i <= tracks.len(),
            forall|j: int|
                0 <= j < i ==> !(#[trigger] tracks@[j].armed && tracks@[j].track_type
                    == TrackType::Midi),
        decreases tracks.len() - i,
    {
        if tracks[i].armed && tracks[i].track_type == TrackType::Midi {
            return Some(tracks[i].id);
        }
        i = i + 1;
    }
    None
}

/// Whether a list of ids holds an id.
fn contains_id(ids: &Vec<u64>, id: u64) -> (r: bool)
    ensures
        r == ids@.contains(id),
{
    let mut i: usize = 0;
    while i < ids.len()
        invariant
            i <= ids.len(),
            forall|j: int| 0 <= j < i ==> ids@[j] != id,
        decreases ids.len() - i,
    {
        if ids[i] == id {
            return true;
        }
        i = i + 1;
    }
    false
}

/// Create a group of the listed tracks. Its id is one more than the largest
/// group id any track holds (saturating at the largest `u64`); it is returned.
pub fn create_group(tracks: &mut Vec<TrackFlags>, track_ids: &Vec<u64>) -> (gid: u64)
    ensures
        gid == next_group_id(old(tracks)@),
        final(tracks)@ == old(tracks)@.map_values(group_update(track_ids@, gid)),
{
    let mut max: u64 = 0;
    let mut i: usize = 0;
    while i < tracks.len()
        invariant
            i <= tracks.len(),
            max == max_group_id(tracks@.take(i as int)),
        decreases tracks.len() - i,
    {
        proof {
            assert(tracks@.take(i + 1).drop_last() =~= tracks@.take(i as int));
        }
        match tracks[i].group_id {
            Some(g) => if g > max {
                max = g;
            },
            None => {},
        }
        i = i + 1;
    }
    assert(tracks@.take(tracks.len() as int) =~= tracks@);
    let gid = max.saturating_add(1);
    let ghost pre = tracks@;
    let mut k: usize = 0;
    while k < tracks.len()
        invariant
            k <= tracks.len(),
            tracks@.len() == pre.len(),
            forall|j: int| 0 <= j < k ==> #[trigger] tracks@[j] == group_update(track_ids@, gid)(pre[j]),
            forall|j: int| k <= j < pre.len() ==> #[trigger] tracks@[j] == pre[j],
        decreases tracks.len() - k,
    {
        let mut t = tracks[k];
        if contains_id(track_ids, t.id) {
            t.group_id = Some(gid);
            tracks.set(k, t);
        }
        k = k + 1;
    }
    assert(tracks@ =~= pre.map_values(group_update(track_ids@, gid)));
    gid
}

/// Dissolve a group: every track in it leaves it.
pub fn remove_group(tracks: &mut Vec<TrackFlags>, group_id: u64)
    ensures
        final(tracks)@ == old(tracks)@.map_values(ungroup_update(group_id)),
{
    let ghost pre = tracks@;
    let mut k: usize = 0;
    while k < tracks.len()
        invariant
            k <= tracks.len(),
            tracks@.len() == pre.len(),
            forall|j: int| 0 <= j < k ==> #[trigger] tracks@[j] == ungroup_update(group_id)(pre[j]),
            forall|j: int| k <= j < pre.len() ==> #[trigger] tracks@[j] == pre[j],
        decreases tracks.len() - k,
    {
        let mut t = tracks[k];
        if t.group_id == Some(group_id) {
            t.group_id = None;
            tracks.set(k, t);
        }
        k = k + 1;
    }
    assert(tracks@ =~= pre.map_values(ungroup_update(group_id)));
}

/// The position at which an item moved from `from` towards `to` is inserted
/// once it has been taken out.
pub open spec fn move_target(from: int, to: int) -> int {
    if from < to {
        to - 1
    } else {
        to
    }
}

/// Move the item at `from` to `to` (when both are positions of the list): it
/// is taken out, then inserted at `to - 1` when it came from before `to`, else
/// at `to`. Returns whether it moved.
pub fn move_item<T>(v: &mut Vec<T>, from: usize, to: usize) -> (moved: bool)
    ensures
        moved == (from < old(v)@.len() && to < old(v)@.len()),
        moved ==> final(v)@ == old(v)@.remove(from as int).insert(
            move_target(from as int, to as int),
            old(v)@[from as int],
        ),
        !moved ==> final(v)@ == old(v)@,
{
    if from < v.len() && to < v.len() {
        let item = v.remove(from);
        let pos = if from < to {
            to - 1
        } else {
            to
        };
        v.insert(pos, item);
        true
    } else {
        false
    }
}

/// Remove the item at a position, when it is one. Returns whether it did.
pub fn remove_item<T>(v: &mut Vec<T>, index: usize) -> (removed: bool)
    ensures
        removed == (index < old(v)@.len()),
        removed ==> final(v)@ == old(v)@.remove(index as int),
        !removed ==> final(v)@ == old(v)@,
{
    if index < v.len() {
        let _ = v.remove(index);
        true
    } else {
        false
    }
}

/// The first position at which an id occurs.
pub fn position_of(ids: &Vec<u64>, id: u64) -> (r: Option<usize>)
    ensures
        r is None <==> !ids@.contains(id),
        r matches Some(i) ==> i < ids@.len() && ids@[i as int] == id && forall|j: int|
            0 <= j < i ==> ids@[j] != id,
{
    let mut i: usize = 0;
    while i < ids.len()
        invariant
            i <= ids.len(),
            forall|j: int| 0 <= j < i ==> ids@[j] != id,
        decreases ids.len() - i,
    {
        if ids[i] == id {
            return Some(i);
        }
        i = i + 1;
    }
    None
}

/// A track and the MIDI input port it listens to, if any.
pub struct TrackInputPort {
    pub id: u64,
    pub midi_input_port: Option<String>,
}

/// What to do with the MIDI input device after a port is chosen.
pub enum PortAction {
    /// Connect to the named port.
    Connect(String),
    /// Disconnect from the current port.
    Disconnect,
    /// Leave the connection as it is.
    Nothing,
}

/// The characters of a port name, if any.
pub open spec fn port_text(p: Option<String>) -> Option<Seq<char>> {
    match p {
        Some(s) => Some(s@),
        None => None,
    }
}

/// Whether a track with the given id is listed.
pub open spec fn lists_track(ts: Seq<TrackInputPort>, id: u64) -> bool {
    exists|i: int| 0 <= i < ts.len() && #[trigger] ts[i].id == id
}

/// The port a track listens to after the track with id `target` is set to
/// listen to `port`: that track gets the port; when a port is chosen every
/// other track stops listening; when none is chosen the others keep theirs.
pub open spec fn port_after(t: TrackInputPort, target: u64, port: Option<Seq<char>>) -> Option<
    Seq<char>,
> {
    if t.id == target {
        port
    } else if port is Some {
        None
    } else {
        port_text(t.midi_input_port)
    }
}

/// Whether a list of ids holds an id.
fn lists_id(tracks: &Vec<TrackInputPort>, id: u64) -> (r: bool)
    ensures
        r == lists_track(tracks@, id),
{
    let mut i: usize = 0;
    while i < tracks.len()
        invariant
            i <= tracks.len(),
            forall|j: int| 0 <= j < i ==> (#[trigger] tracks@[j]).id != id,
        decreases tracks.len() - i,
    {
        if tracks[i].id == id {
            return true;
        }
        i = i + 1;
    }
    false
}

/// Choose the MIDI input port of a track. Only one track listens to a port:
/// choosing one takes it from every other track and asks for a connection to
/// it; choosing none asks for a disconnection. A track that is not listed
/// changes nothing.
pub fn set_track_midi_input(
    tracks: &mut Vec<TrackInputPort>,
    track_id: u64,
    port_name: Option<String>,
) -> (r: PortAction)
    ensures
        !lists_track(old(tracks)@, track_id) ==> final(tracks)@ == old(tracks)@ && r is Nothing,
        lists_track(old(tracks)@, track_id) ==> {
            &&& final(tracks)@.len() == old(tracks)@.len()
            &&& forall|i: int|
                0 <= i < old(tracks)@.len() ==> (#[trigger] final(tracks)@[i]).id == old(
                    tracks,
                )@[i].id && port_text(final(tracks)@[i].midi_input_port) == port_after(
                    old(tracks)@[i],
                    track_id,
                    port_text(port_name),
                )
            &&& match port_name {
                Some(n) => r matches PortAction::Connect(c) && c@ == n@,
                None => r is Disconnect,
            }
        },
{
    if !lists_id(tracks, track_id) {
        return PortAction::Nothing;
    }
    let ghost pre = tracks@;
    let ghost chosen = port_text(port_name);
    let mut i: usize = 0;
    while i < tracks.len()
        invariant
            i <= tracks@.len(),
            tracks@.len() == pre.len(),
            chosen == port_text(port_name),
            forall|j: int|
                0 <= j < i ==> (#[trigger] tracks@[j]).id == pre[j].id && port_text(
                    tracks@[j].midi_input_port,
                ) == port_after(pre[j], track_id, chosen),
            forall|j: int| i <= j < pre.len() ==> #[trigger] tracks@[j] == pre[j],
        decreases tracks@.len() - i,
    {
        let id = tracks[i].id;
        if id == track_id {
            let port = match &port_name {
                Some(n) => Some(n.clone()),
                None => None,
            };
            tracks.set(i, TrackInputPort { id, midi_input_port: port });
        } else if port_name.is_some() {
            tracks.set(i, TrackInputPort { id, midi_input_port: None });
        }
        i = i + 1;
    }
    match port_name {
        Some(n) => PortAction::Connect(n),
        None => PortAction::Disconnect,
    }
}

/// A track and the audio devices its input comes from and its output goes
/// to, if any.
pub struct TrackDevices {
    pub id: u64,
    pub input_device: Option<String>,
    pub output_device: Option<String>,
}

/// A copy of a device name that may be absent.
fn copy_name(n: &Option<String>) -> (r: Option<String>)
    ensures
        port_text(r) == port_text(*n),
{
    match n {
        Some(s) => Some(s.clone()),
        None => None,
    }
}

/// Set the input device (`input` true) or the output device of the tracks
/// with the given id; every other device stays as it is.
fn set_track_device(tracks: &mut Vec<TrackDevices>, id: u64, input: bool, device: Option<String>)
    ensures
        final(tracks)@.len() == old(tracks)@.len(),
        forall|i: int|
            0 <= i < old(tracks)@.len() ==> {
                let (t, u) = (old(tracks)@[i], #[trigger] final(tracks)@[i]);
                &&& u.id == t.id
                &&& port_text(u.input_device) == if t.id == id && input {
                    port_text(device)
                } else {
                    port_text(t.input_device)
                }
                &&& port_text(u.output_device) == if t.id == id && !input {
                    port_text(device)
                } else {
                    port_text(t.output_device)
                }
            },
{
    let ghost pre = tracks@;
    let mut i: usize = 0;
    while i < tracks.len()
        invariant
            i <= tracks@.len(),
            tracks@.len() == pre.len(),
            forall|j: int|
                0 <= j < i ==> {
                    let (t, u) = (pre[j], #[trigger] tracks@[j]);
                    &&& u.id == t.id
                    &&& port_text(u.input_device) == if t.id == id && input {
                        port_text(device)
                    } else {
                        port_text(t.input_device)
                    }
                    &&& port_text(u.output_device) == if t.id == id && !input {
                        port_text(device)
                    } else {
                        port_text(t.output_device)
                    }
                },
            forall|j: int| i <= j < pre.len() ==> #[trigger] tracks@[j] == pre[j],
        decreases tracks@.len() - i,
    {
        if tracks[i].id == id {
            let (inp, out) = if input {
                (copy_name(&device), copy_name(&tracks[i].output_device))
            } else {
                (copy_name(&tracks[i].input_device), copy_name(&device))
            };
            tracks.set(i, TrackDevices { id, input_device: inp, output_device: out });
        }
        i = i + 1;
    }
}

/// Set the audio device a track's input comes from; the other tracks, and
/// all tracks when none has the id, keep their devices.
pub fn set_track_input(tracks: &mut Vec<TrackDevices>, id: u64, input: Option<String>)
    ensures
        final(tracks)@.len() == old(tracks)@.len(),
        forall|i: int|
            0 <= i < old(tracks)@.len() ==> {
                let (t, u) = (old(tracks)@[i], #[trigger] final(tracks)@[i]);
                &&& u.id == t.id
                &&& port_text(u.input_device) == if t.id == id {
                    port_text(input)
                } else {
                    port_text(t.input_device)
                }
                &&& port_text(u.output_device) == port_text(t.output_device)
            },
{
    set_track_device(tracks, id, true, input);
}

/// Set the audio device a track's output goes to; the other tracks, and all
/// tracks when none has the id, keep their devices.
pub fn set_track_output(tracks: &mut Vec<TrackDevices>, id: u64, output: Option<String>)
    ensures
        final(tracks)@.len() == old(tracks)@.len(),
        forall|i: int|
            0 <= i < old(tracks)@.len() ==> {
                let (t, u) = (old(tracks)@[i], #[trigger] final(tracks)@[i]);
                &&& u.id == t.id
                &&& port_text(u.input_device) == port_text(t.input_device)
                &&& port_text(u.output_device) == if t.id == id {
                    port_text(output)
                } else {
                    port_text(t.output_device)
                }
            },
{
    set_track_device(tracks, id, false, output);
}

/// After a port is chosen for a listed track, that track alone listens to
/// it.
pub proof fn lemma_one_track_per_port(pre: Seq<TrackInputPort>, target: u64, port: Seq<char>)
    ensures
        forall|i: int|
            0 <= i < pre.len() ==> (port_after(#[trigger] pre[i], target, Some(port)) is Some
                <==> pre[i].id == target),
{
}

/// No two tracks share an id.
pub open spec fn unique_ids(ts: Seq<TrackFlags>) -> bool {
    forall|i: int, j: int| 0 <= i < ts.len() && 0 <= j < ts.len() && i != j ==> ts[i].id != ts[j].id
}

/// Arming an existing track leaves it the only armed track of its kind (MIDI,
/// or not MIDI), and tracks of the other kind as they were.
pub proof fn lemma_arming_is_exclusive(pre: Seq<TrackFlags>, id: u64, k: int)
    requires
        unique_ids(pre),
        0 <= k < pre.len(),
        pre[k].id == id,
    ensures
        ({
            let post = pre.map_values(arm_update(id, is_midi_track(pre, id)));
            &&& post[k].armed
            &&& forall|i: int|
                0 <= i < post.len() && i != k && (pre[i].track_type == TrackType::Midi) == (
                pre[k].track_type == TrackType::Midi) ==> !(#[trigger] post[i]).armed
            &&& forall|i: int|
                0 <= i < post.len() && (pre[i].track_type == TrackType::Midi) != (pre[k].track_type
                    == TrackType::Midi) ==> #[trigger] post[i] == pre[i]
        }),
{
    let target = is_midi_track(pre, id);
    assert(target == (pre[k].track_type == TrackType::Midi));
}

/// The largest group id bounds the group id of every track.
proof fn lemma_max_group_id_bounds(ts: Seq<TrackFlags>, i: int)
    requires
        0 <= i < ts.len(),
        ts[i].group_id is Some,
    ensures
        ts[i].group_id->0 <= max_group_id(ts),
    decreases ts.len(),
{
    if i < ts.len() - 1 {
        lemma_max_group_id_bounds(ts.drop_last(), i);
    }
}

/// A new group gets an id that no track holds, unless the largest id in use
/// is already the largest `u64`; the listed tracks join it.
pub proof fn lemma_new_group_id_is_fresh(pre: Seq<TrackFlags>, ids: Seq<u64>)
    requires
        max_group_id(pre) < u64::MAX,
    ensures
        forall|i: int|
            0 <= i < pre.len() ==> (#[trigger] pre[i]).group_id != Some(next_group_id(pre)),
        forall|i: int|
            0 <= i < pre.len() && ids.contains(pre[i].id) ==> (#[trigger] pre.map_values(
                group_update(ids, next_group_id(pre)),
            )[i]).group_id == Some(next_group_id(pre)),
{
    assert forall|i: int| 0 <= i < pre.len() implies (#[trigger] pre[i]).group_id != Some(
        next_group_id(pre),
    ) by {
        if pre[i].group_id is Some {
            lemma_max_group_id_bounds(pre, i);
        }
    }
}

/// After a group is dissolved no track is in it.
pub proof fn lemma_removed_group_is_empty(pre: Seq<TrackFlags>, gid: u64)
    ensures
        forall|i: int|
            0 <= i < pre.len() ==> (#[trigger] pre.map_values(ungroup_update(gid))[i]).group_id
                != Some(gid),
{
}

/// Moving an item keeps the same items, only in another order.
pub proof fn lemma_move_keeps_items<T>(s: Seq<T>, from: int, to: int)
    requires
        0 <= from < s.len(),
        0 <= to < s.len(),
    ensures
        s.remove(from).insert(move_target(from, to), s[from]).to_multiset() == s.to_multiset(),
        s.remove(from).insert(move_target(from, to), s[from]).len() == s.len(),
{
    let r = s.remove(from);
    assert(r.to_multiset() == s.to_multiset().remove(s[from]));
    assert(r.insert(move_target(from, to), s[from]).to_multiset() == r.to_multiset().insert(
        s[from],
    ));
    assert(s.to_multiset().contains(s[from]));
    assert(s.to_multiset().remove(s[from]).insert(s[from]) =~= s.to_multiset());
}

/// A send of a track to another track; the amount's type is left to the
/// caller.
#[derive(Debug, Clone, Copy)]
pub struct Send<A> {
    pub destination_track: u64,
    pub amount: A,
    pub pre_fader: bool,
    pub muted: bool,
}

/// Add a send to a destination track with an amount, after the fader and
/// not muted.
pub fn add_send<A: Copy>(sends: &mut Vec<Send<A>>, destination_track: u64, amount: A)
    ensures
        final(sends)@ == old(sends)@.push(
            Send { destination_track, amount, pre_fader: false, muted: false },
        ),
{
    sends.push(Send { destination_track, amount, pre_fader: false, muted: false });
}

/// Remove the send at an index; says whether there was one (and the edit
/// is to be undoable).
pub fn remove_send<A: Copy>(sends: &mut Vec<Send<A>>, index: usize) -> (removed: bool)
    ensures
        removed == (index < old(sends)@.len()),
        final(sends)@ == if removed {
            old(sends)@.remove(index as int)
        } else {
            old(sends)@
        },
{
    if index < sends.len() {
        sends.remove(index);
        true
    } else {
        false
    }
}

/// Send the send at an index to another track; says whether there was one
/// (and the edit is to be undoable).
pub fn set_send_destination<A: Copy>(sends: &mut Vec<Send<A>>, index: usize, destination_track: u64) -> (set: bool)
    ensures
        set == (index < old(sends)@.len()),
        final(sends)@ == if set {
            old(sends)@.update(index as int, Send { destination_track, ..old(sends)@[index as int] })
        } else {
            old(sends)@
        },
{
    if index < sends.len() {
        let s = sends[index];
        sends.set(index, Send { destination_track, ..s });
        true
    } else {
        false
    }
}

/// Set the amount of the send at an index; an index past the sends changes
/// nothing.
pub fn set_send_amount<A: Copy>(sends: &mut Vec<Send<A>>, index: usize, amount: A)
    ensures
        final(sends)@ == if index < old(sends)@.len() {
            old(sends)@.update(index as int, Send { amount, ..old(sends)@[index as int] })
        } else {
            old(sends)@
        },
{
    if index < sends.len() {
        let s = sends[index];
        sends.set(index, Send { amount, ..s });
    }
}

/// Set whether the send at an index takes the signal before the fader; an
/// index past the sends changes nothing.
pub fn set_send_pre_fader<A: Copy>(sends: &mut Vec<Send<A>>, index: usize, pre_fader: bool)
    ensures
        final(sends)@ == if index < old(sends)@.len() {
            old(sends)@.update(index as int, Send { pre_fader, ..old(sends)@[index as int] })
        } else {
            old(sends)@
        },
{
    if index < sends.len() {
        let s = sends[index];
        sends.set(index, Send { pre_fader, ..s });
    }
}

/// The notes held down while MIDI is recorded on a track: by (channel, key)
/// slot, when the note started (a position of type `B`) and its velocity.
pub struct MidiRecordingState<B> {
    track_id: u64,
    active_notes: HashMap<u16, (B, u8)>,
}

/// The slot of a (key, channel) pair among the held notes.
pub open spec fn note_slot(key: u8, channel: u8) -> u16 {
    (channel as int * 256 + key as int) as u16
}

/// What a recorded message does to the held notes, and the note it finishes:
/// a note-on with a velocity starts (or restarts) its note at `now`; a
/// note-off, or a note-on of velocity 0, finishes the held note of its key and
/// channel (as pitch, velocity and start); other messages do nothing.
pub open spec fn record_step<B>(held: Map<u16, (B, u8)>, message: Seq<u8>, now: B) -> (Map<
    u16,
    (B, u8),
>, Option<(u8, u8, B)>) {
    let status = message[0];
    let key = message[1];
    let velocity = message[2];
    let slot = note_slot(key, status & 0x0F);
    let kind = status & 0xF0;
    if kind == 0x90 && velocity > 0 {
        (held.insert(slot, (now, velocity)), None)
    } else if kind == 0x80 || kind == 0x90 {
        if held.contains_key(slot) {
            (held.remove(slot), Some((key, held[slot].1, held[slot].0)))
        } else {
            (held, None)
        }
    } else {
        (held, None)
    }
}

impl<B: Copy> MidiRecordingState<B> {
    /// The held notes, by slot.
    pub closed spec fn held(self) -> Map<u16, (B, u8)> {
        self.active_notes@
    }

    /// The track being recorded.
    pub closed spec fn track(self) -> u64 {
        self.track_id
    }

    /// The track being recorded.
    pub fn track_id(&self) -> (t: u64)
        ensures
            t == self.track(),
    {
        self.track_id
    }

    /// A recording on a track with no note held.
    pub fn new(track_id: u64) -> (r: Self)
        ensures
            r.track() == track_id,
            r.held() == Map::<u16, (B, u8)>::empty(),
    {
        MidiRecordingState { track_id, active_notes: HashMap::new() }
    }

    /// Take in a MIDI message received at position `now`; returns the note it
    /// finishes, if any, as pitch, velocity and start.
    pub fn record_message(&mut self, message: [u8; 3], now: B) -> (r: Option<(u8, u8, B)>)
        ensures
            (final(self).held(), r) == record_step(old(self).held(), message@, now),
            final(self).track() == old(self).track(),
    {
        let status = message[0];
        let key = message[1];
        let velocity = message[2];
        let channel = status & 0x0F;
        let kind = status & 0xF0;
        assert(channel < 16) by (bit_vector)
            requires
                channel == status & 0x0F,
        ;
        let slot: u16 = channel as u16 * 256 + key as u16;
        if kind == 0x90 && velocity > 0 {
            self.active_notes.insert(slot, (now, velocity));
            None
        } else if kind == 0x80 || kind == 0x90 {
            match self.active_notes.remove(&slot) {
                Some((start, v)) => Some((key, v, start)),
                None => None,
            }
        } else {
            None
        }
    }
}

} // verus!
