//! Note bookkeeping of the audio engine.
use vstd::prelude::*;

use crate::command_processor::TrackFlags;
use crate::model::plugin_api::MidiEvent;
use crate::model::track::TrackType;
use crate::plugin_facade::BackendKind;

use std::collections::HashMap;

verus! {

broadcast use {vstd::seq_lib::group_filter_ensures, vstd::std_specs::hash::group_hash_axioms};

/// A MIDI event in a block: status byte, two data bytes and a frame offset.
pub type BlockEvent = (u8, u8, u8, i64);

/// Holds of every (channel, key) pair other than the given one.
pub open spec fn other_note(ch: u8, key: u8) -> spec_fn((u8, u8)) -> bool {
    |n: (u8, u8)| n != (ch, key)
}

/// The sounding notes after one event: a note-on with a velocity starts the
/// (channel, key) note unless it already sounds; a note-off, or a note-on of
/// velocity 0, ends it; other events change nothing.
pub open spec fn active_after_event(active: Seq<(u8, u8)>, e: BlockEvent) -> Seq<(u8, u8)> {
    let ch = e.0 & 0x0F;
    let status = e.0 & 0xF0;
    let key = e.1;
    if status == 0x90 && e.2 > 0 {
        if active.contains((ch, key)) {
            active
        } else {
            active.push((ch, key))
        }
    } else if status == 0x80 || status == 0x90 {
        active.filter(other_note(ch, key))
    } else {
        active
    }
}

/// The sounding notes after a run of events, in order.
pub open spec fn active_after(active: Seq<(u8, u8)>, events: Seq<BlockEvent>) -> Seq<(u8, u8)>
    decreases events.len(),
{
    if events.len() == 0 {
        active
    } else {
        active_after_event(active_after(active, events.drop_last()), events.last())
    }
}

/// Whether a list of notes holds a note.
fn contains_note(v: &Vec<(u8, u8)>, n: (u8, u8)) -> (r: bool)
    ensures
        r == v@.contains(n),
{
    let mut i: usize = 0;
    while i < v.len()
        invariant
            i <= v.len(),
            forall|j: int| 0 <= j < i ==> v@[j] != n,
        decreases v.len() - i,
    {
        if v[i].0 == n.0 && v[i].1 == n.1 {
            return true;
        }
        i = i + 1;
    }
    false
}

/// The notes of a list other than one.
fn without_note(v: &Vec<(u8, u8)>, n: (u8, u8)) -> (r: Vec<(u8, u8)>)
    ensures
        r@ == v@.filter(other_note(n.0, n.1)),
{
    let mut r: Vec<(u8, u8)> = Vec::new();
    let mut i: usize = 0;
    while i < v.len()
        invariant
            i <= v.len(),
            r@ == v@.take(i as int).filter(other_note(n.0, n.1)),
        decreases v.len() - i,
    {
        proof {
            reveal(Seq::filter);
            assert(v@.take(i + 1).drop_last() =~= v@.take(i as int));
        }
        if !(v[i].0 == n.0 && v[i].1 == n.1) {
            r.push(v[i]);
        }
        i = i + 1;
    }
    assert(v@.take(v.len() as int) =~= v@);
    r
}

/// Track which (channel, key) notes sound after a block of events.
pub fn update_active_notes(events: &[BlockEvent], active: &mut Vec<(u8, u8)>)
    ensures
        final(active)@ == active_after(old(active)@, events@),
{
    let ghost start = active@;
    let mut i: usize = 0;
    while i < events.len()
        invariant
            i <= events@.len(),
            active@ == active_after(start, events@.take(i as int)),
        decreases events@.len() - i,
    {
        let e = events[i];
        proof {
            assert(events@.take(i + 1).drop_last() =~= events@.take(i as int));
            assert(events@.take(i + 1).last() == e);
        }
        let ch = e.0 & 0x0F;
        let status = e.0 & 0xF0;
        let key = e.1;
        if status == 0x90 && e.2 > 0 {
            if !contains_note(active, (ch, key)) {
                active.push((ch, key));
            }
        } else if status == 0x80 || status == 0x90 {
            let kept = without_note(active, (ch, key));
            *active = kept;
        }
        i = i + 1;
    }
    assert(events@.take(events@.len() as int) =~= events@);
}

/// No note is listed twice.
pub open spec fn distinct_notes(s: Seq<(u8, u8)>) -> bool {
    s.no_duplicates()
}

/// Filtering keeps a list free of repeats.
proof fn lemma_filter_keeps_distinct(s: Seq<(u8, u8)>, ch: u8, key: u8)
    requires
        s.no_duplicates(),
    ensures
        s.filter(other_note(ch, key)).no_duplicates(),
    decreases s.len(),
{
    reveal(Seq::filter);
    if s.len() > 0 {
        let init = s.drop_last();
        assert(init.no_duplicates());
        lemma_filter_keeps_distinct(init, ch, key);
        let f = init.filter(other_note(ch, key));
        if other_note(ch, key)(s.last()) {
            assert(!f.contains(s.last())) by {
                if f.contains(s.last()) {
                    let j = choose|j: int| 0 <= j < f.len() && f[j] == s.last();
                    init.lemma_filter_contains_rev(other_note(ch, key), s.last());
                    let m = choose|m: int| 0 <= m < init.len() && init[m] == s.last();
                    assert(s[m] == s[s.len() - 1]);
                }
            }
        }
    }
}

/// The sounding notes never list a note twice, given a start that does not;
/// after a note-on with a velocity its note sounds, and after a note-off (or
/// a note-on of velocity 0) it does not.
pub proof fn lemma_active_notes_distinct(active: Seq<(u8, u8)>, events: Seq<BlockEvent>)
    requires
        active.no_duplicates(),
    ensures
        active_after(active, events).no_duplicates(),
        events.len() > 0 && events.last().0 & 0xF0 == 0x90 && events.last().2 > 0
            ==> active_after(active, events).contains((events.last().0 & 0x0F, events.last().1)),
        events.len() > 0 && (events.last().0 & 0xF0 == 0x80 || (events.last().0 & 0xF0 == 0x90
            && events.last().2 == 0)) ==> !active_after(active, events).contains(
            (events.last().0 & 0x0F, events.last().1),
        ),
    decreases events.len(),
{
    if events.len() > 0 {
        lemma_active_notes_distinct(active, events.drop_last());
        let prev = active_after(active, events.drop_last());
        let e = events.last();
        let ch = e.0 & 0x0F;
        let key = e.1;
        if e.0 & 0xF0 == 0x90 && e.2 > 0 {
            if !prev.contains((ch, key)) {
                let p = prev.push((ch, key));
                assert(p[p.len() - 1] == (ch, key));
                assert forall|i: int, j: int|
                    0 <= i < p.len() && 0 <= j < p.len() && i != j implies p[i] != p[j] by {
                    if i < p.len() - 1 && j < p.len() - 1 {
                        assert(p[i] == prev[i] && p[j] == prev[j]);
                    } else if i == p.len() - 1 && j < p.len() - 1 {
                        assert(p[j] == prev[j]);
                    } else if j == p.len() - 1 && i < p.len() - 1 {
                        assert(p[i] == prev[i]);
                    }
                }
            }
        } else if e.0 & 0xF0 == 0x80 || e.0 & 0xF0 == 0x90 {
            lemma_filter_keeps_distinct(prev, ch, key);
            let f = prev.filter(other_note(ch, key));
            assert(!f.contains((ch, key))) by {
                if f.contains((ch, key)) {
                    let j = choose|j: int| 0 <= j < f.len() && f[j] == (ch, key);
                    assert(other_note(ch, key)(f[j]));
                }
            }
        }
    }
}

/// The "all notes off" (controller 123) and "all sound off" (controller 120)
/// messages for every channel, channel by channel.
pub open spec fn panic_events() -> Seq<MidiEvent> {
    Seq::new(
        32,
        |i: int|
            MidiEvent {
                status: (0xB0 + i / 2) as u8,
                data1: if i % 2 == 0 {
                    123
                } else {
                    120
                },
                data2: 0,
                time_frames: 0,
            },
    )
}

/// The events that silence every channel of a plugin.
pub fn midi_panic_events() -> (r: Vec<MidiEvent>)
    ensures
        r@ == panic_events(),
{
    let mut r: Vec<MidiEvent> = Vec::new();
    let mut ch: u8 = 0;
    while ch < 16
        invariant
            ch <= 16,
            r@ == panic_events().take(2 * ch as int),
        decreases 16 - ch,
    {
        let status: u8 = 0xB0 + ch;
        r.push(MidiEvent { status, data1: 123, data2: 0, time_frames: 0 });
        r.push(MidiEvent { status, data1: 120, data2: 0, time_frames: 0 });
        proof {
            assert(r@ =~= panic_events().take(2 * (ch + 1) as int));
        }
        ch = ch + 1;
    }
    assert(r@ =~= panic_events());
    r
}

/// Whether some track is soloed.
pub open spec fn some_track_soloed(ts: Seq<TrackFlags>) -> bool {
    exists|i: int| 0 <= i < ts.len() && (#[trigger] ts[i]).solo
}

/// Whether some track is soloed.
pub fn any_track_soloed(tracks: &Vec<TrackFlags>) -> (r: bool)
    ensures
        r == some_track_soloed(tracks@),
{
    let mut i: usize = 0;
    while i < tracks.len()
        invariant
            i <= tracks@.len(),
            forall|j: int| 0 <= j < i ==> !(#[trigger] tracks@[j]).solo,
        decreases tracks@.len() - i,
    {
        if tracks[i].solo {
            return true;
        }
        i = i + 1;
    }
    false
}

/// Whether a track is left out of the mix: it is muted, or some track is
/// soloed and it is not.
pub fn track_is_silenced(muted: bool, solo: bool, any_soloed: bool) -> (r: bool)
    ensures
        r == (muted || (any_soloed && !solo)),
{
    muted || (any_soloed && !solo)
}

/// The track that records audio: the first armed track that is not a MIDI
/// track.
pub fn recording_track(tracks: &Vec<TrackFlags>) -> (r: Option<u64>)
    ensures
        r is None <==> forall|i: int|
            0 <= i < tracks@.len() ==> !(#[trigger] tracks@[i].armed && tracks@[i].track_type
                != TrackType::Midi),
        r matches Some(id) ==> exists|i: int|
            0 <= i < tracks@.len() && #[trigger] tracks@[i].id == id && tracks@[i].armed
                && tracks@[i].track_type != TrackType::Midi && forall|j: int|
                0 <= j < i ==> !(tracks@[j].armed && tracks@[j].track_type != TrackType::Midi),
{
    let mut i: usize = 0;
    while i < tracks.len()
        invariant
            i <= tracks@.len(),
            forall|j: int|
                0 <= j < i ==> !(#[trigger] tracks@[j].armed && tracks@[j].track_type
                    != TrackType::Midi),
        decreases tracks@.len() - i,
    {
        if tracks[i].armed && tracks[i].track_type != TrackType::Midi {
            return Some(tracks[i].id);
        }
        i = i + 1;
    }
    None
}

/// A counter after one step, wrapping from the largest value to 0.
pub open spec fn usize_after(n: usize) -> usize {
    if n == usize::MAX {
        0
    } else {
        (n + 1) as usize
    }
}

/// A counter after one step, wrapping from the largest value to 0.
pub open spec fn u64_after(n: u64) -> u64 {
    if n == u64::MAX {
        0
    } else {
        (n + 1) as u64
    }
}

/// The counters plugin instance handles are drawn from: the next instance
/// id and the next generation.
pub struct PluginHandleCounter {
    next_id: usize,
    next_generation: u64,
}

impl PluginHandleCounter {
    /// The next id and generation.
    pub closed spec fn next(self) -> (usize, u64) {
        (self.next_id, self.next_generation)
    }

    /// Counters that start at 1.
    pub fn new() -> (r: Self)
        ensures
            r.next() == (1usize, 1u64),
    {
        PluginHandleCounter { next_id: 1, next_generation: 1 }
    }
}

/// A new plugin instance handle: the current id and generation; both
/// counters move up by one, wrapping as atomic additions do.
pub fn generate_plugin_handle(counter: &mut PluginHandleCounter) -> (r: (usize, u64))
    ensures
        r == old(counter).next(),
        final(counter).next() == (usize_after(r.0), u64_after(r.1)),
{
    let id = counter.next_id;
    let generation = counter.next_generation;
    counter.next_id = id.wrapping_add(1);
    counter.next_generation = generation.wrapping_add(1);
    (id, generation)
}

/// A plugin of a track's chain as the engine keeps it: its id, the handle
/// of its running instance (`None` for a stand-in whose plugin could not be
/// loaded), its format and URI, and whether it is bypassed.
#[derive(Debug)]
pub struct ChainPlugin {
    pub plugin_id: u64,
    pub rt_instance_id: Option<(usize, u64)>,
    pub backend: BackendKind,
    pub uri: String,
    pub bypass: bool,
}

/// The plugin a chain keeps once loading a plugin was tried: the loaded
/// instance with the bypass asked for, or, where loading failed, a bypassed
/// stand-in, so that the chain keeps its shape.
pub fn chain_plugin_for(
    plugin_id: u64,
    backend: BackendKind,
    uri: String,
    bypass: bool,
    loaded: Option<(usize, u64)>,
) -> (r: ChainPlugin)
    ensures
        r.plugin_id == plugin_id,
        r.backend == backend,
        r.uri@ == uri@,
        r.rt_instance_id == loaded,
        r.bypass == (bypass || loaded is None),
{
    match loaded {
        Some(handle) => ChainPlugin { plugin_id, rt_instance_id: Some(handle), backend, uri, bypass },
        None => ChainPlugin { plugin_id, rt_instance_id: None, backend, uri, bypass: true },
    }
}

/// A plugin with its bypass set.
pub open spec fn with_bypass(p: ChainPlugin, bypass: bool) -> ChainPlugin {
    ChainPlugin { bypass, ..p }
}

/// Holds of every plugin id but one.
pub open spec fn other_id(plugin_id: u64) -> spec_fn(u64) -> bool {
    |p: u64| p != plugin_id
}

/// The first place of an id in an order that ends with it.
fn first_position(order: &Vec<u64>, id: u64) -> (idx: usize)
    requires
        order@.len() > 0,
        order@.last() == id,
    ensures
        idx < order@.len(),
        order@[idx as int] == id,
        forall|j: int| 0 <= j < idx ==> order@[j] != id,
{
    let mut i: usize = 0;
    while i < order.len()
        invariant
            i < order@.len(),
            order@.last() == id,
            forall|j: int| 0 <= j < i ==> order@[j] != id,
        decreases order@.len() - i,
    {
        if order[i] == id {
            return i;
        }
        i = i + 1;
    }
    i
}

/// The plugins of a track by id, and the order they run in.
pub struct TrackChain {
    pub plugins: HashMap<u64, ChainPlugin>,
    pub plugin_order: Vec<u64>,
}

impl TrackChain {
    /// A chain without plugins.
    pub fn new() -> (r: Self)
        ensures
            r.plugins@ == Map::<u64, ChainPlugin>::empty(),
            r.plugin_order@ == Seq::<u64>::empty(),
    {
        TrackChain { plugins: HashMap::new(), plugin_order: Vec::new() }
    }

    /// Add a plugin at the end of the chain, in place of a plugin with its
    /// id, and give its position in the chain: the first place of its id.
    pub fn add_plugin(&mut self, plugin: ChainPlugin) -> (idx: usize)
        ensures
            final(self).plugins@ == old(self).plugins@.insert(plugin.plugin_id, plugin),
            final(self).plugin_order@ == old(self).plugin_order@.push(plugin.plugin_id),
            idx < final(self).plugin_order@.len(),
            final(self).plugin_order@[idx as int] == plugin.plugin_id,
            forall|j: int| 0 <= j < idx ==> final(self).plugin_order@[j] != plugin.plugin_id,
    {
        let id = plugin.plugin_id;
        self.plugins.insert(id, plugin);
        self.plugin_order.push(id);
        first_position(&self.plugin_order, id)
    }

    /// Take a plugin out of the chain and out of its order; gives back the
    /// handle of its running instance, which the caller drops.
    pub fn remove_plugin(&mut self, plugin_id: u64) -> (freed: Option<(usize, u64)>)
        ensures
            final(self).plugins@ == old(self).plugins@.remove(plugin_id),
            final(self).plugin_order@ == old(self).plugin_order@.filter(other_id(plugin_id)),
            freed == (if old(self).plugins@.contains_key(plugin_id) {
                old(self).plugins@[plugin_id].rt_instance_id
            } else {
                None
            }),
    {
        let removed = self.plugins.remove(&plugin_id);
        let mut kept: Vec<u64> = Vec::new();
        let mut i: usize = 0;
        while i < self.plugin_order.len()
            invariant
                i <= self.plugin_order@.len(),
                kept@ == self.plugin_order@.take(i as int).filter(other_id(plugin_id)),
            decreases self.plugin_order@.len() - i,
        {
            proof {
                reveal(Seq::filter);
                assert(self.plugin_order@.take(i + 1).drop_last() =~= self.plugin_order@.take(
                    i as int,
                ));
            }
            if self.plugin_order[i] != plugin_id {
                kept.push(self.plugin_order[i]);
            }
            i = i + 1;
        }
        assert(self.plugin_order@.take(self.plugin_order@.len() as int) =~= self.plugin_order@);
        self.plugin_order = kept;
        match removed {
            Some(p) => p.rt_instance_id,
            None => None,
        }
    }

    /// Set whether a plugin of the chain is bypassed; a chain without the
    /// plugin stays as it is.
    pub fn set_plugin_bypass(&mut self, plugin_id: u64, bypass: bool)
        ensures
            final(self).plugin_order@ == old(self).plugin_order@,
            final(self).plugins@ == (if old(self).plugins@.contains_key(plugin_id) {
                old(self).plugins@.insert(plugin_id, with_bypass(old(self).plugins@[plugin_id], bypass))
            } else {
                old(self).plugins@
            }),
    {
        let ghost before = self.plugins@;
        match self.plugins.remove(&plugin_id) {
            Some(p) => {
                let q = ChainPlugin { bypass, ..p };
                self.plugins.insert(plugin_id, q);
                assert(self.plugins@ =~= before.insert(plugin_id, with_bypass(before[plugin_id], bypass)));
            },
            None => {
                assert(self.plugins@ =~= before);
            },
        }
    }
}

/// Holds of every instance handle but one.
pub open spec fn other_handle(h: (usize, u64)) -> spec_fn((usize, u64)) -> bool {
    |x: (usize, u64)| x != h
}

/// The handle of the running instance of a plugin of a chain, if the chain
/// holds the plugin and it runs.
pub open spec fn instance_of(chain: TrackChain, plugin_id: u64) -> Option<(usize, u64)> {
    if chain.plugins@.contains_key(plugin_id) {
        chain.plugins@[plugin_id].rt_instance_id
    } else {
        None
    }
}

/// The handles of a list other than one.
fn without_handle(v: &Vec<(usize, u64)>, h: (usize, u64)) -> (r: Vec<(usize, u64)>)
    ensures
        r@ == v@.filter(other_handle(h)),
{
    let mut r: Vec<(usize, u64)> = Vec::new();
    let mut i: usize = 0;
    while i < v.len()
        invariant
            i <= v.len(),
            r@ == v@.take(i as int).filter(other_handle(h)),
        decreases v.len() - i,
    {
        proof {
            reveal(Seq::filter);
            assert(v@.take(i + 1).drop_last() =~= v@.take(i as int));
        }
        if !(v[i].0 == h.0 && v[i].1 == h.1) {
            r.push(v[i]);
        }
        i = i + 1;
    }
    assert(v@.take(v.len() as int) =~= v@);
    r
}

/// What the engine keeps of its tracks' plugins: the chain of each track
/// by track id, and the handles of the plugin instances that run (each
/// handle stands for an instance the engine owns).
pub struct EnginePlugins {
    pub chains: HashMap<u64, TrackChain>,
    pub instances: Vec<(usize, u64)>,
}

impl EnginePlugins {
    /// An engine without tracks or instances.
    pub fn new() -> (r: Self)
        ensures
            r.chains@ == Map::<u64, TrackChain>::empty(),
            r.instances@ == Seq::<(usize, u64)>::empty(),
    {
        EnginePlugins { chains: HashMap::new(), instances: Vec::new() }
    }

    /// Make sure a track has a chain: an empty one for a track without.
    pub fn track_chain_entry(&mut self, track_id: u64)
        ensures
            final(self).instances@ == old(self).instances@,
            final(self).chains@.remove(track_id) == old(self).chains@.remove(track_id),
            final(self).chains@.contains_key(track_id),
            old(self).chains@.contains_key(track_id) ==> final(self).chains@[track_id]
                == old(self).chains@[track_id],
            !old(self).chains@.contains_key(track_id) ==> final(self).chains@[track_id].plugins@
                == Map::<u64, ChainPlugin>::empty() && final(self).chains@[
                track_id
            ].plugin_order@ == Seq::<u64>::empty(),
    {
        let ghost before = self.chains@;
        if !self.chains.contains_key(&track_id) {
            self.chains.insert(track_id, TrackChain::new());
            assert(self.chains@.remove(track_id) =~= before.remove(track_id));
        }
    }

    /// Add a plugin to a track's chain (made for a track without one) and
    /// keep the handle of its running instance; gives the plugin's position
    /// in the chain, as `TrackChain::add_plugin` does.
    pub fn add_plugin(&mut self, track_id: u64, plugin: ChainPlugin) -> (idx: usize)
        ensures
            final(self).chains@.remove(track_id) == old(self).chains@.remove(track_id),
            final(self).chains@.contains_key(track_id),
            ({
                let (plugins, order) = if old(self).chains@.contains_key(track_id) {
                    (old(self).chains@[track_id].plugins@, old(self).chains@[track_id].plugin_order@)
                } else {
                    (Map::<u64, ChainPlugin>::empty(), Seq::<u64>::empty())
                };
                let c = final(self).chains@[track_id];
                &&& c.plugins@ == plugins.insert(plugin.plugin_id, plugin)
                &&& c.plugin_order@ == order.push(plugin.plugin_id)
                &&& idx < c.plugin_order@.len() && c.plugin_order@[idx as int] == plugin.plugin_id
                &&& forall|j: int| 0 <= j < idx ==> c.plugin_order@[j] != plugin.plugin_id
            }),
            final(self).instances@ == (match plugin.rt_instance_id {
                Some(h) => old(self).instances@.push(h),
                None => old(self).instances@,
            }),
    {
        let ghost before = self.chains@;
        let mut chain = match self.chains.remove(&track_id) {
            Some(c) => c,
            None => TrackChain::new(),
        };
        match plugin.rt_instance_id {
            Some(h) => self.instances.push(h),
            None => {},
        }
        let idx = chain.add_plugin(plugin);
        self.chains.insert(track_id, chain);
        assert(self.chains@.remove(track_id) =~= before.remove(track_id));
        idx
    }

    /// Take a plugin out of a track's chain and drop its running instance;
    /// for a track without a chain nothing changes.
    pub fn remove_plugin_instance(&mut self, track_id: u64, plugin_id: u64)
        ensures
            final(self).chains@.remove(track_id) == old(self).chains@.remove(track_id),
            final(self).chains@.contains_key(track_id) == old(self).chains@.contains_key(track_id),
            !old(self).chains@.contains_key(track_id) ==> final(self).chains@ == old(self).chains@
                && final(self).instances@ == old(self).instances@,
            old(self).chains@.contains_key(track_id) ==> ({
                let c = old(self).chains@[track_id];
                let d = final(self).chains@[track_id];
                &&& d.plugins@ == c.plugins@.remove(plugin_id)
                &&& d.plugin_order@ == c.plugin_order@.filter(other_id(plugin_id))
                &&& final(self).instances@ == (match instance_of(c, plugin_id) {
                    Some(h) => old(self).instances@.filter(other_handle(h)),
                    None => old(self).instances@,
                })
                &&& instance_of(c, plugin_id) matches Some(h) ==> !final(self).instances@.contains(h)
            }),
    {
        let ghost before = self.chains@;
        match self.chains.remove(&track_id) {
            None => {
                assert(self.chains@ =~= before);
            },
            Some(mut chain) => {
                let freed = chain.remove_plugin(plugin_id);
                self.chains.insert(track_id, chain);
                assert(self.chains@.remove(track_id) =~= before.remove(track_id));
                match freed {
                    Some(h) => {
                        self.instances = without_handle(&self.instances, h);
                        proof {
                            if self.instances@.contains(h) {
                                let k = choose|k: int|
                                    0 <= k < self.instances@.len() && self.instances@[k] == h;
                                assert(other_handle(h)(self.instances@[k]));
                            }
                        }
                    },
                    None => {},
                }
            },
        }
    }

    /// Build every track's chain anew from its plugins in order, as loading
    /// them turned out (a plugin that failed to load is a bypassed stand-in):
    /// the chains held before are dropped, a later track takes the place of
    /// an earlier one with its id, and the handles of the new instances are
    /// kept after those held before.
    pub fn rebuild_tracks(&mut self, tracks: Vec<(u64, Vec<ChainPlugin>)>)
        ensures
            final(self).chains@.dom() == chains_of(track_plugins_view(tracks@)).dom(),
            forall|t: u64| #[trigger]
                final(self).chains@.contains_key(t) ==> final(self).chains@[t].plugins@
                    == chains_of(track_plugins_view(tracks@))[t].0 && final(self).chains@[t].plugin_order@
                    == chains_of(track_plugins_view(tracks@))[t].1,
            final(self).instances@ == old(self).instances@ + track_handles(
                track_plugins_view(tracks@),
            ),
    {
        let ghost all = track_plugins_view(tracks@);
        let ghost start = self.instances@;
        let mut rest = tracks;
        let n = rest.len();
        assert(all.len() == n);
        let mut chains: HashMap<u64, TrackChain> = HashMap::new();
        let mut i: usize = 0;
        while rest.len() > 0
            invariant
                all.len() <= usize::MAX,
                i + rest@.len() == all.len(),
                track_plugins_view(rest@) == all.skip(i as int),
                chains@.dom() == chains_of(all.take(i as int)).dom(),
                forall|t: u64| #[trigger]
                    chains@.contains_key(t) ==> (chains@[t].plugins@, chains@[t].plugin_order@)
                        == chains_of(all.take(i as int))[t],
                self.instances@ == start + track_handles(all.take(i as int)),
            decreases rest@.len(),
        {
            proof {
                assert(all.take(i + 1).drop_last() =~= all.take(i as int));
                assert(all.take(i + 1).last() == all[i as int]);
                assert(track_plugins_view(rest@)[0] == all[i as int]);
            }
            let ghost rest_before = rest@;
            let (track_id, plugins) = rest.remove(0);
            proof {
                assert forall|j: int| 0 <= j < rest@.len() implies #[trigger] track_plugins_view(
                    rest@,
                )[j] == all.skip(i + 1)[j] by {
                    assert(rest@[j] == rest_before[j + 1]);
                    assert(track_plugins_view(rest_before)[j + 1] == all.skip(i as int)[j + 1]);
                }
            }
            let (chain, handles) = build_chain(plugins);
            let mut k: usize = 0;
            let ghost before = self.instances@;
            while k < handles.len()
                invariant
                    k <= handles@.len(),
                    self.instances@ == before + handles@.take(k as int),
                decreases handles@.len() - k,
            {
                self.instances.push(handles[k]);
                proof {
                    assert(handles@.take(k + 1) =~= handles@.take(k as int).push(handles@[k as int]));
                }
                k = k + 1;
            }
            proof {
                assert(handles@.take(k as int) =~= handles@);
                assert(self.instances@ =~= start + track_handles(all.take(i + 1)));
            }
            chains.insert(track_id, chain);
            proof {
                assert(track_plugins_view(rest@) =~= all.skip(i + 1));
                assert(chains@.dom() =~= chains_of(all.take(i + 1)).dom());
            }
            i = i + 1;
        }
        proof {
            assert(all.take(i as int) =~= all);
        }
        self.chains = chains;
    }

    /// Set whether a plugin of a track's chain is bypassed, as
    /// `TrackChain::set_plugin_bypass` does; for a track without a chain
    /// nothing changes.
    pub fn set_plugin_bypass(&mut self, track_id: u64, plugin_id: u64, bypass: bool)
        ensures
            final(self).instances@ == old(self).instances@,
            final(self).chains@.remove(track_id) == old(self).chains@.remove(track_id),
            final(self).chains@.contains_key(track_id) == old(self).chains@.contains_key(track_id),
            old(self).chains@.contains_key(track_id) ==> ({
                let c = old(self).chains@[track_id];
                let d = final(self).chains@[track_id];
                &&& d.plugin_order@ == c.plugin_order@
                &&& d.plugins@ == (if c.plugins@.contains_key(plugin_id) {
                    c.plugins@.insert(plugin_id, with_bypass(c.plugins@[plugin_id], bypass))
                } else {
                    c.plugins@
                })
            }),
    {
        let ghost before = self.chains@;
        match self.chains.remove(&track_id) {
            None => {
                assert(self.chains@ =~= before);
            },
            Some(mut chain) => {
                chain.set_plugin_bypass(plugin_id, bypass);
                self.chains.insert(track_id, chain);
                assert(self.chains@.remove(track_id) =~= before.remove(track_id));
            },
        }
    }
}

/// The plugins of a chain built from plugins in order, by id; a later plugin
/// takes the place of an earlier one with its id.
pub open spec fn plugins_by_id(ps: Seq<ChainPlugin>) -> Map<u64, ChainPlugin>
    decreases ps.len(),
{
    if ps.len() == 0 {
        Map::empty()
    } else {
        plugins_by_id(ps.drop_last()).insert(ps.last().plugin_id, ps.last())
    }
}

/// The ids of plugins, in order.
pub open spec fn ids_of(ps: Seq<ChainPlugin>) -> Seq<u64> {
    ps.map_values(|p: ChainPlugin| p.plugin_id)
}

/// The handles of the running instances among plugins, in order.
pub open spec fn handles_of(ps: Seq<ChainPlugin>) -> Seq<(usize, u64)>
    decreases ps.len(),
{
    if ps.len() == 0 {
        Seq::empty()
    } else {
        match ps.last().rt_instance_id {
            Some(h) => handles_of(ps.drop_last()).push(h),
            None => handles_of(ps.drop_last()),
        }
    }
}

/// The plugins of tracks given as (track id, plugins in order).
pub open spec fn track_plugins_view(tracks: Seq<(u64, Vec<ChainPlugin>)>) -> Seq<(u64, Seq<ChainPlugin>)> {
    tracks.map_values(|t: (u64, Vec<ChainPlugin>)| (t.0, t.1@))
}

/// The chains of tracks built in order, each as its plugins by id and its
/// order; a later track takes the place of an earlier one with its id.
pub open spec fn chains_of(tracks: Seq<(u64, Seq<ChainPlugin>)>) -> Map<
    u64,
    (Map<u64, ChainPlugin>, Seq<u64>),
>
    decreases tracks.len(),
{
    if tracks.len() == 0 {
        Map::empty()
    } else {
        let t = tracks.last();
        chains_of(tracks.drop_last()).insert(t.0, (plugins_by_id(t.1), ids_of(t.1)))
    }
}

/// The handles of the running instances of tracks' plugins, track by track.
pub open spec fn track_handles(tracks: Seq<(u64, Seq<ChainPlugin>)>) -> Seq<(usize, u64)>
    decreases tracks.len(),
{
    if tracks.len() == 0 {
        Seq::empty()
    } else {
        track_handles(tracks.drop_last()) + handles_of(tracks.last().1)
    }
}

/// Build a chain from its plugins in order, each added as `add_plugin`
/// adds it; gives the chain and the handles of its running instances.
fn build_chain(plugins: Vec<ChainPlugin>) -> (r: (TrackChain, Vec<(usize, u64)>))
    ensures
        r.0.plugins@ == plugins_by_id(plugins@),
        r.0.plugin_order@ == ids_of(plugins@),
        r.1@ == handles_of(plugins@),
{
    let ghost all = plugins@;
    let mut rest = plugins;
    let n = rest.len();
    assert(all.len() == n);
    let mut chain = TrackChain::new();
    let mut handles: Vec<(usize, u64)> = Vec::new();
    let mut i: usize = 0;
    while rest.len() > 0
        invariant
            all.len() <= usize::MAX,
            i + rest@.len() == all.len(),
            rest@ == all.skip(i as int),
            chain.plugins@ == plugins_by_id(all.take(i as int)),
            chain.plugin_order@ == ids_of(all.take(i as int)),
            handles@ == handles_of(all.take(i as int)),
        decreases rest@.len(),
    {
        proof {
            assert(all.take(i + 1).drop_last() =~= all.take(i as int));
            assert(all.take(i + 1).last() == all[i as int]);
            assert(all.skip(i as int)[0] == all[i as int]);
            assert(ids_of(all.take(i + 1)) =~= ids_of(all.take(i as int)).push(all[i as int].plugin_id));
        }
        let p = rest.remove(0);
        match p.rt_instance_id {
            Some(h) => handles.push(h),
            None => {},
        }
        chain.add_plugin(p);
        proof {
            assert(rest@ =~= all.skip(i + 1));
        }
        i = i + 1;
    }
    proof {
        assert(all.take(i as int) =~= all);
    }
    (chain, handles)
}

/// A sequence whose items all pass a test is its own filter.
proof fn lemma_filter_keeps_all(s: Seq<u64>, f: spec_fn(u64) -> bool)
    requires
        forall|i: int| 0 <= i < s.len() ==> f(#[trigger] s[i]),
    ensures
        s.filter(f) == s,
    decreases s.len(),
{
    reveal(Seq::filter);
    if s.len() > 0 {
        lemma_filter_keeps_all(s.drop_last(), f);
        assert(s.drop_last().push(s.last()) =~= s);
    } else {
        assert(s.filter(f) =~= s);
    }
}

/// Removing a plugin just added to a chain that held no plugin with its id
/// gives the chain back as it was, and hands back the added plugin's
/// instance.
pub proof fn lemma_remove_undoes_add(plugins: Map<u64, ChainPlugin>, order: Seq<u64>, p: ChainPlugin)
    requires
        !plugins.contains_key(p.plugin_id),
        !order.contains(p.plugin_id),
    ensures
        plugins.insert(p.plugin_id, p).remove(p.plugin_id) == plugins,
        order.push(p.plugin_id).filter(other_id(p.plugin_id)) == order,
        plugins.insert(p.plugin_id, p)[p.plugin_id].rt_instance_id == p.rt_instance_id,
{
    assert(plugins.insert(p.plugin_id, p).remove(p.plugin_id) =~= plugins);
    reveal(Seq::filter);
    assert(order.push(p.plugin_id).drop_last() =~= order);
    assert forall|i: int| 0 <= i < order.len() implies other_id(p.plugin_id)(#[trigger] order[i]) by {
        assert(order.contains(order[i]));
    }
    lemma_filter_keeps_all(order, other_id(p.plugin_id));
}

} // verus!
