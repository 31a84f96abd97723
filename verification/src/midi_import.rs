//! Reading the notes of a Standard MIDI File, track by track. Positions are
//! kept in ticks; turning them into beats is left to the caller.
use vstd::prelude::*;
use vstd::string::*;

use crate::midi_utils::{append_decimal, nat_text};
use midly::{MetaMessage as Meta, MidiMessage as Msg, TrackEvent, TrackEventKind as Kind};

verus! {

#[verifier::external_type_specification]
#[verifier::external_body]
pub struct ExTrackEvent<'a>(TrackEvent<'a>);

#[verifier::external_type_specification]
#[verifier::external_body]
pub struct ExMidiError(midly::Error);

/// How the ticks of a file relate to time: ticks per beat, or frames per
/// second and ticks per frame.
#[derive(Debug, Clone, Copy, PartialEq, Eq, Structural)]
pub enum MidiTiming {
    Metrical(u16),
    Timecode(u8, u8),
}

/// What an event of a track is, as far as reading notes goes.
#[derive(Debug, Clone, PartialEq, Eq)]
pub enum MidiEventKind {
    /// Channel, key and velocity.
    NoteOn(u8, u8, u8),
    /// Channel and key.
    NoteOff(u8, u8),
    ProgramChange(u8),
    /// The bytes of the track's name.
    TrackName(Vec<u8>),
    Other,
}

/// An event of a track and the ticks since the one before it.
#[derive(Debug, Clone, PartialEq, Eq)]
pub struct MidiTrackEvent {
    pub delta: u32,
    pub kind: MidiEventKind,
}

/// An event kind as the contracts see it, a name's bytes as a sequence.
pub enum MidiEventView {
    NoteOn(u8, u8, u8),
    NoteOff(u8, u8),
    ProgramChange(u8),
    TrackName(Seq<u8>),
    Other,
}

impl View for MidiEventKind {
    type V = MidiEventView;

    open spec fn view(&self) -> MidiEventView {
        match self {
            MidiEventKind::NoteOn(c, k, v) => MidiEventView::NoteOn(*c, *k, *v),
            MidiEventKind::NoteOff(c, k) => MidiEventView::NoteOff(*c, *k),
            MidiEventKind::ProgramChange(p) => MidiEventView::ProgramChange(*p),
            MidiEventKind::TrackName(b) => MidiEventView::TrackName(b@),
            MidiEventKind::Other => MidiEventView::Other,
        }
    }
}

/// An event as the contracts see it: its delta and its kind.
pub type EventView = (u32, MidiEventView);

impl View for MidiTrackEvent {
    type V = EventView;

    open spec fn view(&self) -> EventView {
        (self.delta, self.kind@)
    }
}

/// The events of a track, as the contracts see them.
pub open spec fn events_view(events: Seq<MidiTrackEvent>) -> Seq<EventView> {
    events.map_values(|e: MidiTrackEvent| e@)
}

/// The tracks of a file, as the contracts see them.
pub open spec fn tracks_view(tracks: Seq<Vec<MidiTrackEvent>>) -> Seq<Seq<EventView>> {
    tracks.map_values(|t: Vec<MidiTrackEvent>| events_view(t@))
}

/// A note read from a track: pitch, velocity, the tick it starts at, and the
/// tick it ends at (`None` when the track ends while it is held).
#[derive(Debug, Clone, Copy, PartialEq, Eq, Structural)]
pub struct TickNote {
    pub pitch: u8,
    pub velocity: u8,
    pub start: u64,
    pub end: Option<u64>,
}

/// A held note: its (channel, key) slot, start tick and velocity.
pub type HeldNote = (u16, u64, u8);

/// The text a byte string decodes to as UTF-8, if it is valid UTF-8.
pub uninterp spec fn utf8_decoded(bytes: Seq<u8>) -> Option<Seq<char>>;

/// The characters of a text that may be absent.
pub open spec fn text_view(s: Option<String>) -> Option<Seq<char>> {
    match s {
        Some(t) => Some(t@),
        None => None,
    }
}

/// Calls `std::str::from_utf8` on the bytes and copies the text out. Stated:
/// the result is the UTF-8 decoding of the bytes, `None` for bytes that are
/// not valid UTF-8.
#[verifier::external_body]
fn utf8_text(bytes: &Vec<u8>) -> (r: Option<String>)
    ensures
        text_view(r) == utf8_decoded(bytes@),
{
    std::str::from_utf8(bytes).ok().map(|s| s.to_string())
}

/// What midly's `Smf::parse` reads from the bytes of a file: its timing and
/// the events of each of its tracks, or, when midly refuses the bytes, the
/// text of the error it gives.
pub uninterp spec fn midi_file(data: Seq<u8>) -> Result<(MidiTiming, Seq<Seq<EventView>>), Seq<char>>;

/// The text midly's error writes when it is displayed.
pub uninterp spec fn midly_error_text(e: midly::Error) -> Seq<char>;

/// What an event that midly has read holds: its delta time and its kind.
pub uninterp spec fn midly_event(e: TrackEvent) -> EventView;

/// Calls midly's `Smf::parse` on the bytes of a file and hands back its
/// timing and its tracks. Stated: it succeeds exactly when midly parses the
/// bytes, with the timing and the events midly reads (a timing's ticks per
/// beat have 15 bits); otherwise its error is the one midly gives for the
/// bytes.
#[verifier::external_body]
fn parse_smf<'a>(data: &'a [u8]) -> (r: Result<(MidiTiming, Vec<Vec<TrackEvent<'a>>>), midly::Error>)
    ensures
        match r {
            Ok((t, tracks)) => midi_file(data@) == Ok::<(MidiTiming, Seq<Seq<EventView>>), Seq<char>>(
                (
                    t,
                    tracks@.map_values(
                        |tr: Vec<TrackEvent<'a>>| tr@.map_values(|e: TrackEvent<'a>| midly_event(e)),
                    ),
                ),
            ),
            Err(e) => midi_file(data@) == Err::<(MidiTiming, Seq<Seq<EventView>>), Seq<char>>(
                midly_error_text(e),
            ),
        },
        r matches Ok((MidiTiming::Metrical(d), _)) ==> d < 0x8000,
{
    let smf = midly::Smf::parse(data)?;
    let timing = match smf.header.timing {
        midly::Timing::Metrical(d) => MidiTiming::Metrical(d.as_int()),
        midly::Timing::Timecode(f, s) => MidiTiming::Timecode(f.as_int(), s),
    };
    Ok((timing, smf.tracks))
}

/// Reads the delta time of a midly event. Stated: it is the event's delta,
/// which has 28 bits in midly.
#[verifier::external_body]
fn event_delta(e: &TrackEvent) -> (r: u32)
    ensures
        r == midly_event(*e).0,
        r < 0x1000_0000,
{
    e.delta.as_int()
}

/// Tells midly's event kinds apart. Stated: it is the event's kind, whose
/// channels have 4 bits and keys, velocities and programs 7 bits, as midly's
/// types for them do.
#[verifier::external_body]
fn event_kind(e: &TrackEvent) -> (r: MidiEventKind)
    ensures
        r@ == midly_event(*e).1,
        r matches MidiEventKind::NoteOn(c, k, v) ==> c < 16 && k < 128 && v < 128,
        r matches MidiEventKind::NoteOff(c, k) ==> c < 16 && k < 128,
        r matches MidiEventKind::ProgramChange(p) ==> p < 128,
{
    match e.kind {
        Kind::Midi { channel: c, message: Msg::NoteOn { key: k, vel: v } } => MidiEventKind::NoteOn(c.as_int(), k.as_int(), v.as_int()),
        Kind::Midi { channel: c, message: Msg::NoteOff { key: k, .. } } => MidiEventKind::NoteOff(c.as_int(), k.as_int()),
        Kind::Midi { message: Msg::ProgramChange { program: p }, .. } => MidiEventKind::ProgramChange(p.as_int()),
        Kind::Meta(Meta::TrackName(n)) => MidiEventKind::TrackName(n.to_vec()),
        _ => MidiEventKind::Other,
    }
}

/// Calls the `Display` of midly's error. Stated: the text is a function of
/// the error.
#[verifier::external_body]
fn parse_error_text(e: &midly::Error) -> (r: String)
    ensures
        r@ == midly_error_text(*e),
{
    e.to_string()
}

/// The slot of a (channel, key) pair among the held notes.
pub open spec fn held_slot(channel: u8, key: u8) -> u16 {
    (channel as int * 256 + key as int) as u16
}

/// The position of the latest held note of a slot, if any.
pub open spec fn latest_of_slot(held: Seq<HeldNote>, slot: u16) -> Option<int>
    decreases held.len(),
{
    if held.len() == 0 {
        None
    } else if held.last().0 == slot {
        Some(held.len() - 1)
    } else {
        latest_of_slot(held.drop_last(), slot)
    }
}

/// What reading a track has gathered: the tick reached, the held notes
/// (oldest first), the finished notes, the first program, and the name.
pub type Reading = (u64, Seq<HeldNote>, Seq<TickNote>, Option<u8>, Option<Seq<char>>);

/// A reading after the key of a slot is released at tick `t`: the latest
/// held note of the slot (if any) finishes at `t`.
pub open spec fn released(r: Reading, t: u64, slot: u16, key: u8) -> Reading {
    match latest_of_slot(r.1, slot) {
        Some(j) => (
            t,
            r.1.remove(j),
            r.2.push(TickNote { pitch: key, velocity: r.1[j].2, start: r.1[j].1, end: Some(t) }),
            r.3,
            r.4,
        ),
        None => (t, r.1, r.2, r.3, r.4),
    }
}

/// A reading after one more event: the tick moves on by the event's delta
/// (saturating); a note-on with a velocity holds its note; a note-off, or a
/// note-on of velocity 0, releases the latest held note of its channel and
/// key; the first program change is kept; a name that is valid UTF-8
/// replaces the name.
pub open spec fn read_step(r: Reading, e: EventView) -> Reading {
    let t: u64 = if r.0 + e.0 > u64::MAX {
        u64::MAX
    } else {
        (r.0 + e.0) as u64
    };
    match e.1 {
        MidiEventView::NoteOn(c, k, v) => if v == 0 {
            released(r, t, held_slot(c, k), k)
        } else {
            (t, r.1.push((held_slot(c, k), t, v)), r.2, r.3, r.4)
        },
        MidiEventView::NoteOff(c, k) => released(r, t, held_slot(c, k), k),
        MidiEventView::ProgramChange(p) => (
            t,
            r.1,
            r.2,
            if r.3 is None {
                Some(p)
            } else {
                r.3
            },
            r.4,
        ),
        MidiEventView::TrackName(bytes) => (
            t,
            r.1,
            r.2,
            r.3,
            match utf8_decoded(bytes) {
                Some(s) => Some(s),
                None => r.4,
            },
        ),
        MidiEventView::Other => (t, r.1, r.2, r.3, r.4),
    }
}

/// The reading of a run of events from the start of a track.
pub open spec fn read_events(events: Seq<EventView>) -> Reading
    decreases events.len(),
{
    if events.len() == 0 {
        (0, Seq::empty(), Seq::empty(), None, None)
    } else {
        read_step(read_events(events.drop_last()), events.last())
    }
}

/// The notes still held when a track ends, oldest first, without an end.
pub open spec fn hanging_notes(held: Seq<HeldNote>) -> Seq<TickNote> {
    held.map_values(
        |h: HeldNote| TickNote { pitch: (h.0 % 256) as u8, velocity: h.2, start: h.1, end: None },
    )
}

/// The notes of a track: those finished, in the order they finished, then
/// those still held at its end.
pub open spec fn track_notes(events: Seq<EventView>) -> Seq<TickNote> {
    read_events(events).2 + hanging_notes(read_events(events).1)
}

/// A run of notes with one more put after every note that starts no later
/// than it.
pub open spec fn insert_by_start(s: Seq<TickNote>, n: TickNote) -> Seq<TickNote>
    decreases s.len(),
{
    if s.len() == 0 || s.last().start <= n.start {
        s.push(n)
    } else {
        insert_by_start(s.drop_last(), n).push(s.last())
    }
}

/// Notes sorted by start; notes that start together keep their order.
pub open spec fn sorted_by_start(s: Seq<TickNote>) -> Seq<TickNote>
    decreases s.len(),
{
    if s.len() == 0 {
        s
    } else {
        insert_by_start(sorted_by_start(s.drop_last()), s.last())
    }
}

/// Whether notes come in the order of their starts.
pub open spec fn starts_in_order(s: Seq<TickNote>) -> bool {
    forall|i: int, j: int| 0 <= i < j < s.len() ==> s[i].start <= s[j].start
}

/// Where a note goes in a sorted run: after the first `k` notes, when the
/// notes from `k` on start after it and the one before starts no later.
proof fn lemma_insert_at(s: Seq<TickNote>, n: TickNote, k: int)
    requires
        0 <= k <= s.len(),
        forall|j: int| k <= j < s.len() ==> s[j].start > n.start,
        k == 0 || s[k - 1].start <= n.start,
    ensures
        insert_by_start(s, n) == s.insert(k, n),
    decreases s.len(),
{
    if s.len() == 0 || s.last().start <= n.start {
        assert(k == s.len());
        assert(s.push(n) =~= s.insert(k, n));
    } else {
        assert(k < s.len());
        lemma_insert_at(s.drop_last(), n, k);
        assert(s.drop_last().insert(k, n).push(s.last()) =~= s.insert(k, n));
    }
}

/// Putting a note into a sorted run keeps it sorted and adds just that note.
proof fn lemma_insert_keeps_order(s: Seq<TickNote>, n: TickNote)
    requires
        starts_in_order(s),
    ensures
        starts_in_order(insert_by_start(s, n)),
        insert_by_start(s, n).to_multiset() == s.to_multiset().insert(n),
    decreases s.len(),
{
    broadcast use vstd::seq_lib::group_to_multiset_ensures;

    if s.len() == 0 || s.last().start <= n.start {
        assert(s.push(n).to_multiset() == s.to_multiset().insert(n));
    } else {
        let init = s.drop_last();
        assert(starts_in_order(init));
        lemma_insert_keeps_order(init, n);
        let r = insert_by_start(init, n);
        assert(init.push(s.last()) =~= s);
        assert forall|i: int| 0 <= i < r.len() implies r[i].start <= s.last().start by {
            let x = r[i];
            assert(r.contains(x));
            assert(r.to_multiset().count(x) > 0);
            if x != n {
                assert(init.to_multiset().count(x) > 0);
                assert(init.contains(x));
                let m = choose|m: int| 0 <= m < init.len() && init[m] == x;
                assert(s[m] == x);
            }
        }
        assert(r.push(s.last()).to_multiset() == r.to_multiset().insert(s.last()));
        assert(s.to_multiset() == init.to_multiset().insert(s.last()));
        assert(r.push(s.last()).to_multiset() =~= s.to_multiset().insert(n));
    }
}

/// Notes sorted by start come in the order of their starts, and are the
/// notes given, each as often as given.
pub proof fn lemma_sorted_by_start(s: Seq<TickNote>)
    ensures
        starts_in_order(sorted_by_start(s)),
        sorted_by_start(s).to_multiset() == s.to_multiset(),
    decreases s.len(),
{
    broadcast use vstd::seq_lib::group_to_multiset_ensures;

    if s.len() == 0 {
        assert(sorted_by_start(s) =~= s);
    } else {
        lemma_sorted_by_start(s.drop_last());
        lemma_insert_keeps_order(sorted_by_start(s.drop_last()), s.last());
        assert(s.drop_last().push(s.last()) =~= s);
    }
}

/// Put a note into a run sorted by start, after the notes that start no
/// later than it.
fn insert_note(v: &mut Vec<TickNote>, n: TickNote)
    ensures
        final(v)@ == insert_by_start(old(v)@, n),
{
    let mut k: usize = v.len();
    while k > 0 && v[k - 1].start > n.start
        invariant
            k <= v@.len(),
            forall|j: int| k <= j < v@.len() ==> v@[j].start > n.start,
        decreases k,
    {
        k = k - 1;
    }
    proof {
        lemma_insert_at(v@, n, k as int);
    }
    v.insert(k, n);
}

/// Sort notes by start; notes that start together keep their order.
pub fn sort_notes_by_start(notes: &Vec<TickNote>) -> (r: Vec<TickNote>)
    ensures
        r@ == sorted_by_start(notes@),
{
    let mut r: Vec<TickNote> = Vec::new();
    let mut i: usize = 0;
    while i < notes.len()
        invariant
            i <= notes@.len(),
            r@ == sorted_by_start(notes@.take(i as int)),
        decreases notes@.len() - i,
    {
        proof {
            assert(notes@.take(i + 1).drop_last() =~= notes@.take(i as int));
        }
        insert_note(&mut r, notes[i]);
        i = i + 1;
    }
    assert(notes@.take(notes@.len() as int) =~= notes@);
    r
}

/// The latest held note of a slot is the last one with that slot.
proof fn lemma_latest_of_slot(held: Seq<HeldNote>, slot: u16)
    ensures
        latest_of_slot(held, slot) matches Some(j) ==> 0 <= j < held.len() && held[j].0 == slot
            && forall|k: int| j < k < held.len() ==> held[k].0 != slot,
        latest_of_slot(held, slot) is None ==> forall|k: int|
            0 <= k < held.len() ==> held[k].0 != slot,
    decreases held.len(),
{
    if held.len() > 0 {
        lemma_latest_of_slot(held.drop_last(), slot);
        if held.last().0 != slot {
            assert forall|k: int| 0 <= k < held.len() - 1 implies held[k] == held.drop_last()[k] by {}
        }
    }
}

/// The position of the latest held note of a slot, if any.
fn latest_held(held: &Vec<HeldNote>, slot: u16) -> (r: Option<usize>)
    ensures
        match r {
            Some(j) => latest_of_slot(held@, slot) == Some(j as int) && j < held@.len(),
            None => latest_of_slot(held@, slot) is None,
        },
{
    let mut i: usize = held.len();
    while i > 0
        invariant
            i <= held@.len(),
            forall|k: int| i <= k < held@.len() ==> held@[k].0 != slot,
        decreases i,
    {
        if held[i - 1].0 == slot {
            let j = i - 1;
            proof {
                lemma_latest_of_slot(held@, slot);
                if let Some(m) = latest_of_slot(held@, slot) {
                    if m < j {
                        assert(held@[j as int].0 == slot);
                    }
                }
            }
            return Some(j);
        }
        i = i - 1;
    }
    proof {
        lemma_latest_of_slot(held@, slot);
    }
    None
}

/// Release the latest held note of a slot at tick `t`, finishing it.
fn release(held: &mut Vec<HeldNote>, notes: &mut Vec<TickNote>, slot: u16, key: u8, t: u64)
    ensures
        ({
            let r = released((0u64, old(held)@, old(notes)@, None::<u8>, None::<Seq<char>>), t, slot, key);
            final(held)@ == r.1 && final(notes)@ == r.2
        }),
{
    match latest_held(held, slot) {
        Some(j) => {
            let h = held.remove(j);
            notes.push(TickNote { pitch: key, velocity: h.2, start: h.1, end: Some(t) });
        },
        None => {},
    }
}

/// The notes, first program and name read from one track of a file, with
/// the track's position in the file.
#[derive(Debug)]
pub struct ImportedTrackTicks {
    pub index: usize,
    pub name: Option<String>,
    pub notes: Vec<TickNote>,
    pub program: Option<u8>,
}

/// The name an imported track is shown with: its own name, else "Track n"
/// with n its position counted from 1, followed by " (Prog p)" when it has
/// a program.
pub open spec fn track_display_name(index: nat, name: Option<Seq<char>>, program: Option<u8>) -> Seq<
    char,
> {
    match name {
        Some(n) => n,
        None => match program {
            Some(p) => "Track "@ + nat_text(index + 1) + " (Prog "@ + nat_text(p as nat) + ")"@,
            None => "Track "@ + nat_text(index + 1),
        },
    }
}

impl ImportedTrackTicks {
    /// The name this track is shown with.
    pub fn display_name(&self) -> (r: String)
        ensures
            r@ == track_display_name(self.index as nat, text_view(self.name), self.program),
    {
        match &self.name {
            Some(n) => n.clone(),
            None => {
                let mut s = String::from_str("Track ");
                append_decimal(&mut s, self.index as u128 + 1);
                match self.program {
                    Some(p) => {
                        s.append(" (Prog ");
                        append_decimal(&mut s, p as u128);
                        s.append(")");
                    },
                    None => {},
                }
                s
            },
        }
    }
}

/// Read the notes of a track: each note-off (or note-on of velocity 0)
/// finishes the latest held note of its channel and key; notes still held at
/// the end have no end. The notes come sorted by start, those that start
/// together in the order they finished, held ones last. The first program
/// change and the last name that is valid UTF-8 are kept.
pub fn read_track(index: usize, events: &Vec<MidiTrackEvent>) -> (r: ImportedTrackTicks)
    ensures
        r.index == index,
        r.notes@ == sorted_by_start(track_notes(events_view(events@))),
        r.program == read_events(events_view(events@)).3,
        text_view(r.name) == read_events(events_view(events@)).4,
{
    let mut ticks: u64 = 0;
    let mut held: Vec<HeldNote> = Vec::new();
    let mut notes: Vec<TickNote> = Vec::new();
    let mut program: Option<u8> = None;
    let mut name: Option<String> = None;
    let mut i: usize = 0;
    while i < events.len()
        invariant
            i <= events@.len(),
            (ticks, held@, notes@, program, text_view(name)) == read_events(
                events_view(events@).take(i as int),
            ),
        decreases events@.len() - i,
    {
        proof {
            assert(events_view(events@).take(i + 1).drop_last() =~= events_view(events@).take(
                i as int,
            ));
            assert(events_view(events@).take(i + 1).last() == events@[i as int]@);
        }
        let e = &events[i];
        let t = ticks.saturating_add(e.delta as u64);
        match &e.kind {
            MidiEventKind::NoteOn(c, k, v) => {
                let slot: u16 = *c as u16 * 256 + *k as u16;
                if *v == 0 {
                    release(&mut held, &mut notes, slot, *k, t);
                } else {
                    held.push((slot, t, *v));
                }
            },
            MidiEventKind::NoteOff(c, k) => {
                let slot: u16 = *c as u16 * 256 + *k as u16;
                release(&mut held, &mut notes, slot, *k, t);
            },
            MidiEventKind::ProgramChange(p) => {
                if program.is_none() {
                    program = Some(*p);
                }
            },
            MidiEventKind::TrackName(bytes) => {
                match utf8_text(bytes) {
                    Some(text) => {
                        name = Some(text);
                    },
                    None => {},
                }
            },
            MidiEventKind::Other => {},
        }
        ticks = t;
        i = i + 1;
    }
    assert(events_view(events@).take(events@.len() as int) =~= events_view(events@));
    let ghost finished = notes@;
    let mut j: usize = 0;
    while j < held.len()
        invariant
            j <= held@.len(),
            notes@ == finished + hanging_notes(held@.take(j as int)),
        decreases held@.len() - j,
    {
        let h = held[j];
        notes.push(TickNote { pitch: (h.0 % 256) as u8, velocity: h.2, start: h.1, end: None });
        proof {
            assert(hanging_notes(held@.take(j + 1)) =~= hanging_notes(held@.take(j as int)).push(
                notes@.last(),
            ));
            assert(notes@ =~= finished + hanging_notes(held@.take(j + 1)));
        }
        j = j + 1;
    }
    assert(held@.take(held@.len() as int) =~= held@);
    let notes = sort_notes_by_start(&notes);
    ImportedTrackTicks { index, name, notes, program }
}

/// While a track is read, every held note started at or before the current
/// tick, and every finished note ends at or after its start and no later
/// than the current tick.
proof fn lemma_reading_in_order(events: Seq<EventView>)
    ensures
        ({
            let r = read_events(events);
            &&& forall|i: int| 0 <= i < r.1.len() ==> (#[trigger] r.1[i]).1 <= r.0
            &&& forall|i: int|
                0 <= i < r.2.len() ==> ((#[trigger] r.2[i]).end matches Some(e) && r.2[i].start <= e
                    <= r.0)
        }),
    decreases events.len(),
{
    if events.len() > 0 {
        lemma_reading_in_order(events.drop_last());
        let r = read_events(events.drop_last());
        let e = events.last();
        let t: u64 = if r.0 + e.0 > u64::MAX {
            u64::MAX
        } else {
            (r.0 + e.0) as u64
        };
        assert(r.0 <= t);
        let slot_and_key: Option<(u16, u8)> = match e.1 {
            MidiEventView::NoteOn(c, k, v) => if v == 0 {
                Some((held_slot(c, k), k))
            } else {
                None
            },
            MidiEventView::NoteOff(c, k) => Some((held_slot(c, k), k)),
            _ => None,
        };
        if let Some((slot, key)) = slot_and_key {
            lemma_latest_of_slot(r.1, slot);
            if let Some(j) = latest_of_slot(r.1, slot) {
                let post = released(r, t, slot, key);
                assert forall|i: int| 0 <= i < post.1.len() implies (#[trigger] post.1[i]).1
                    <= post.0 by {
                    if i < j {
                        assert(post.1[i] == r.1[i]);
                    } else {
                        assert(post.1[i] == r.1[i + 1]);
                    }
                }
                assert forall|i: int| 0 <= i < post.2.len() implies ((#[trigger] post.2[i]).end matches Some(
                    e2,
                ) && post.2[i].start <= e2 <= post.0) by {
                    if i < r.2.len() {
                        assert(post.2[i] == r.2[i]);
                    }
                }
            }
        }
    }
}

/// A note read from a track never ends before it starts, and the notes of
/// a track come in the order of their starts.
pub proof fn lemma_notes_end_after_start(events: Seq<EventView>)
    ensures
        forall|i: int|
            0 <= i < sorted_by_start(track_notes(events)).len() ==> ((#[trigger] sorted_by_start(
                track_notes(events),
            )[i]).end matches Some(e) ==> sorted_by_start(track_notes(events))[i].start <= e),
        starts_in_order(sorted_by_start(track_notes(events))),
{
    broadcast use vstd::seq_lib::group_to_multiset_ensures;

    lemma_reading_in_order(events);
    lemma_sorted_by_start(track_notes(events));
    let r = read_events(events);
    let t = track_notes(events);
    let sorted = sorted_by_start(t);
    assert forall|i: int| 0 <= i < sorted.len() implies ((#[trigger] sorted[i]).end matches Some(e)
        ==> sorted[i].start <= e) by {
        let x = sorted[i];
        assert(sorted.contains(x));
        assert(t.to_multiset().count(x) > 0);
        let m = choose|m: int| 0 <= m < t.len() && t[m] == x;
        if m < r.2.len() {
            assert(t[m] == r.2[m]);
        } else {
            assert(t[m] == hanging_notes(r.1)[m - r.2.len()]);
        }
    }
}

/// What is kept of an imported track: its position, name, notes and program.
pub open spec fn imported_view(t: ImportedTrackTicks) -> (usize, Option<Seq<char>>, Seq<TickNote>, Option<u8>) {
    (t.index, text_view(t.name), t.notes@, t.program)
}

/// The tracks imported from the events of the tracks of a file: those with
/// notes, in order, each with its position in the file.
pub open spec fn imported_tracks(tracks: Seq<Seq<EventView>>) -> Seq<
    (usize, Option<Seq<char>>, Seq<TickNote>, Option<u8>),
>
    decreases tracks.len(),
{
    if tracks.len() == 0 {
        Seq::empty()
    } else {
        let prev = imported_tracks(tracks.drop_last());
        let events = tracks.last();
        if track_notes(events).len() > 0 {
            prev.push(
                (
                    (tracks.len() - 1) as usize,
                    read_events(events).4,
                    sorted_by_start(track_notes(events)),
                    read_events(events).3,
                ),
            )
        } else {
            prev
        }
    }
}

/// Read every track of a file, keeping the tracks that have notes.
pub fn read_tracks(tracks: &Vec<Vec<MidiTrackEvent>>) -> (r: Vec<ImportedTrackTicks>)
    ensures
        r@.map_values(|t: ImportedTrackTicks| imported_view(t)) == imported_tracks(
            tracks_view(tracks@),
        ),
{
    let mut r: Vec<ImportedTrackTicks> = Vec::new();
    let mut i: usize = 0;
    while i < tracks.len()
        invariant
            i <= tracks@.len(),
            r@.map_values(|t: ImportedTrackTicks| imported_view(t)) == imported_tracks(
                tracks_view(tracks@).take(i as int),
            ),
        decreases tracks@.len() - i,
    {
        proof {
            assert(tracks_view(tracks@).take(i + 1).drop_last() =~= tracks_view(tracks@).take(
                i as int,
            ));
            assert(tracks_view(tracks@).take(i + 1).last() == events_view(tracks@[i as int]@));
        }
        let track = read_track(i, &tracks[i]);
        proof {
            broadcast use vstd::seq_lib::group_to_multiset_ensures;

            lemma_sorted_by_start(track_notes(events_view(tracks@[i as int]@)));
        }
        if track.notes.len() > 0 {
            let ghost before = r@;
            r.push(track);
            proof {
                assert(r@.map_values(|t: ImportedTrackTicks| imported_view(t)) =~= before.map_values(
                    |t: ImportedTrackTicks| imported_view(t),
                ).push(imported_view(track)));
            }
        }
        i = i + 1;
    }
    assert(tracks_view(tracks@).take(tracks@.len() as int) =~= tracks_view(tracks@));
    r
}

/// Read the notes of a Standard MIDI File from its bytes: its timing, and
/// each track with notes as `read_track` reads the events midly finds in it.
/// A file midly cannot parse gives the error "MIDI parse failed: " followed
/// by midly's own message.
pub fn import_midi_data(data: &[u8]) -> (r: Result<(MidiTiming, Vec<ImportedTrackTicks>), String>)
    ensures
        r is Ok <==> midi_file(data@) is Ok,
        r matches Ok((t, ts)) ==> (midi_file(data@) matches Ok((t2, tracks)) && t == t2
            && ts@.map_values(|x: ImportedTrackTicks| imported_view(x)) == imported_tracks(tracks)),
        r matches Err(m) ==> (midi_file(data@) matches Err(text) && m@ == "MIDI parse failed: "@
            + text),
{
    match parse_smf(data) {
        Err(e) => {
            let text = parse_error_text(&e);
            let m = String::from_str("MIDI parse failed: ").concat(text.as_str());
            Err(m)
        },
        Ok((timing, raw)) => {
            let ghost read = raw@.map_values(
                |tr: Vec<TrackEvent>| tr@.map_values(|e: TrackEvent| midly_event(e)),
            );
            let mut tracks: Vec<Vec<MidiTrackEvent>> = Vec::new();
            let mut t: usize = 0;
            while t < raw.len()
                invariant
                    t <= raw@.len(),
                    read.len() == raw@.len(),
                    forall|i: int| 0 <= i < raw@.len() ==> #[trigger] read[i] == raw@[i]@.map_values(
                        |e: TrackEvent| midly_event(e),
                    ),
                    tracks_view(tracks@) == read.take(t as int),
                decreases raw@.len() - t,
            {
                let ghost want = read[t as int];
                let mut events: Vec<MidiTrackEvent> = Vec::new();
                let mut k: usize = 0;
                while k < raw[t].len()
                    invariant
                        t < raw@.len(),
                        k <= raw@[t as int]@.len(),
                        want == raw@[t as int]@.map_values(|e: TrackEvent| midly_event(e)),
                        events_view(events@) == want.take(k as int),
                    decreases raw@[t as int]@.len() - k,
                {
                    let e = &raw[t][k];
                    let ev = MidiTrackEvent { delta: event_delta(e), kind: event_kind(e) };
                    let ghost before = events@;
                    events.push(ev);
                    proof {
                        assert(events_view(events@) =~= events_view(before).push(ev@));
                        assert(want.take(k + 1) =~= want.take(k as int).push(want[k as int]));
                    }
                    k = k + 1;
                }
                proof {
                    assert(want.take(k as int) =~= want);
                }
                let ghost before = tracks@;
                tracks.push(events);
                proof {
                    assert(tracks_view(tracks@) =~= tracks_view(before).push(events_view(events@)));
                    assert(read.take(t + 1) =~= read.take(t as int).push(read[t as int]));
                }
                t = t + 1;
            }
            proof {
                assert(read.take(t as int) =~= read);
            }
            Ok((timing, read_tracks(&tracks)))
        },
    }
}

} // verus!
