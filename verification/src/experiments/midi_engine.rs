//! MIDI input filtering, outgoing message bytes, and the pairing of recorded
//! note-ons with note-offs.
use vstd::prelude::*;

use std::collections::HashMap;

use crate::audio::panic_events;

verus! {

broadcast use vstd::std_specs::hash::group_hash_axioms;

/// A MIDI event received from an input, with a timestamp in microseconds.
#[derive(Debug, Clone, Copy, PartialEq, Eq, Structural)]
pub struct MidiEvent {
    pub timestamp: u64,
    pub channel: u8,
    pub event_type: MidiEventType,
}

/// The kind of a MIDI event and its data.
#[derive(Debug, Clone, Copy, PartialEq, Eq, Structural)]
pub enum MidiEventType {
    NoteOn { pitch: u8, velocity: u8 },
    NoteOff { pitch: u8 },
    ControlChange { controller: u8, value: u8 },
    ProgramChange { program: u8 },
    PitchBend { value: i16 },
    Aftertouch { pressure: u8 },
    PolyAftertouch { pitch: u8, pressure: u8 },
}

/// Which incoming events are accepted, and how notes are transposed.
#[derive(Debug)]
pub struct MidiFilter {
    /// Which channels to accept, by channel number.
    pub channels: Vec<bool>,
    /// Lowest and highest accepted note.
    pub note_range: (u8, u8),
    /// Lowest and highest accepted velocity.
    pub velocity_range: (u8, u8),
    pub transpose: i8,
}

/// A pitch moved by a number of semitones, clamped to 0..=127.
pub open spec fn transposed_pitch(pitch: u8, semitones: int) -> u8 {
    let p = pitch + semitones;
    if p < 0 {
        0
    } else if p > 127 {
        127
    } else {
        p as u8
    }
}

/// The event a filter passes on for an incoming one, or `None` when it drops
/// it: events on a rejected channel are dropped; a note-on outside the note or
/// velocity range is dropped; note-ons and note-offs are transposed.
pub open spec fn filtered_event(f: MidiFilter, e: MidiEvent) -> Option<MidiEvent> {
    if !f.channels@[e.channel as int] {
        None
    } else {
        match e.event_type {
            MidiEventType::NoteOn { pitch, velocity } => {
                if pitch < f.note_range.0 || pitch > f.note_range.1 || velocity
                    < f.velocity_range.0 || velocity > f.velocity_range.1 {
                    None
                } else {
                    Some(
                        MidiEvent {
                            event_type: MidiEventType::NoteOn {
                                pitch: transposed_pitch(pitch, f.transpose as int),
                                velocity,
                            },
                            ..e
                        },
                    )
                }
            },
            MidiEventType::NoteOff { pitch } => Some(
                MidiEvent {
                    event_type: MidiEventType::NoteOff {
                        pitch: transposed_pitch(pitch, f.transpose as int),
                    },
                    ..e
                },
            ),
            _ => Some(e),
        }
    }
}

/// A pitch moved by `t` semitones and held within 0..=127.
pub open spec fn moved_within_range(pitch: u8, t: int, moved: u8) -> bool {
    &&& moved <= 127
    &&& 0 <= pitch + t <= 127 ==> moved == pitch + t
    &&& pitch + t < 0 ==> moved == 0
    &&& pitch + t > 127 ==> moved == 127
}

/// What a filter does with an event: an event on a channel it rejects is
/// dropped; a note-on passes exactly when its pitch lies in the note range
/// and its velocity in the velocity range, and then only its pitch changes,
/// moved by the transposition; a note-off always passes with its pitch
/// moved the same way; any other event passes unchanged. What passes keeps
/// its time and channel.
pub proof fn lemma_filter_decides(f: MidiFilter, e: MidiEvent)
    requires
        (e.channel as int) < f.channels@.len(),
    ensures
        !f.channels@[e.channel as int] ==> filtered_event(f, e) is None,
        filtered_event(f, e) matches Some(r) ==> r.timestamp == e.timestamp && r.channel
            == e.channel,
        f.channels@[e.channel as int] ==> match e.event_type {
            MidiEventType::NoteOn { pitch, velocity } => {
                &&& filtered_event(f, e) is Some <==> (f.note_range.0 <= pitch <= f.note_range.1
                    && f.velocity_range.0 <= velocity <= f.velocity_range.1)
                &&& filtered_event(f, e) matches Some(r) ==> (r.event_type matches MidiEventType::NoteOn {
                    pitch: p,
                    velocity: v,
                } && v == velocity && moved_within_range(pitch, f.transpose as int, p))
            },
            MidiEventType::NoteOff { pitch } => filtered_event(f, e) matches Some(r) && (
            r.event_type matches MidiEventType::NoteOff { pitch: p } && moved_within_range(
                pitch,
                f.transpose as int,
                p,
            )),
            _ => filtered_event(f, e) == Some(e),
        },
{
}

/// A pitch moved by a number of semitones, clamped to 0..=127.
pub fn transpose_pitch(pitch: u8, semitones: i16) -> (r: u8)
    ensures
        r == transposed_pitch(pitch, semitones as int),
{
    let p: i32 = pitch as i32 + semitones as i32;
    if p < 0 {
        0
    } else if p > 127 {
        127
    } else {
        p as u8
    }
}

impl Default for MidiFilter {
    fn default() -> (r: Self)
        ensures
            r.channels@ == Seq::new(16, |i: int| true),
            r.note_range == (0u8, 127u8),
            r.velocity_range == (1u8, 127u8),
            r.transpose == 0,
    {
        let mut channels: Vec<bool> = Vec::new();
        let mut i: usize = 0;
        while i < 16
            invariant
                i <= 16,
                channels@ == Seq::new(i as nat, |j: int| true),
            decreases 16 - i,
        {
            channels.push(true);
            i = i + 1;
            assert(channels@ =~= Seq::new(i as nat, |j: int| true));
        }
        MidiFilter { channels, note_range: (0, 127), velocity_range: (1, 127), transpose: 0 }
    }
}

impl MidiFilter {
    /// The event this filter passes on for an incoming one, or `None` when it
    /// drops it.
    pub fn filter_event(&self, event: MidiEvent) -> (r: Option<MidiEvent>)
        requires
            (event.channel as int) < self.channels@.len(),
        ensures
            r == filtered_event(*self, event),
    {
        if !self.channels[event.channel as usize] {
            return None;
        }
        match event.event_type {
            MidiEventType::NoteOn { pitch, velocity } => {
                if pitch < self.note_range.0 || pitch > self.note_range.1 || velocity
                    < self.velocity_range.0 || velocity > self.velocity_range.1 {
                    None
                } else {
                    Some(
                        MidiEvent {
                            timestamp: event.timestamp,
                            channel: event.channel,
                            event_type: MidiEventType::NoteOn {
                                pitch: transpose_pitch(pitch, self.transpose as i16),
                                velocity,
                            },
                        },
                    )
                }
            },
            MidiEventType::NoteOff { pitch } => Some(
                MidiEvent {
                    timestamp: event.timestamp,
                    channel: event.channel,
                    event_type: MidiEventType::NoteOff {
                        pitch: transpose_pitch(pitch, self.transpose as i16),
                    },
                },
            ),
            _ => Some(event),
        }
    }
}

/// The bytes of a note-on message: status `0x90` with the channel, then the
/// pitch and velocity cut to seven bits.
pub fn note_on_message(channel: u8, pitch: u8, velocity: u8) -> (r: [u8; 3])
    ensures
        r@ == seq![0x90u8 | (channel & 0x0F), pitch & 0x7F, velocity & 0x7F],
{
    let r = [0x90 | (channel & 0x0F), pitch & 0x7F, velocity & 0x7F];
    assert(r@ =~= seq![0x90u8 | (channel & 0x0F), pitch & 0x7F, velocity & 0x7F]);
    r
}

/// The bytes of a note-off message: status `0x80` with the channel, the
/// pitch cut to seven bits, and velocity 0.
pub fn note_off_message(channel: u8, pitch: u8) -> (r: [u8; 3])
    ensures
        r@ == seq![0x80u8 | (channel & 0x0F), pitch & 0x7F, 0u8],
{
    let r = [0x80 | (channel & 0x0F), pitch & 0x7F, 0];
    assert(r@ =~= seq![0x80u8 | (channel & 0x0F), pitch & 0x7F, 0u8]);
    r
}

/// The bytes of a control-change message: status `0xB0` with the channel,
/// then controller and value cut to seven bits.
pub fn control_change_message(channel: u8, controller: u8, value: u8) -> (r: [u8; 3])
    ensures
        r@ == seq![0xB0u8 | (channel & 0x0F), controller & 0x7F, value & 0x7F],
{
    let r = [0xB0 | (channel & 0x0F), controller & 0x7F, value & 0x7F];
    assert(r@ =~= seq![0xB0u8 | (channel & 0x0F), controller & 0x7F, value & 0x7F]);
    r
}

/// A recorded note: its pitch and velocity, and the timestamps of its
/// note-on and note-off.
#[derive(Debug, Clone, Copy, PartialEq, Eq, Structural)]
pub struct RecordedNote {
    pub pitch: u8,
    pub velocity: u8,
    pub start: u64,
    pub end: u64,
}

/// The open note-ons (timestamp and velocity), by pitch.
pub type OpenNotes = Seq<Option<(u64, u8)>>;

/// The open note-ons and the finished notes after a run of events: a note-on
/// opens its pitch (replacing an open one); a note-off of an open pitch closes
/// it and finishes a note; other events change nothing.
pub open spec fn pair_notes(events: Seq<MidiEvent>) -> (OpenNotes, Seq<RecordedNote>)
    decreases events.len(),
{
    if events.len() == 0 {
        (Seq::new(256, |i: int| None), Seq::empty())
    } else {
        let (open, done) = pair_notes(events.drop_last());
        let e = events.last();
        match e.event_type {
            MidiEventType::NoteOn { pitch, velocity } => (
                open.update(pitch as int, Some((e.timestamp, velocity))),
                done,
            ),
            MidiEventType::NoteOff { pitch } => match open[pitch as int] {
                Some((start, velocity)) => (
                    open.update(pitch as int, None),
                    done.push(RecordedNote { pitch, velocity, start, end: e.timestamp }),
                ),
                None => (open, done),
            },
            _ => (open, done),
        }
    }
}

/// The notes of a recording: each note-off is paired with the latest open
/// note-on of its pitch; the notes come in the order of their note-offs.
pub fn pair_recorded_notes(events: &Vec<MidiEvent>) -> (r: Vec<RecordedNote>)
    ensures
        r@ == pair_notes(events@).1,
{
    let mut open: Vec<Option<(u64, u8)>> = Vec::new();
    let mut k: usize = 0;
    while k < 256
        invariant
            k <= 256,
            open@ == Seq::new(k as nat, |i: int| None::<(u64, u8)>),
        decreases 256 - k,
    {
        open.push(None);
        k = k + 1;
        assert(open@ =~= Seq::new(k as nat, |i: int| None::<(u64, u8)>));
    }
    let mut done: Vec<RecordedNote> = Vec::new();
    let mut i: usize = 0;
    while i < events.len()
        invariant
            i <= events@.len(),
            open@.len() == 256,
            (open@, done@) == pair_notes(events@.take(i as int)),
        decreases events@.len() - i,
    {
        let e = events[i];
        proof {
            assert(events@.take(i + 1).drop_last() =~= events@.take(i as int));
            assert(events@.take(i + 1).last() == e);
        }
        match e.event_type {
            MidiEventType::NoteOn { pitch, velocity } => {
                open.set(pitch as usize, Some((e.timestamp, velocity)));
            },
            MidiEventType::NoteOff { pitch } => {
                match open[pitch as usize] {
                    Some((start, velocity)) => {
                        open.set(pitch as usize, None);
                        done.push(RecordedNote { pitch, velocity, start, end: e.timestamp });
                    },
                    None => {},
                }
            },
            _ => {},
        }
        i = i + 1;
    }
    assert(events@.take(events@.len() as int) =~= events@);
    done
}

/// The key of a (channel, pitch) pair among the sounding notes.
pub open spec fn note_key(channel: u8, pitch: u8) -> u16 {
    (channel as int * 256 + pitch as int) as u16
}

/// The bytes a passed-on event is echoed as: note-ons, note-offs and
/// control changes are echoed, other events are not.
pub open spec fn echo_bytes(e: MidiEvent) -> Option<Seq<u8>> {
    match e.event_type {
        MidiEventType::NoteOn { pitch, velocity } => Some(
            seq![0x90u8 | (e.channel & 0x0F), pitch & 0x7F, velocity & 0x7F],
        ),
        MidiEventType::NoteOff { pitch } => Some(seq![0x80u8 | (e.channel & 0x0F), pitch & 0x7F, 0u8]),
        MidiEventType::ControlChange { controller, value } => Some(
            seq![0xB0u8 | (e.channel & 0x0F), controller & 0x7F, value & 0x7F],
        ),
        _ => None,
    }
}

/// The sounding notes after an event is echoed at `now`: a note-on starts
/// its note (at `now`), a note-off ends it, other events change nothing.
pub open spec fn sounding_after_echo(active: Map<u16, u64>, e: MidiEvent, now: u64) -> Map<
    u16,
    u64,
> {
    match e.event_type {
        MidiEventType::NoteOn { pitch, .. } => active.insert(note_key(e.channel, pitch), now),
        MidiEventType::NoteOff { pitch } => active.remove(note_key(e.channel, pitch)),
        _ => active,
    }
}

/// The state of the MIDI engine apart from its device connections: the
/// notes it sounds, the recording, the input filter and whether input is
/// echoed to the outputs. Each operation returns the bytes to send to the
/// outputs.
pub struct MidiEngine {
    active_notes: HashMap<u16, u64>,
    recording_buffer: Vec<MidiEvent>,
    is_recording: bool,
    record_start_time: u64,
    input_filter: MidiFilter,
    echo_to_output: bool,
}

impl MidiEngine {
    /// The sounding notes, by `note_key`, with the time each started.
    pub closed spec fn sounding(self) -> Map<u16, u64> {
        self.active_notes@
    }

    /// The events recorded so far.
    pub closed spec fn recorded(self) -> Seq<MidiEvent> {
        self.recording_buffer@
    }

    /// Whether input is being recorded.
    pub closed spec fn recording(self) -> bool {
        self.is_recording
    }

    /// When the recording started.
    pub closed spec fn record_start(self) -> u64 {
        self.record_start_time
    }

    /// The input filter.
    pub closed spec fn filter(self) -> MidiFilter {
        self.input_filter
    }

    /// Whether passed-on input is echoed to the outputs.
    pub closed spec fn echoes(self) -> bool {
        self.echo_to_output
    }

    /// The filter has a flag for each of the sixteen channels.
    pub closed spec fn wf(self) -> bool {
        self.input_filter.channels@.len() == 16
    }

    /// An engine that sounds nothing, does not record, passes every channel
    /// and echoes its input.
    pub fn new() -> (r: Self)
        ensures
            r.wf(),
            r.sounding() == Map::<u16, u64>::empty(),
            r.recorded() == Seq::<MidiEvent>::empty(),
            !r.recording(),
            r.record_start() == 0,
            r.echoes(),
            r.filter().channels@ == Seq::new(16, |i: int| true),
            r.filter().note_range == (0u8, 127u8),
            r.filter().velocity_range == (1u8, 127u8),
            r.filter().transpose == 0,
    {
        MidiEngine {
            active_notes: HashMap::new(),
            recording_buffer: Vec::new(),
            is_recording: false,
            record_start_time: 0,
            input_filter: MidiFilter::default(),
            echo_to_output: true,
        }
    }

    /// Start a note at `now`; returns the note-on bytes to send.
    pub fn send_note_on(&mut self, channel: u8, pitch: u8, velocity: u8, now: u64) -> (r: [u8; 3])
        ensures
            r@ == seq![0x90u8 | (channel & 0x0F), pitch & 0x7F, velocity & 0x7F],
            final(self).sounding() == old(self).sounding().insert(note_key(channel, pitch), now),
            final(self).recorded() == old(self).recorded(),
            final(self).recording() == old(self).recording(),
            final(self).record_start() == old(self).record_start(),
            final(self).filter() == old(self).filter(),
            final(self).echoes() == old(self).echoes(),
    {
        let key: u16 = channel as u16 * 256 + pitch as u16;
        self.active_notes.insert(key, now);
        note_on_message(channel, pitch, velocity)
    }

    /// End a note; returns the note-off bytes to send.
    pub fn send_note_off(&mut self, channel: u8, pitch: u8) -> (r: [u8; 3])
        ensures
            r@ == seq![0x80u8 | (channel & 0x0F), pitch & 0x7F, 0u8],
            final(self).sounding() == old(self).sounding().remove(note_key(channel, pitch)),
            final(self).recorded() == old(self).recorded(),
            final(self).recording() == old(self).recording(),
            final(self).record_start() == old(self).record_start(),
            final(self).filter() == old(self).filter(),
            final(self).echoes() == old(self).echoes(),
    {
        let key: u16 = channel as u16 * 256 + pitch as u16;
        let _ = self.active_notes.remove(&key);
        note_off_message(channel, pitch)
    }

    /// The control-change bytes to send.
    pub fn send_control_change(&self, channel: u8, controller: u8, value: u8) -> (r: [u8; 3])
        ensures
            r@ == seq![0xB0u8 | (channel & 0x0F), controller & 0x7F, value & 0x7F],
    {
        control_change_message(channel, controller, value)
    }

    /// Silence everything: "all notes off" and "all sound off" on every
    /// channel, channel by channel; no note sounds afterwards.
    pub fn panic(&mut self) -> (r: Vec<[u8; 3]>)
        ensures
            r@.len() == 32,
            forall|i: int|
                0 <= i < 32 ==> (#[trigger] r@[i])@ == seq![
                    panic_events()[i].status,
                    panic_events()[i].data1,
                    0u8,
                ],
            final(self).sounding() == Map::<u16, u64>::empty(),
            final(self).recorded() == old(self).recorded(),
            final(self).recording() == old(self).recording(),
            final(self).record_start() == old(self).record_start(),
            final(self).filter() == old(self).filter(),
            final(self).echoes() == old(self).echoes(),
    {
        let mut r: Vec<[u8; 3]> = Vec::new();
        let mut channel: u8 = 0;
        while channel < 16
            invariant
                channel <= 16,
                r@.len() == 2 * channel,
                forall|i: int|
                    0 <= i < 2 * channel ==> (#[trigger] r@[i])@ == seq![
                        panic_events()[i].status,
                        panic_events()[i].data1,
                        0u8,
                    ],
            decreases 16 - channel,
        {
            let off = control_change_message(channel, 123, 0);
            let silence = control_change_message(channel, 120, 0);
            proof {
                assert((channel & 0x0F) == channel) by (bit_vector)
                    requires
                        channel < 16,
                ;
                assert(0xB0u8 | channel == 0xB0 + channel) by (bit_vector)
                    requires
                        channel < 16,
                ;
                assert((123u8 & 0x7F) == 123u8) by (bit_vector);
                assert((120u8 & 0x7F) == 120u8) by (bit_vector);
                assert((0u8 & 0x7F) == 0u8) by (bit_vector);
            }
            r.push(off);
            r.push(silence);
            proof {
                let k = 2 * channel as int;
                assert(panic_events()[k].status == 0xB0 + channel);
                assert(panic_events()[k + 1].status == 0xB0 + channel);
            }
            channel = channel + 1;
        }
        self.active_notes.clear();
        r
    }

    /// Start recording at `now`, from an empty recording.
    pub fn start_recording(&mut self, now: u64)
        ensures
            final(self).recorded() == Seq::<MidiEvent>::empty(),
            final(self).recording(),
            final(self).record_start() == now,
            final(self).sounding() == old(self).sounding(),
            final(self).filter() == old(self).filter(),
            final(self).echoes() == old(self).echoes(),
    {
        self.recording_buffer.clear();
        self.is_recording = true;
        self.record_start_time = now;
    }

    /// Stop recording; returns the events recorded.
    pub fn stop_recording(&mut self) -> (r: Vec<MidiEvent>)
        ensures
            r@ == old(self).recorded(),
            !final(self).recording(),
            final(self).recorded() == old(self).recorded(),
            final(self).record_start() == old(self).record_start(),
            final(self).sounding() == old(self).sounding(),
            final(self).filter() == old(self).filter(),
            final(self).echoes() == old(self).echoes(),
    {
        self.is_recording = false;
        self.recording_buffer.clone()
    }

    /// When the recording started.
    pub fn record_start_time(&self) -> (r: u64)
        ensures
            r == self.record_start(),
    {
        self.record_start_time
    }

    /// The notes recorded so far, each note-off paired with the latest open
    /// note-on of its pitch, with their timestamps.
    pub fn recorded_notes(&self) -> (r: Vec<RecordedNote>)
        ensures
            r@ == pair_notes(self.recorded()).1,
    {
        pair_recorded_notes(&self.recording_buffer)
    }

    /// Take in an event from an input at `now`: the filter may drop it;
    /// otherwise it is recorded while recording, and when echo is on a
    /// note-on, note-off or control change is echoed (a note-on starts its
    /// note, a note-off ends it). Returns the bytes to send, if any.
    pub fn process_input_event(&mut self, event: MidiEvent, now: u64) -> (r: Option<[u8; 3]>)
        requires
            old(self).wf(),
            event.channel < 16,
        ensures
            final(self).wf(),
            final(self).filter() == old(self).filter(),
            final(self).echoes() == old(self).echoes(),
            final(self).recording() == old(self).recording(),
            final(self).record_start() == old(self).record_start(),
            match filtered_event(old(self).filter(), event) {
                None => r is None && final(self).recorded() == old(self).recorded()
                    && final(self).sounding() == old(self).sounding(),
                Some(fe) => {
                    &&& final(self).recorded() == if old(self).recording() {
                        old(self).recorded().push(fe)
                    } else {
                        old(self).recorded()
                    }
                    &&& if old(self).echoes() {
                        &&& (r matches Some(m) ==> echo_bytes(fe) == Some(m@))
                        &&& (r is None ==> echo_bytes(fe) is None)
                        &&& final(self).sounding() == sounding_after_echo(
                            old(self).sounding(),
                            fe,
                            now,
                        )
                    } else {
                        r is None && final(self).sounding() == old(self).sounding()
                    }
                },
            },
    {
        let filtered = match self.input_filter.filter_event(event) {
            Some(e) => e,
            None => return None,
        };
        if self.is_recording {
            self.recording_buffer.push(filtered);
        }
        if self.echo_to_output {
            match filtered.event_type {
                MidiEventType::NoteOn { pitch, velocity } => Some(
                    self.send_note_on(filtered.channel, pitch, velocity, now),
                ),
                MidiEventType::NoteOff { pitch } => Some(self.send_note_off(filtered.channel, pitch)),
                MidiEventType::ControlChange { controller, value } => Some(
                    self.send_control_change(filtered.channel, controller, value),
                ),
                _ => None,
            }
        } else {
            None
        }
    }
}

} // verus!
