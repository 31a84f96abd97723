//! Edits of MIDI notes that depend only on pitches and ids.
use vstd::prelude::*;

use crate::experiments::midi_engine::transposed_pitch;

verus! {

/// Edit operations on clips and notes.
pub struct EditProcessor;

/// A note as the pitch edits see it: its id and its pitch.
#[derive(Debug, Clone, Copy, PartialEq, Eq, Structural)]
pub struct NotePitch {
    pub id: u64,
    pub pitch: u8,
}

/// A pitch moved by a number of semitones, clamped to 0..=127, for an `i32`
/// shift.
pub open spec fn shifted_pitch(pitch: u8, semitones: i32) -> u8 {
    transposed_pitch(pitch, semitones as int)
}

/// A pitch moved by a number of semitones, clamped to 0..=127.
fn shift_pitch(pitch: u8, semitones: i32) -> (r: u8)
    ensures
        r == shifted_pitch(pitch, semitones),
{
    let p: i64 = pitch as i64 + semitones as i64;
    if p < 0 {
        0
    } else if p > 127 {
        127
    } else {
        p as u8
    }
}

impl EditProcessor {
    /// Move every pitch by a number of semitones, clamped to 0..=127.
    pub fn transpose_notes(pitches: &mut Vec<u8>, semitones: i32)
        ensures
            final(pitches)@.len() == old(pitches)@.len(),
            forall|i: int|
                0 <= i < old(pitches)@.len() ==> #[trigger] final(pitches)@[i] == shifted_pitch(
                    old(pitches)@[i],
                    semitones,
                ),
    {
        let ghost pre = pitches@;
        let mut i: usize = 0;
        while i < pitches.len()
            invariant
                i <= pitches@.len(),
                pitches@.len() == pre.len(),
                forall|j: int| 0 <= j < i ==> #[trigger] pitches@[j] == shifted_pitch(pre[j], semitones),
                forall|j: int| i <= j < pre.len() ==> #[trigger] pitches@[j] == pre[j],
            decreases pitches@.len() - i,
        {
            let p = shift_pitch(pitches[i], semitones);
            pitches.set(i, p);
            i = i + 1;
        }
    }

    /// Move the pitches of the selected notes (by id) by a number of
    /// semitones, clamped to 0..=127; other notes stay as they are.
    pub fn transpose_selected_notes(notes: &mut Vec<NotePitch>, note_ids: &Vec<u64>, semitones: i32)
        ensures
            final(notes)@.len() == old(notes)@.len(),
            forall|i: int|
                0 <= i < old(notes)@.len() ==> #[trigger] final(notes)@[i] == (if note_ids@.contains(
                    old(notes)@[i].id,
                ) {
                    NotePitch {
                        id: old(notes)@[i].id,
                        pitch: shifted_pitch(old(notes)@[i].pitch, semitones),
                    }
                } else {
                    old(notes)@[i]
                }),
    {
        let ghost pre = notes@;
        let mut i: usize = 0;
        while i < notes.len()
            invariant
                i <= notes@.len(),
                notes@.len() == pre.len(),
                forall|j: int|
                    0 <= j < i ==> #[trigger] notes@[j] == (if note_ids@.contains(pre[j].id) {
                        NotePitch { id: pre[j].id, pitch: shifted_pitch(pre[j].pitch, semitones) }
                    } else {
                        pre[j]
                    }),
                forall|j: int| i <= j < pre.len() ==> #[trigger] notes@[j] == pre[j],
            decreases notes@.len() - i,
        {
            let n = notes[i];
            let mut selected = false;
            let mut k: usize = 0;
            while k < note_ids.len()
                invariant
                    k <= note_ids@.len(),
                    selected == exists|m: int| 0 <= m < k && note_ids@[m] == n.id,
                decreases note_ids@.len() - k,
            {
                if note_ids[k] == n.id {
                    selected = true;
                }
                k = k + 1;
            }
            proof {
                if selected {
                    let m = choose|m: int| 0 <= m < k && note_ids@[m] == n.id;
                    assert(note_ids@.contains(n.id));
                } else {
                    assert(!note_ids@.contains(n.id));
                }
            }
            if selected {
                notes.set(i, NotePitch { id: n.id, pitch: shift_pitch(n.pitch, semitones) });
            }
            i = i + 1;
        }
    }
}

/// Transposing up and back down by the same amount gives back every pitch
/// that stayed within 0..=127 on the way.
pub proof fn lemma_transpose_round_trip(pitch: u8, semitones: i32)
    requires
        pitch <= 127,
        0 <= pitch + semitones <= 127,
        semitones > i32::MIN,
    ensures
        shifted_pitch(shifted_pitch(pitch, semitones), (-semitones) as i32) == pitch,
{
}

/// Whether an item's id is not among the selected ids.
pub open spec fn unselected<T>(selected: Seq<u64>) -> spec_fn((u64, T)) -> bool {
    |x: (u64, T)| !selected.contains(x.0)
}

/// Whether an item's id is among the selected ids.
pub open spec fn selected_item<T>(selected: Seq<u64>) -> spec_fn((u64, T)) -> bool {
    |x: (u64, T)| selected.contains(x.0)
}

/// Whether a list of ids holds an id.
fn holds_id(ids: &Vec<u64>, id: u64) -> (r: bool)
    ensures
        r == ids@.contains(id),
{
    let mut i: usize = 0;
    while i < ids.len()
        invariant
            i <= ids.len(),
            forall|j: int| 0 <= j < i ==> ids@[j] != id,
        decreases ids.len() - i,
    {
        if ids[i] == id {
            return true;
        }
        i = i + 1;
    }
    false
}

impl EditProcessor {
    /// Split items, each tagged with its id, into those that are not selected
    /// (kept) and those that are (taken), each in the order they came: what
    /// cutting or deleting the selected notes of a pattern does.
    pub fn split_selected<T>(items: Vec<(u64, T)>, selected: &Vec<u64>) -> (r: (
        Vec<(u64, T)>,
        Vec<(u64, T)>,
    ))
        ensures
            r.0@ == items@.filter(unselected::<T>(selected@)),
            r.1@ == items@.filter(selected_item::<T>(selected@)),
    {
        let ghost orig = items@;
        let mut rest = items;
        let mut kept: Vec<(u64, T)> = Vec::new();
        let mut taken: Vec<(u64, T)> = Vec::new();
        let n = rest.len();
        let mut i: usize = 0;
        while i < n
            invariant
                n == orig.len(),
                i <= n,
                rest@ == orig.subrange(i as int, n as int),
                kept@ == orig.take(i as int).filter(unselected::<T>(selected@)),
                taken@ == orig.take(i as int).filter(selected_item::<T>(selected@)),
            decreases n - i,
        {
            let x = rest.remove(0);
            proof {
                reveal(Seq::filter);
                assert(orig.take(i + 1).drop_last() =~= orig.take(i as int));
                assert(orig.take(i + 1).last() == x);
                assert(rest@ =~= orig.subrange(i + 1, n as int));
            }
            if holds_id(selected, x.0) {
                taken.push(x);
            } else {
                kept.push(x);
            }
            i = i + 1;
        }
        assert(orig.take(n as int) =~= orig);
        (kept, taken)
    }
}

} // verus!
