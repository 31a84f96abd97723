use yadaw::midi_import::{
    import_midi_data, read_track, read_tracks, sort_notes_by_start, ImportedTrackTicks, MidiEventKind, MidiTiming,
    MidiTrackEvent, TickNote,
};

fn ev(delta: u32, kind: MidiEventKind) -> MidiTrackEvent {
    MidiTrackEvent { delta, kind }
}

fn note(pitch: u8, velocity: u8, start: u64, end: Option<u64>) -> TickNote {
    TickNote { pitch, velocity, start, end }
}

#[test]
fn overlapping_notes_of_a_key_close_latest_first_and_come_by_start() {
    let events = vec![
        ev(0, MidiEventKind::NoteOn(0, 60, 100)),
        ev(10, MidiEventKind::NoteOn(0, 60, 90)),
        ev(5, MidiEventKind::NoteOn(1, 60, 70)),
        ev(5, MidiEventKind::NoteOff(0, 60)),
        ev(5, MidiEventKind::NoteOn(0, 60, 0)),
        ev(5, MidiEventKind::NoteOff(0, 60)),
    ];
    let t = read_track(3, &events);
    assert_eq!(t.index, 3);
    assert_eq!(
        t.notes,
        vec![
            note(60, 100, 0, Some(25)),
            note(60, 90, 10, Some(20)),
            note(60, 70, 15, None),
        ]
    );
    assert_eq!(t.program, None);
    assert_eq!(t.name, None);
}

#[test]
fn first_program_and_last_valid_name_are_kept() {
    let events = vec![
        ev(0, MidiEventKind::TrackName(b"Bass".to_vec())),
        ev(0, MidiEventKind::ProgramChange(33)),
        ev(0, MidiEventKind::ProgramChange(40)),
        ev(0, MidiEventKind::TrackName(vec![0xff, 0xfe])),
        ev(u32::MAX, MidiEventKind::Other),
        ev(u32::MAX, MidiEventKind::NoteOn(2, 40, 1)),
    ];
    let t = read_track(0, &events);
    assert_eq!(t.program, Some(33));
    assert_eq!(t.name, Some("Bass".to_string()));
    assert_eq!(t.notes, vec![note(40, 1, 2 * u32::MAX as u64, None)]);
}

#[test]
fn tracks_without_notes_are_left_out() {
    let tracks = vec![
        vec![ev(0, MidiEventKind::TrackName(b"Tempo".to_vec()))],
        vec![ev(0, MidiEventKind::NoteOn(0, 1, 2)), ev(4, MidiEventKind::NoteOff(0, 1))],
        Vec::new(),
    ];
    let ts = read_tracks(&tracks);
    assert_eq!(ts.len(), 1);
    assert_eq!(ts[0].index, 1);
    assert_eq!(ts[0].notes, vec![note(1, 2, 0, Some(4))]);
}

fn small_file() -> Vec<u8> {
    let mut track: Vec<u8> = vec![0x00, 0xFF, 0x03, 0x04];
    track.extend_from_slice(b"Lead");
    track.extend_from_slice(&[
        0x00, 0xC0, 0x05, // program 5
        0x00, 0x90, 0x3C, 0x64, // C4 on
        0x60, 0x80, 0x3C, 0x40, // C4 off after 96 ticks
        0x00, 0x90, 0x40, 0x50, // E4 on, never released
        0x00, 0xFF, 0x2F, 0x00, // end of track
    ]);
    let mut data: Vec<u8> = b"MThd".to_vec();
    data.extend_from_slice(&[0, 0, 0, 6, 0, 0, 0, 1, 0, 96]);
    data.extend_from_slice(b"MTrk");
    data.extend_from_slice(&(track.len() as u32).to_be_bytes());
    data.extend_from_slice(&track);
    data
}

#[test]
fn importing_a_small_file() {
    let (timing, tracks) = import_midi_data(&small_file()).unwrap();
    assert_eq!(timing, MidiTiming::Metrical(96));
    assert_eq!(tracks.len(), 1);
    assert_eq!(tracks[0].index, 0);
    assert_eq!(tracks[0].name, Some("Lead".to_string()));
    assert_eq!(tracks[0].program, Some(5));
    assert_eq!(tracks[0].notes, vec![note(60, 100, 0, Some(96)), note(64, 80, 96, None)]);
}

#[test]
fn a_file_that_is_not_midi_is_refused() {
    let err = import_midi_data(b"not a midi file").unwrap_err();
    assert!(err.starts_with("MIDI parse failed: "), "{err}");
}

#[test]
fn unnamed_tracks_are_named_by_position_and_program() {
    let t = ImportedTrackTicks { index: 0, name: None, notes: vec![], program: Some(5) };
    assert_eq!(t.display_name(), "Track 1 (Prog 5)");
    let t = ImportedTrackTicks { index: 11, name: None, notes: vec![], program: None };
    assert_eq!(t.display_name(), "Track 12");
    let t = ImportedTrackTicks { index: 99, name: None, notes: vec![], program: Some(127) };
    assert_eq!(t.display_name(), "Track 100 (Prog 127)");
    let t = ImportedTrackTicks { index: 3, name: Some("Lead".to_string()), notes: vec![], program: Some(1) };
    assert_eq!(t.display_name(), "Lead");
}

#[test]
fn imported_file_tracks_follow_their_events() {
    let (_, tracks) = import_midi_data(&small_file()).unwrap();
    assert_eq!(tracks[0].display_name(), "Lead");
}

#[test]
fn notes_are_sorted_by_start_keeping_ties_in_order() {
    let notes = vec![
        note(1, 1, 30, None),
        note(2, 1, 10, Some(40)),
        note(3, 1, 30, Some(31)),
        note(4, 1, 0, Some(5)),
        note(5, 1, 10, None),
    ];
    assert_eq!(
        sort_notes_by_start(&notes),
        vec![
            note(4, 1, 0, Some(5)),
            note(2, 1, 10, Some(40)),
            note(5, 1, 10, None),
            note(1, 1, 30, None),
            note(3, 1, 30, Some(31)),
        ]
    );
    assert_eq!(sort_notes_by_start(&Vec::new()), Vec::new());
}

#[test]
fn a_refused_file_carries_midlys_message() {
    let data: &[u8] = b"MThd\x00\x00";
    let err = import_midi_data(data).unwrap_err();
    let midly_err = midly::Smf::parse(data).unwrap_err();
    assert_eq!(err, format!("MIDI parse failed: {midly_err}"));
}
