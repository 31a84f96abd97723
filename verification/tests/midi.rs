use yadaw::audio::update_active_notes;
use yadaw::experiments::midi_engine::{
    control_change_message, note_off_message, note_on_message, pair_recorded_notes,
    transpose_pitch, MidiEvent, MidiEventType, MidiFilter, RecordedNote,
};
use yadaw::midi_utils::{MidiNoteUtils, MidiVelocity, VelocityCurve};

#[test]
fn note_names() {
    assert_eq!(MidiNoteUtils::to_name(60), "C4");
    assert_eq!(MidiNoteUtils::to_name(61), "C#4");
    assert_eq!(MidiNoteUtils::to_name(0), "C-1");
    assert_eq!(MidiNoteUtils::to_name(11), "B-1");
    assert_eq!(MidiNoteUtils::to_name(69), "A4");
    assert_eq!(MidiNoteUtils::to_name(127), "G9");
    assert_eq!(MidiNoteUtils::to_name(130), "A#9");
    assert_eq!(MidiNoteUtils::to_name(255), "D#20");
}

#[test]
fn note_name_round_trip() {
    for p in 0..=127u8 {
        assert_eq!(MidiNoteUtils::from_name(&MidiNoteUtils::to_name(p)), Some(p));
    }
}

#[test]
fn parse_note_names() {
    assert_eq!(MidiNoteUtils::from_name("C4"), Some(60));
    assert_eq!(MidiNoteUtils::from_name("  c#4\n"), Some(61));
    assert_eq!(MidiNoteUtils::from_name("a4"), Some(69));
    assert_eq!(MidiNoteUtils::from_name("G9"), Some(127));
    assert_eq!(MidiNoteUtils::from_name("G#9"), None);
    assert_eq!(MidiNoteUtils::from_name("C-1"), Some(0));
    assert_eq!(MidiNoteUtils::from_name("B-2"), None);
    assert_eq!(MidiNoteUtils::from_name("C+4"), Some(60));
    assert_eq!(MidiNoteUtils::from_name("H4"), None);
    assert_eq!(MidiNoteUtils::from_name("C"), None);
    assert_eq!(MidiNoteUtils::from_name("CS4"), None);
    assert_eq!(MidiNoteUtils::from_name("C4x"), None);
    assert_eq!(MidiNoteUtils::from_name("C#"), None);
    assert_eq!(MidiNoteUtils::from_name("C99999999999"), None);
    assert_eq!(MidiNoteUtils::from_name(""), None);
    assert_eq!(MidiNoteUtils::from_name("   "), None);
    assert_eq!(MidiNoteUtils::from_name("é4"), None);
    assert_eq!(MidiNoteUtils::parse_note_name("D#3"), Some(51));
    assert_eq!(MidiNoteUtils::parse_note_name("E0"), Some(16));
}

#[test]
fn piano_key_colours() {
    let black: Vec<u8> = (0..12).filter(|&p| MidiNoteUtils::is_black_key(p)).collect();
    assert_eq!(black, vec![1, 3, 6, 8, 10]);
    assert!(MidiNoteUtils::is_white_key(60));
    assert!(!MidiNoteUtils::is_white_key(61));
    assert!(MidiNoteUtils::is_black_key(130));
}

fn float_curve(velocity: u8, curve: VelocityCurve) -> u8 {
    let normalized = velocity as f32 / 127.0;
    let curved = match curve {
        VelocityCurve::Linear => normalized,
        VelocityCurve::Soft => normalized.sqrt(),
        VelocityCurve::Hard => normalized.powi(2),
        VelocityCurve::Exponential => normalized.exp() / std::f32::consts::E,
    };
    (curved * 127.0).round().clamp(0.0, 127.0) as u8
}

#[test]
fn velocity_curves_agree_with_float_formula() {
    for v in 0..=255u8 {
        for c in [
            VelocityCurve::Linear,
            VelocityCurve::Soft,
            VelocityCurve::Hard,
            VelocityCurve::Exponential,
        ] {
            assert_eq!(MidiVelocity::apply_curve(v, c), float_curve(v, c), "{v} {c:?}");
        }
    }
}

#[test]
fn velocity_curve_values() {
    assert_eq!(MidiVelocity::apply_curve(64, VelocityCurve::Linear), 64);
    assert_eq!(MidiVelocity::apply_curve(200, VelocityCurve::Linear), 127);
    assert_eq!(MidiVelocity::apply_curve(64, VelocityCurve::Hard), 32);
    assert_eq!(MidiVelocity::apply_curve(64, VelocityCurve::Soft), 90);
    assert_eq!(MidiVelocity::apply_curve(0, VelocityCurve::Exponential), 47);
    assert_eq!(MidiVelocity::apply_curve(127, VelocityCurve::Exponential), 127);
}

#[test]
fn active_notes_follow_note_on_and_off() {
    let mut active = Vec::new();
    let events = [
        (0x90, 60, 100, 0),
        (0x91, 60, 90, 1),
        (0x90, 60, 80, 2),
        (0x90, 64, 0, 3),
        (0xB0, 7, 100, 4),
    ];
    update_active_notes(&events, &mut active);
    assert_eq!(active, vec![(0, 60), (1, 60)]);
    update_active_notes(&[(0x80, 60, 0, 5), (0x91, 60, 0, 6)], &mut active);
    assert!(active.is_empty());
}

#[test]
fn filter_drops_and_transposes() {
    let mut f = MidiFilter::default();
    assert_eq!(f.channels, vec![true; 16]);
    assert_eq!(f.note_range, (0, 127));
    assert_eq!(f.velocity_range, (1, 127));
    f.transpose = 12;
    f.channels[3] = false;
    let on = MidiEvent {
        timestamp: 5,
        channel: 0,
        event_type: MidiEventType::NoteOn { pitch: 120, velocity: 64 },
    };
    assert_eq!(
        f.filter_event(on),
        Some(MidiEvent {
            timestamp: 5,
            channel: 0,
            event_type: MidiEventType::NoteOn { pitch: 127, velocity: 64 },
        })
    );
    let silent = MidiEvent {
        event_type: MidiEventType::NoteOn { pitch: 60, velocity: 0 },
        ..on
    };
    assert_eq!(f.filter_event(silent), None);
    assert_eq!(f.filter_event(MidiEvent { channel: 3, ..on }), None);
    let off = MidiEvent { event_type: MidiEventType::NoteOff { pitch: 10 }, ..on };
    assert_eq!(
        f.filter_event(off),
        Some(MidiEvent { event_type: MidiEventType::NoteOff { pitch: 22 }, ..on })
    );
    let cc = MidiEvent {
        event_type: MidiEventType::ControlChange { controller: 7, value: 100 },
        ..on
    };
    assert_eq!(f.filter_event(cc), Some(cc));
    assert_eq!(transpose_pitch(5, -12), 0);
}

#[test]
fn message_bytes() {
    assert_eq!(note_on_message(1, 60, 100), [0x91, 60, 100]);
    assert_eq!(note_on_message(0x13, 200, 255), [0x93, 72, 127]);
    assert_eq!(note_off_message(15, 61), [0x8F, 61, 0]);
    assert_eq!(control_change_message(2, 123, 0), [0xB2, 123, 0]);
}

#[test]
fn recorded_notes_pair_on_with_off() {
    let ev = |t: u64, e: MidiEventType| MidiEvent { timestamp: t, channel: 0, event_type: e };
    let events = vec![
        ev(10, MidiEventType::NoteOn { pitch: 60, velocity: 100 }),
        ev(20, MidiEventType::NoteOn { pitch: 64, velocity: 90 }),
        ev(25, MidiEventType::NoteOn { pitch: 60, velocity: 70 }),
        ev(30, MidiEventType::NoteOff { pitch: 60 }),
        ev(35, MidiEventType::NoteOff { pitch: 67 }),
        ev(40, MidiEventType::NoteOff { pitch: 64 }),
        ev(50, MidiEventType::NoteOff { pitch: 60 }),
    ];
    assert_eq!(
        pair_recorded_notes(&events),
        vec![
            RecordedNote { pitch: 60, velocity: 70, start: 25, end: 30 },
            RecordedNote { pitch: 64, velocity: 90, start: 20, end: 40 },
        ]
    );
}

#[test]
fn velocity_curves_are_ordered_and_monotone() {
    let curves = [
        VelocityCurve::Linear,
        VelocityCurve::Soft,
        VelocityCurve::Hard,
        VelocityCurve::Exponential,
    ];
    for c in curves {
        assert_eq!(MidiVelocity::apply_curve(127, c), 127);
        for v in 0..255u8 {
            assert!(MidiVelocity::apply_curve(v, c) <= MidiVelocity::apply_curve(v + 1, c));
        }
    }
    for v in 0..=127u8 {
        let hard = MidiVelocity::apply_curve(v, VelocityCurve::Hard);
        let soft = MidiVelocity::apply_curve(v, VelocityCurve::Soft);
        assert_eq!(MidiVelocity::apply_curve(v, VelocityCurve::Linear), v);
        assert!(hard <= v && v <= soft, "{v}");
    }
}

#[test]
fn note_names_are_trimmed_of_unicode_white_space() {
    assert_eq!(MidiNoteUtils::from_name("\u{3000}C4\u{2003}"), Some(60));
    assert_eq!(MidiNoteUtils::from_name("\u{a0}\t d#2 \u{85}"), Some(39));
    assert_eq!(MidiNoteUtils::from_name("\u{2028}\u{2029}"), None);
}
