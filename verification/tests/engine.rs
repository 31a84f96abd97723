use std::sync::mpsc::channel;

use yadaw::android_picker::{poll_outcome, AndroidPicker, Received};
use yadaw::audio::{
    any_track_soloed, chain_plugin_for, generate_plugin_handle, midi_panic_events, recording_track,
    track_is_silenced, EnginePlugins, PluginHandleCounter, TrackChain,
};
use yadaw::plugin_facade::BackendKind;
use yadaw::command_processor::{MidiRecordingState, TrackFlags};
use yadaw::model::track::TrackType;

fn flags(id: u64, track_type: TrackType, solo: bool, armed: bool) -> TrackFlags {
    TrackFlags {
        id,
        track_type,
        muted: false,
        solo,
        armed,
        monitor_enabled: false,
        group_id: None,
        frozen: false,
    }
}

#[test]
fn recording_pairs_note_on_with_note_off() {
    let mut rec: MidiRecordingState<u32> = MidiRecordingState::new(7);
    assert_eq!(rec.track_id(), 7);
    assert_eq!(rec.record_message([0x90, 60, 100], 10), None);
    assert_eq!(rec.record_message([0x91, 60, 80], 12), None);
    // A note-off on another channel leaves channel 0 alone.
    assert_eq!(rec.record_message([0x81, 60, 0], 20), Some((60, 80, 12)));
    // A note-on of velocity 0 finishes the note.
    assert_eq!(rec.record_message([0x90, 60, 0], 30), Some((60, 100, 10)));
    // Nothing is held any more.
    assert_eq!(rec.record_message([0x80, 60, 0], 40), None);
    // Other messages do nothing.
    assert_eq!(rec.record_message([0xB0, 64, 127], 50), None);
    assert_eq!(rec.track_id(), 7);
}

#[test]
fn restarting_a_held_note_keeps_the_later_start() {
    let mut rec: MidiRecordingState<u32> = MidiRecordingState::new(1);
    rec.record_message([0x9F, 127, 1], 3);
    rec.record_message([0x9F, 127, 2], 5);
    assert_eq!(rec.record_message([0x8F, 127, 64], 9), Some((127, 2, 5)));
}

#[test]
fn panic_events_cover_every_channel() {
    let events = midi_panic_events();
    assert_eq!(events.len(), 32);
    for (i, e) in events.iter().enumerate() {
        assert_eq!(e.status, 0xB0 + (i / 2) as u8);
        assert_eq!(e.data1, if i % 2 == 0 { 123 } else { 120 });
        assert_eq!(e.data2, 0);
        assert_eq!(e.time_frames, 0);
    }
}

#[test]
fn solo_and_mute_decide_silence() {
    let none = vec![flags(1, TrackType::Audio, false, false)];
    let some = vec![
        flags(1, TrackType::Audio, false, false),
        flags(2, TrackType::Midi, true, false),
    ];
    assert!(!any_track_soloed(&none));
    assert!(any_track_soloed(&some));
    assert!(!any_track_soloed(&Vec::new()));
    assert!(track_is_silenced(true, true, true));
    assert!(track_is_silenced(false, false, true));
    assert!(!track_is_silenced(false, true, true));
    assert!(!track_is_silenced(false, false, false));
}

#[test]
fn first_armed_audio_track_records() {
    let ts = vec![
        flags(1, TrackType::Midi, false, true),
        flags(2, TrackType::Audio, false, false),
        flags(3, TrackType::Bus, false, true),
        flags(4, TrackType::Audio, false, true),
    ];
    assert_eq!(recording_track(&ts), Some(3));
    let only_midi = vec![flags(1, TrackType::Midi, false, true)];
    assert_eq!(recording_track(&only_midi), None);
}

#[test]
fn poll_outcomes() {
    let (r, keep) = poll_outcome::<u8>(Received::Value(Ok(Some(4))));
    assert_eq!(r, Some(Ok(Some(4))));
    assert!(!keep);
    let (r, keep) = poll_outcome::<u8>(Received::Empty);
    assert_eq!(r, None);
    assert!(keep);
    let (r, keep) = poll_outcome::<u8>(Received::Disconnected);
    assert_eq!(r, Some(Err("Picker thread disconnected".to_string())));
    assert!(!keep);
}

#[test]
fn picker_reports_its_result_once() {
    let (tx, rx) = channel::<Result<Option<u8>, String>>();
    let mut picker = AndroidPicker::from_receiver(rx);
    assert!(!picker.is_done());
    assert_eq!(picker.poll(), None);
    assert!(!picker.is_done());
    tx.send(Ok(Some(9))).unwrap();
    assert_eq!(picker.poll(), Some(Ok(Some(9))));
    assert!(picker.is_done());
    assert_eq!(picker.poll(), None);
}

#[test]
fn picker_reports_a_lost_thread() {
    let (tx, rx) = channel::<Result<Option<u8>, String>>();
    let mut picker = AndroidPicker::from_receiver(rx);
    drop(tx);
    assert_eq!(
        picker.poll(),
        Some(Err("Picker thread disconnected".to_string()))
    );
    assert!(picker.is_done());
}

use yadaw::experiments::midi_engine::{MidiEngine, MidiEvent, MidiEventType, RecordedNote};

fn note_on(timestamp: u64, channel: u8, pitch: u8, velocity: u8) -> MidiEvent {
    MidiEvent { timestamp, channel, event_type: MidiEventType::NoteOn { pitch, velocity } }
}

fn note_off(timestamp: u64, channel: u8, pitch: u8) -> MidiEvent {
    MidiEvent { timestamp, channel, event_type: MidiEventType::NoteOff { pitch } }
}

#[test]
fn engine_echoes_and_records_input() {
    let mut engine = MidiEngine::new();
    assert_eq!(engine.process_input_event(note_on(5, 2, 60, 100), 5), Some([0x92, 60, 100]));
    engine.start_recording(10);
    assert_eq!(engine.record_start_time(), 10);
    assert_eq!(engine.process_input_event(note_on(12, 0, 64, 90), 12), Some([0x90, 64, 90]));
    // Velocity 0 is outside the default velocity range: dropped, not recorded.
    assert_eq!(engine.process_input_event(note_on(13, 0, 65, 0), 13), None);
    assert_eq!(engine.process_input_event(note_off(20, 0, 64), 20), Some([0x80, 64, 0]));
    let cc = MidiEvent {
        timestamp: 21,
        channel: 1,
        event_type: MidiEventType::ControlChange { controller: 7, value: 100 },
    };
    assert_eq!(engine.process_input_event(cc, 21), Some([0xB1, 7, 100]));
    let bend = MidiEvent { timestamp: 22, channel: 1, event_type: MidiEventType::PitchBend { value: -3 } };
    assert_eq!(engine.process_input_event(bend, 22), None);
    assert_eq!(
        engine.recorded_notes(),
        vec![RecordedNote { pitch: 64, velocity: 90, start: 12, end: 20 }]
    );
    let events = engine.stop_recording();
    assert_eq!(events, vec![note_on(12, 0, 64, 90), note_off(20, 0, 64), cc, bend]);
    // Not recording any more.
    engine.process_input_event(note_on(30, 0, 70, 80), 30);
    assert_eq!(engine.stop_recording().len(), 4);
}

#[test]
fn engine_panic_silences_every_channel() {
    let mut engine = MidiEngine::new();
    assert_eq!(engine.send_note_on(3, 200, 64, 1), [0x93, 72, 64]);
    assert_eq!(engine.send_note_off(19, 60), [0x83, 60, 0]);
    assert_eq!(engine.send_control_change(0, 1, 255), [0xB0, 1, 127]);
    let msgs = engine.panic();
    assert_eq!(msgs.len(), 32);
    assert_eq!(msgs[0], [0xB0, 123, 0]);
    assert_eq!(msgs[1], [0xB0, 120, 0]);
    assert_eq!(msgs[31], [0xBF, 120, 0]);
}

#[test]
fn task_picker_reports_its_result_once() {
    let (tx, rx) = flume::unbounded::<Result<Option<String>, String>>();
    let mut picker = yadaw::file_picker::Picker::from_receiver(rx);
    assert_eq!(picker.poll(), None);
    tx.send(Ok(Some("song.mid".to_string()))).unwrap();
    assert_eq!(picker.poll(), Some(Ok(Some("song.mid".to_string()))));
    assert!(picker.is_done());
    assert_eq!(picker.poll(), None);

    let (tx, rx) = flume::unbounded::<Result<Option<String>, String>>();
    let mut picker = yadaw::file_picker::Picker::from_receiver(rx);
    drop(tx);
    assert_eq!(picker.poll(), Some(Err("Picker task disconnected".to_string())));
    assert!(picker.is_done());
}

#[test]
fn plugin_handles_count_up() {
    let mut counter = PluginHandleCounter::new();
    assert_eq!(generate_plugin_handle(&mut counter), (1, 1));
    assert_eq!(generate_plugin_handle(&mut counter), (2, 2));
    assert_eq!(generate_plugin_handle(&mut counter), (3, 3));
}

#[test]
fn plugins_that_fail_to_load_become_bypassed_stand_ins() {
    let loaded = chain_plugin_for(7, BackendKind::Clap, "file:///p.clap#x".to_string(), false, Some((3, 9)));
    assert_eq!(loaded.rt_instance_id, Some((3, 9)));
    assert!(!loaded.bypass);
    let stand_in = chain_plugin_for(8, BackendKind::Lv2, "urn:x".to_string(), false, None);
    assert_eq!(stand_in.plugin_id, 8);
    assert_eq!(stand_in.rt_instance_id, None);
    assert!(stand_in.bypass);
    assert_eq!(stand_in.uri, "urn:x");
}

#[test]
fn chain_plugins_are_added_bypassed_and_removed() {
    let mut chain = TrackChain::new();
    let p = |id: u64, h: Option<(usize, u64)>| chain_plugin_for(id, BackendKind::Lv2, format!("urn:{id}"), false, h);
    assert_eq!(chain.add_plugin(p(10, Some((1, 1)))), 0);
    assert_eq!(chain.add_plugin(p(20, Some((2, 2)))), 1);
    assert_eq!(chain.add_plugin(p(30, None)), 2);
    assert_eq!(chain.plugin_order, vec![10, 20, 30]);
    // Adding an id again replaces its plugin; its first place is reported.
    assert_eq!(chain.add_plugin(p(10, Some((4, 4)))), 0);
    assert_eq!(chain.plugin_order, vec![10, 20, 30, 10]);
    assert_eq!(chain.plugins[&10].rt_instance_id, Some((4, 4)));

    chain.set_plugin_bypass(20, true);
    assert!(chain.plugins[&20].bypass);
    chain.set_plugin_bypass(99, true);
    assert_eq!(chain.plugins.len(), 3);

    assert_eq!(chain.remove_plugin(10), Some((4, 4)));
    assert_eq!(chain.plugin_order, vec![20, 30]);
    assert!(!chain.plugins.contains_key(&10));
    assert_eq!(chain.remove_plugin(30), None);
    assert_eq!(chain.remove_plugin(30), None);
    assert_eq!(chain.plugin_order, vec![20]);
}

#[test]
fn removing_a_plugin_just_added_restores_the_chain() {
    let mut chain = TrackChain::new();
    chain.add_plugin(chain_plugin_for(1, BackendKind::Vst3, "/a.vst3".to_string(), false, Some((1, 1))));
    let before: Vec<u64> = chain.plugin_order.clone();
    chain.add_plugin(chain_plugin_for(2, BackendKind::Vst3, "/b.vst3".to_string(), true, Some((5, 6))));
    assert_eq!(chain.remove_plugin(2), Some((5, 6)));
    assert_eq!(chain.plugin_order, before);
    assert_eq!(chain.plugins.len(), 1);
    assert!(chain.plugins.contains_key(&1));
}

#[test]
fn removing_a_plugin_instance_drops_its_handle_and_leaves_other_tracks() {
    let mut engine = EnginePlugins::new();
    let p = |id: u64, h: Option<(usize, u64)>| chain_plugin_for(id, BackendKind::Clap, format!("file:///{id}.clap#x"), false, h);
    assert_eq!(engine.add_plugin(1, p(10, Some((1, 1)))), 0);
    assert_eq!(engine.add_plugin(1, p(11, Some((2, 2)))), 1);
    assert_eq!(engine.add_plugin(2, p(10, Some((3, 3)))), 0);
    assert_eq!(engine.add_plugin(2, p(12, None)), 1);
    assert_eq!(engine.instances, vec![(1, 1), (2, 2), (3, 3)]);

    engine.remove_plugin_instance(1, 10);
    assert_eq!(engine.instances, vec![(2, 2), (3, 3)]);
    assert_eq!(engine.chains[&1].plugin_order, vec![11]);
    assert!(!engine.chains[&1].plugins.contains_key(&10));
    assert_eq!(engine.chains[&2].plugin_order, vec![10, 12]);
    assert!(engine.chains[&2].plugins.contains_key(&10));

    // A stand-in without an instance frees nothing.
    engine.remove_plugin_instance(2, 12);
    assert_eq!(engine.instances, vec![(2, 2), (3, 3)]);
    assert_eq!(engine.chains[&2].plugin_order, vec![10]);

    // An unknown track changes nothing.
    engine.remove_plugin_instance(7, 11);
    assert_eq!(engine.instances, vec![(2, 2), (3, 3)]);
    assert_eq!(engine.chains.len(), 2);
    assert!(!engine.chains.contains_key(&7));
}

#[test]
fn engine_tracks_get_chains_and_bypass_per_track() {
    let mut engine = EnginePlugins::new();
    engine.track_chain_entry(5);
    assert!(engine.chains[&5].plugins.is_empty());
    engine.add_plugin(5, chain_plugin_for(1, BackendKind::Lv2, "urn:a".to_string(), false, Some((9, 9))));
    engine.track_chain_entry(5);
    assert_eq!(engine.chains[&5].plugin_order, vec![1]);
    engine.set_plugin_bypass(5, 1, true);
    assert!(engine.chains[&5].plugins[&1].bypass);
    engine.set_plugin_bypass(6, 1, true);
    assert!(!engine.chains.contains_key(&6));
}

#[test]
fn rebuilding_tracks_replaces_chains_and_keeps_new_instances() {
    let mut engine = EnginePlugins::new();
    engine.add_plugin(9, chain_plugin_for(1, BackendKind::Lv2, "urn:old".to_string(), false, Some((1, 1))));
    let p = |id: u64, bypass: bool, h: Option<(usize, u64)>| {
        chain_plugin_for(id, BackendKind::Clap, format!("file:///{id}.clap#x"), bypass, h)
    };
    engine.rebuild_tracks(vec![
        (1, vec![p(10, false, Some((2, 2))), p(11, false, None), p(12, true, Some((3, 3)))]),
        (2, vec![]),
    ]);
    assert!(!engine.chains.contains_key(&9));
    assert_eq!(engine.chains.len(), 2);
    assert_eq!(engine.chains[&1].plugin_order, vec![10, 11, 12]);
    assert!(engine.chains[&1].plugins[&11].bypass);
    assert_eq!(engine.chains[&1].plugins[&11].rt_instance_id, None);
    assert!(engine.chains[&1].plugins[&12].bypass);
    assert!(engine.chains[&2].plugin_order.is_empty());
    assert_eq!(engine.instances, vec![(1, 1), (2, 2), (3, 3)]);
}
