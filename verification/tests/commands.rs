use yadaw::command_processor::{
    set_track_input, set_track_midi_input, set_track_output, PortAction, TrackDevices, TrackInputPort,
};
use yadaw::command_processor::{
    add_send, remove_send, set_send_amount, set_send_destination, set_send_pre_fader, Send,
};
use yadaw::model::track::PluginIndex;
use yadaw::command_processor::{
    add_track_to_group, arm_for_recording, armed_midi_track, create_group, freeze_track, move_item,
    position_of, remove_group, remove_item, remove_track_from_group, set_track_monitor,
    set_track_mute, set_track_solo, unfreeze_track, TrackFlags,
};
use yadaw::edit_actions::{EditProcessor, NotePitch};
use yadaw::model::track::TrackType;

fn track(id: u64, track_type: TrackType) -> TrackFlags {
    TrackFlags {
        id,
        track_type,
        muted: false,
        solo: false,
        armed: false,
        monitor_enabled: false,
        group_id: None,
        frozen: false,
    }
}

fn tracks() -> Vec<TrackFlags> {
    vec![
        track(1, TrackType::Audio),
        track(2, TrackType::Midi),
        track(3, TrackType::Midi),
        track(4, TrackType::Audio),
        track(5, TrackType::Bus),
    ]
}

#[test]
fn arming_is_exclusive_per_kind() {
    let mut ts = tracks();
    arm_for_recording(&mut ts, 1, true);
    arm_for_recording(&mut ts, 2, true);
    arm_for_recording(&mut ts, 3, true);
    let armed: Vec<u64> = ts.iter().filter(|t| t.armed).map(|t| t.id).collect();
    assert_eq!(armed, vec![1, 3]);
    arm_for_recording(&mut ts, 4, true);
    let armed: Vec<u64> = ts.iter().filter(|t| t.armed).map(|t| t.id).collect();
    assert_eq!(armed, vec![3, 4]);
    assert_eq!(armed_midi_track(&ts), Some(3));
    arm_for_recording(&mut ts, 3, false);
    assert_eq!(armed_midi_track(&ts), None);
    assert!(ts[3].armed);
}

#[test]
fn arming_a_missing_track_disarms_tracks_that_are_not_midi() {
    let mut ts = tracks();
    arm_for_recording(&mut ts, 1, true);
    arm_for_recording(&mut ts, 2, true);
    arm_for_recording(&mut ts, 99, true);
    let armed: Vec<u64> = ts.iter().filter(|t| t.armed).map(|t| t.id).collect();
    assert_eq!(armed, vec![2]);
}

#[test]
fn flags_change_one_track() {
    let mut ts = tracks();
    set_track_mute(&mut ts, 2, true);
    set_track_solo(&mut ts, 4, true);
    set_track_monitor(&mut ts, 5, true);
    set_track_mute(&mut ts, 42, true);
    assert!(ts[1].muted && !ts[0].muted && !ts[2].muted);
    assert!(ts[3].solo);
    assert!(ts[4].monitor_enabled);
}

#[test]
fn groups_get_fresh_ids() {
    let mut ts = tracks();
    let g1 = create_group(&mut ts, &vec![1, 2, 77]);
    assert_eq!(g1, 1);
    add_track_to_group(&mut ts, 5, 7);
    let g2 = create_group(&mut ts, &vec![3]);
    assert_eq!(g2, 8);
    assert_eq!(ts[0].group_id, Some(1));
    assert_eq!(ts[1].group_id, Some(1));
    assert_eq!(ts[2].group_id, Some(8));
    remove_group(&mut ts, 1);
    assert_eq!(ts[0].group_id, None);
    assert_eq!(ts[1].group_id, None);
    assert_eq!(ts[2].group_id, Some(8));
    remove_track_from_group(&mut ts, 3);
    assert_eq!(ts[2].group_id, None);
    add_track_to_group(&mut ts, 1, u64::MAX);
    assert_eq!(create_group(&mut ts, &vec![2]), u64::MAX);
}

#[test]
fn moving_plugins() {
    let mut chain = vec![10, 20, 30, 40];
    assert!(move_item(&mut chain, 0, 2));
    assert_eq!(chain, vec![20, 10, 30, 40]);
    assert!(move_item(&mut chain, 3, 0));
    assert_eq!(chain, vec![40, 20, 10, 30]);
    assert!(!move_item(&mut chain, 1, 4));
    assert_eq!(chain, vec![40, 20, 10, 30]);
    assert!(move_item(&mut chain, 1, 3));
    assert_eq!(chain, vec![40, 10, 20, 30]);
    let mut sorted = chain.clone();
    sorted.sort();
    assert_eq!(sorted, vec![10, 20, 30, 40]);
}

#[test]
fn removing_items_and_positions() {
    let mut sends = vec!['a', 'b', 'c'];
    assert!(remove_item(&mut sends, 1));
    assert_eq!(sends, vec!['a', 'c']);
    assert!(!remove_item(&mut sends, 2));
    assert_eq!(position_of(&vec![5, 6, 5], 5), Some(0));
    assert_eq!(position_of(&vec![5, 6, 5], 6), Some(1));
    assert_eq!(position_of(&vec![5, 6, 5], 7), None);
}

#[test]
fn transposing_notes() {
    let mut pitches = vec![0, 60, 120, 127];
    EditProcessor::transpose_notes(&mut pitches, 12);
    assert_eq!(pitches, vec![12, 72, 127, 127]);
    EditProcessor::transpose_notes(&mut pitches, -100);
    assert_eq!(pitches, vec![0, 0, 27, 27]);
    EditProcessor::transpose_notes(&mut pitches, i32::MIN);
    assert_eq!(pitches, vec![0, 0, 0, 0]);
    let mut notes = vec![
        NotePitch { id: 1, pitch: 60 },
        NotePitch { id: 2, pitch: 62 },
        NotePitch { id: 3, pitch: 64 },
    ];
    EditProcessor::transpose_selected_notes(&mut notes, &vec![1, 3], -2);
    assert_eq!(
        notes,
        vec![
            NotePitch { id: 1, pitch: 58 },
            NotePitch { id: 2, pitch: 62 },
            NotePitch { id: 3, pitch: 62 },
        ]
    );
    let mut round = vec![40u8];
    EditProcessor::transpose_notes(&mut round, 7);
    EditProcessor::transpose_notes(&mut round, -7);
    assert_eq!(round, vec![40]);
}

#[test]
fn cutting_selected_notes_keeps_order() {
    let notes = vec![(1u64, "a"), (2, "b"), (3, "c"), (4, "d")];
    let (kept, taken) = EditProcessor::split_selected(notes, &vec![4, 2, 9]);
    assert_eq!(kept, vec![(1, "a"), (3, "c")]);
    assert_eq!(taken, vec![(2, "b"), (4, "d")]);
    let (kept, taken) = EditProcessor::split_selected(vec![(5u64, 0.5f64)], &Vec::new());
    assert_eq!(kept, vec![(5, 0.5)]);
    assert!(taken.is_empty());
}

#[test]
fn one_track_listens_to_a_midi_port() {
    let mut ts = vec![
        TrackInputPort { id: 1, midi_input_port: Some("Keys".to_string()) },
        TrackInputPort { id: 2, midi_input_port: None },
        TrackInputPort { id: 3, midi_input_port: Some("Pads".to_string()) },
    ];
    match set_track_midi_input(&mut ts, 2, Some("Drums".to_string())) {
        PortAction::Connect(p) => assert_eq!(p, "Drums"),
        _ => panic!("expected a connection"),
    }
    let ports: Vec<Option<String>> = ts.iter().map(|t| t.midi_input_port.clone()).collect();
    assert_eq!(ports, vec![None, Some("Drums".to_string()), None]);

    ts[0].midi_input_port = Some("Keys".to_string());
    assert!(matches!(set_track_midi_input(&mut ts, 2, None), PortAction::Disconnect));
    let ports: Vec<Option<String>> = ts.iter().map(|t| t.midi_input_port.clone()).collect();
    assert_eq!(ports, vec![Some("Keys".to_string()), None, None]);

    assert!(matches!(set_track_midi_input(&mut ts, 9, Some("X".to_string())), PortAction::Nothing));
    assert_eq!(ts[0].midi_input_port, Some("Keys".to_string()));
}

#[test]
fn plugin_index_finds_plugins_by_id() {
    let mut index = PluginIndex::new();
    assert_eq!(index.find_plugin(3, 7), None);
    index.rebuild_plugin_index(&vec![7, 0, 9, 7]);
    assert_eq!(index.find_plugin(4, 7), Some(3));
    assert_eq!(index.find_plugin(4, 9), Some(2));
    assert_eq!(index.find_plugin(4, 0), None);
    assert_eq!(index.find_plugin(4, 5), None);
    // A stale index does not point past the chain.
    assert_eq!(index.find_plugin(3, 7), None);
    index.rebuild_plugin_index(&Vec::new());
    assert_eq!(index.find_plugin(4, 9), None);
}

#[test]
fn freezing_and_unfreezing_a_track() {
    let mut ts = tracks();
    freeze_track(&mut ts, 2);
    assert!(ts.iter().all(|t| t.frozen == (t.id == 2)));
    freeze_track(&mut ts, 99);
    assert!(ts.iter().all(|t| t.frozen == (t.id == 2)));
    unfreeze_track(&mut ts, 2);
    assert!(ts.iter().all(|t| !t.frozen));
}

#[test]
fn track_audio_devices_are_set_per_track() {
    let mut ts = vec![
        TrackDevices { id: 1, input_device: None, output_device: Some("out".to_string()) },
        TrackDevices { id: 2, input_device: Some("mic".to_string()), output_device: None },
    ];
    set_track_input(&mut ts, 1, Some("line".to_string()));
    assert_eq!(ts[0].input_device, Some("line".to_string()));
    assert_eq!(ts[0].output_device, Some("out".to_string()));
    assert_eq!(ts[1].input_device, Some("mic".to_string()));
    set_track_output(&mut ts, 2, Some("bus".to_string()));
    assert_eq!(ts[1].output_device, Some("bus".to_string()));
    assert_eq!(ts[1].input_device, Some("mic".to_string()));
    set_track_input(&mut ts, 2, None);
    assert_eq!(ts[1].input_device, None);
    set_track_output(&mut ts, 9, None);
    assert_eq!(ts[0].output_device, Some("out".to_string()));
}

#[test]
fn sends_are_added_changed_and_removed_by_index() {
    let mut sends: Vec<Send<f32>> = Vec::new();
    add_send(&mut sends, 5, 0.5);
    add_send(&mut sends, 6, 0.25);
    assert_eq!(sends.len(), 2);
    assert_eq!(sends[0].destination_track, 5);
    assert!(!sends[0].pre_fader && !sends[0].muted);
    assert!(set_send_destination(&mut sends, 1, 7));
    assert_eq!(sends[1].destination_track, 7);
    assert_eq!(sends[1].amount, 0.25);
    assert!(!set_send_destination(&mut sends, 2, 8));
    set_send_amount(&mut sends, 0, 0.75);
    assert_eq!(sends[0].amount, 0.75);
    set_send_pre_fader(&mut sends, 0, true);
    assert!(sends[0].pre_fader);
    set_send_pre_fader(&mut sends, 9, true);
    assert!(!remove_send(&mut sends, 2));
    assert!(remove_send(&mut sends, 0));
    assert_eq!(sends.len(), 1);
    assert_eq!(sends[0].destination_track, 7);
}
