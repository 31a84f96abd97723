use yadaw::config::{
    default_autosave_interval, default_buffer_size, default_true, validated_autosave_interval,
    validated_buffer_size, BehaviorConfig, Theme, UIConfig,
};
use yadaw::idgen::{next, seed_from_max, IdGenerator};
use yadaw::integration::{is_auto_save_due, SessionManager};
use yadaw::mixer::MixerRouting;
use yadaw::model::group::TrackGroup;
use yadaw::plugin_host::{is_initialized, shutdown, with_host, HostSlot};

#[test]
fn recovery_points_keep_the_latest_ten() {
    let mut s: SessionManager<u32> = SessionManager::new();
    assert_eq!(s.restore_recovery_point(0), None);
    for i in 0..12u32 {
        s.create_recovery_point(&i, format!("point {i}"));
    }
    assert_eq!(s.recovery_point_count(), 10);
    assert_eq!(s.restore_recovery_point(0), Some(2));
    assert_eq!(s.restore_recovery_point(9), Some(11));
    assert_eq!(s.restore_recovery_point(10), None);
}

#[test]
fn recovery_points_before_full() {
    let mut s: SessionManager<String> = SessionManager::new();
    s.create_recovery_point(&"a".to_string(), "first".to_string());
    s.create_recovery_point(&"b".to_string(), "second".to_string());
    assert_eq!(s.recovery_point_count(), 2);
    assert_eq!(s.restore_recovery_point(0), Some("a".to_string()));
    assert_eq!(s.restore_recovery_point(1), Some("b".to_string()));
}

#[test]
fn auto_save_schedule() {
    assert!(!is_auto_save_due(299, 300));
    assert!(is_auto_save_due(300, 300));
    let mut s: SessionManager<u8> = SessionManager::new();
    assert!(!s.auto_save_due());
    s.mark_auto_saved();
    assert!(!s.auto_save_due());
}

#[test]
fn ids_are_nonzero_and_increase() {
    let mut g = IdGenerator::new();
    assert_eq!(next(&mut g), 1);
    assert_eq!(next(&mut g), 2);
    seed_from_max(&mut g, 100);
    assert_eq!(next(&mut g), 101);
    seed_from_max(&mut g, 5);
    assert_eq!(next(&mut g), 102);
    seed_from_max(&mut g, u64::MAX - 1);
    assert_eq!(next(&mut g), u64::MAX);
    assert_eq!(next(&mut g), 1);
    assert_eq!(next(&mut g), 2);
    seed_from_max(&mut g, u64::MAX);
    assert_eq!(next(&mut g), u64::MAX);
}

#[test]
fn config_defaults_and_repair() {
    assert_eq!(default_buffer_size(), 512);
    assert!(default_true());
    assert_eq!(default_autosave_interval(), 5);
    assert_eq!(Theme::default(), Theme::Dark);
    let ui = UIConfig::default();
    assert!(ui.show_tooltips && ui.auto_scroll_on_playback && ui.smooth_scrolling);
    let b = BehaviorConfig::default();
    assert!(!b.auto_save && b.create_backup_on_save && b.follow_playhead);
    assert_eq!(b.auto_save_interval_minutes, 5);
    assert_eq!(validated_buffer_size(256), 256);
    assert_eq!(validated_buffer_size(8192), 8192);
    assert_eq!(validated_buffer_size(32), 512);
    assert_eq!(validated_buffer_size(300), 512);
    assert_eq!(validated_buffer_size(16384), 512);
    assert_eq!(validated_autosave_interval(0), 5);
    assert_eq!(validated_autosave_interval(1), 1);
    assert_eq!(validated_autosave_interval(120), 120);
    assert_eq!(validated_autosave_interval(121), 5);
}

#[test]
fn bus_routing() {
    let mut m = MixerRouting::new();
    assert_eq!(m.create_bus("Reverb Bus".to_string()), 0);
    assert_eq!(m.create_bus("Drums".to_string()), 1);
    m.route_track_to_bus(3, 1);
    m.route_track_to_bus(3, 1);
    m.route_track_to_bus(4, 7);
    assert!(m.is_routed_to_bus(3));
    assert!(!m.is_routed_to_bus(4));
    assert!(m.outputs_to_master(0));
    assert_eq!(m.bus_count(), 2);
}

#[test]
fn group_colours_follow_ids() {
    let g = TrackGroup::new(12, "Drums".to_string());
    assert_eq!(g.color, (241, 196, 15));
    assert_eq!(g.name, "Drums");
    assert!(g.link_volume && g.link_mute && g.link_solo && !g.collapsed);
    let d = TrackGroup::default();
    assert_eq!(d.name, "New Group");
    assert_eq!(d.color, (52, 152, 219));
    assert_eq!(TrackGroup::new(9, String::new()).color, (44, 62, 80));
}

#[test]
fn host_slot_lifecycle() {
    let mut slot: HostSlot<u32> = HostSlot::empty();
    assert!(!is_initialized(&slot));
    slot.init(7);
    assert!(is_initialized(&slot));
    assert_eq!(slot.host(), Some(&7));
    shutdown(&mut slot);
    assert!(!is_initialized(&slot));
    assert_eq!(slot.host(), None);
}

#[test]
fn missing_ids_are_filled_in_order() {
    let mut gen = IdGenerator::new();
    seed_from_max(&mut gen, 41);
    let mut ids = vec![0, 7, 0, 0, 3];
    yadaw::idgen::assign_missing_ids(&mut gen, &mut ids);
    assert_eq!(ids, vec![42, 7, 43, 44, 3]);
    assert_eq!(next(&mut gen), 45);
    let mut none: Vec<u64> = Vec::new();
    yadaw::idgen::assign_missing_ids(&mut gen, &mut none);
    assert!(none.is_empty());
}

#[test]
fn bus_inputs_in_routing_order() {
    let mut r = MixerRouting::new();
    let bus = r.create_bus("Drums".to_string());
    r.route_track_to_bus(4, bus);
    r.route_track_to_bus(2, bus);
    r.route_track_to_bus(4, bus);
    assert_eq!(r.bus_inputs(bus), &[4, 2]);
}

#[test]
fn calling_the_host_after_shutdown_fails() {
    let mut slot: HostSlot<u32> = HostSlot::empty();
    assert_eq!(with_host(&slot, |h| *h + 1), Err("Plugin host not initialized".to_string()));
    slot.init(41);
    assert_eq!(with_host(&slot, |h| *h + 1), Ok(42));
    shutdown(&mut slot);
    let mut called = false;
    let r = with_host(&slot, |h| {
        called = true;
        *h
    });
    assert_eq!(r, Err("Plugin host not initialized".to_string()));
    assert!(!called);
    shutdown(&mut slot);
    assert!(!is_initialized(&slot));
    slot.init(3);
    assert!(is_initialized(&slot));
    assert_eq!(with_host(&slot, |h| *h), Ok(3));
}
