use yadaw::input::actions::{ActionContext, AppAction};
use yadaw::input::shortcuts::{KeyCode, Keybind, ModifierSet, ShortcutRegistry};

#[test]
fn all_actions_are_listed_once_in_order() {
    let all = AppAction::all();
    assert_eq!(all.len(), 51);
    assert_eq!(all[0], AppAction::PlayPause);
    assert_eq!(all[50], AppAction::Escape);
    for (i, a) in all.iter().enumerate() {
        assert_eq!(a.index(), i);
        assert_eq!(AppAction::from_index(i), *a);
    }
}

#[test]
fn action_names_and_categories() {
    assert_eq!(AppAction::PlayPause.name(), "Play/Pause");
    assert_eq!(AppAction::TogglePianoRoll.name(), "Switch to Piano Roll");
    assert_eq!(AppAction::NudgeLeftFine.name(), "Nudge Left (Fine)");
    assert_eq!(AppAction::QuantizeDialog.name(), "Quantize...");
    assert_eq!(AppAction::Delete.category(), "Edit");
    assert_eq!(AppAction::QuantizeDialog.category(), "Piano Roll");
    assert_eq!(AppAction::SplitAtPlayhead.category(), "Timeline");
    assert_eq!(AppAction::Escape.category(), "Other");
    assert_eq!(AppAction::ClearLoop.category(), "Loop");
}

#[test]
fn action_contexts() {
    assert_eq!(
        AppAction::Delete.contexts(),
        vec![ActionContext::Global, ActionContext::PianoRoll, ActionContext::Timeline]
    );
    assert_eq!(AppAction::TransposeUp.contexts(), vec![ActionContext::PianoRoll]);
    assert_eq!(AppAction::FadeIn.contexts(), vec![ActionContext::Timeline]);
    assert_eq!(AppAction::HumanizeDialog.contexts(), vec![ActionContext::PianoRoll]);
    assert_eq!(AppAction::Escape.contexts(), vec![ActionContext::Global]);
}

#[test]
fn keybind_text() {
    assert_eq!(Keybind::cmd_shift(KeyCode::S).to_string(), "Ctrl+Shift+S");
    assert_eq!(Keybind::none(KeyCode::Space).to_string(), "Space");
    assert_eq!(Keybind::alt(KeyCode::ArrowLeft).to_string(), "Alt+ArrowLeft");
    assert_eq!(Keybind::shift(KeyCode::F12).to_string(), "Shift+F12");
    assert_eq!(Keybind::cmd(KeyCode::Num0).to_string(), "Ctrl+Num0");
    let both = Keybind {
        modifiers: ModifierSet { ctrl: true, shift: false, alt: true, command: true },
        key: KeyCode::Z,
    };
    assert_eq!(both.to_string(), "Ctrl+Ctrl+Alt+Z");
}

#[test]
fn keybind_numbers_are_distinct() {
    let mut seen = std::collections::HashSet::new();
    let keys = [KeyCode::A, KeyCode::Z, KeyCode::Num9, KeyCode::F12, KeyCode::PageDown];
    for bits in 0..16u8 {
        for k in keys {
            let kb = Keybind {
                modifiers: ModifierSet {
                    ctrl: bits & 8 != 0,
                    shift: bits & 4 != 0,
                    alt: bits & 2 != 0,
                    command: bits & 1 != 0,
                },
                key: k,
            };
            assert!(kb.index() < 992);
            assert!(seen.insert(kb.index()));
        }
    }
}

#[test]
fn default_bindings_map_each_keybind() {
    let reg = ShortcutRegistry::default_bindings();
    assert_eq!(reg.get_action(&Keybind::none(KeyCode::Space)), Some(AppAction::PlayPause));
    assert_eq!(reg.get_action(&Keybind::cmd(KeyCode::Z)), Some(AppAction::Undo));
    assert_eq!(reg.get_action(&Keybind::cmd_shift(KeyCode::Z)), Some(AppAction::Redo));
    assert_eq!(reg.get_action(&Keybind::shift(KeyCode::L)), Some(AppAction::ClearLoop));
    assert_eq!(reg.get_action(&Keybind::cmd(KeyCode::ArrowDown)), Some(AppAction::VelocityDown));
    assert_eq!(reg.get_action(&Keybind::none(KeyCode::F1)), None);
    assert_eq!(reg.get_bindings(AppAction::SaveProjectAs), &[Keybind::cmd_shift(KeyCode::S)]);
    assert!(reg.get_bindings(AppAction::Record).is_empty());
    let mut bound = 0;
    for a in AppAction::all() {
        for k in reg.get_bindings(a) {
            assert_eq!(reg.get_action(k), Some(a));
            bound += 1;
        }
    }
    assert_eq!(bound, 30);
}

#[test]
fn bind_then_lookup_and_unbind() {
    let mut reg = ShortcutRegistry::empty();
    let k = Keybind::cmd(KeyCode::R);
    reg.bind(AppAction::Record, k);
    assert_eq!(reg.get_action(&k), Some(AppAction::Record));
    assert_eq!(reg.get_bindings(AppAction::Record), &[k]);
    reg.bind(AppAction::Record, Keybind::none(KeyCode::R));
    assert_eq!(reg.get_bindings(AppAction::Record).len(), 2);
    reg.unbind(&k);
    assert_eq!(reg.get_action(&k), None);
    assert_eq!(reg.get_bindings(AppAction::Record), &[Keybind::none(KeyCode::R)]);
}

#[test]
fn unbind_after_fresh_bind_restores_registry() {
    let mut reg = ShortcutRegistry::default_bindings();
    let k = Keybind::alt(KeyCode::F5);
    reg.bind(AppAction::Normalize, k);
    reg.unbind(&k);
    let fresh = ShortcutRegistry::default_bindings();
    for a in AppAction::all() {
        assert_eq!(reg.get_bindings(a), fresh.get_bindings(a));
    }
    assert_eq!(reg.get_action(&k), None);
}

#[test]
fn rebinding_a_keybind_moves_its_action() {
    let mut reg = ShortcutRegistry::default_bindings();
    let space = Keybind::none(KeyCode::Space);
    reg.bind(AppAction::Record, space);
    assert_eq!(reg.get_action(&space), Some(AppAction::Record));
    assert_eq!(reg.get_bindings(AppAction::PlayPause), &[space]);
    assert_eq!(reg.has_conflict(&space, None), Some(AppAction::Record));
    assert_eq!(reg.has_conflict(&space, Some(AppAction::Record)), None);
    assert_eq!(reg.has_conflict(&space, Some(AppAction::PlayPause)), Some(AppAction::Record));
    assert_eq!(reg.has_conflict(&Keybind::none(KeyCode::F2), None), None);
}

#[test]
fn from_bindings_later_entries_win() {
    let entries = vec![
        (AppAction::Undo, vec![Keybind::cmd(KeyCode::Z)]),
        (AppAction::Redo, vec![Keybind::cmd(KeyCode::Y)]),
        (AppAction::Undo, vec![Keybind::alt(KeyCode::Z), Keybind::cmd(KeyCode::U)]),
    ];
    let reg = ShortcutRegistry::from_bindings(&entries);
    assert_eq!(
        reg.get_bindings(AppAction::Undo),
        &[Keybind::alt(KeyCode::Z), Keybind::cmd(KeyCode::U)]
    );
    assert_eq!(reg.get_action(&Keybind::cmd(KeyCode::Z)), None);
    assert_eq!(reg.get_action(&Keybind::cmd(KeyCode::U)), Some(AppAction::Undo));
    assert_eq!(reg.get_action(&Keybind::cmd(KeyCode::Y)), Some(AppAction::Redo));
}

#[test]
fn triggered_actions_follow_context_and_fire_once() {
    let reg = ShortcutRegistry::default_bindings();
    let pressed = vec![
        Keybind::none(KeyCode::ArrowUp),
        Keybind::none(KeyCode::Space),
        Keybind::none(KeyCode::Space),
        Keybind::none(KeyCode::F3),
    ];
    assert_eq!(
        reg.triggered_actions(&pressed, ActionContext::PianoRoll),
        vec![AppAction::TransposeUp, AppAction::PlayPause]
    );
    assert_eq!(
        reg.triggered_actions(&pressed, ActionContext::Timeline),
        vec![AppAction::PlayPause]
    );
    assert!(reg.triggered_actions(&vec![], ActionContext::Global).is_empty());
}

#[test]
fn action_names_are_distinct_and_non_empty() {
    let all = AppAction::all();
    for (i, a) in all.iter().enumerate() {
        assert!(!a.name().is_empty());
        for b in &all[i + 1..] {
            assert_ne!(a.name(), b.name(), "{a:?} {b:?}");
        }
    }
}

#[test]
fn keybind_text_where_the_command_key_is_cmd() {
    assert_eq!(Keybind::cmd_shift(KeyCode::S).to_string_for(true), "Cmd+Shift+S");
    assert_eq!(Keybind::cmd_shift(KeyCode::S).to_string_for(false), "Ctrl+Shift+S");
    let both = Keybind {
        modifiers: ModifierSet { ctrl: true, shift: false, alt: true, command: true },
        key: KeyCode::Z,
    };
    assert_eq!(both.to_string_for(true), "Cmd+Alt+Z");
    let ctrl_only = Keybind {
        modifiers: ModifierSet { ctrl: true, shift: false, alt: false, command: false },
        key: KeyCode::A,
    };
    assert_eq!(ctrl_only.to_string_for(true), "A");
    assert_eq!(ctrl_only.to_string_for(false), "Ctrl+A");
}

#[test]
fn action_contexts_follow_categories() {
    for a in AppAction::all() {
        let cs = a.contexts();
        assert!(!cs.is_empty());
        for (i, c) in cs.iter().enumerate() {
            assert!(!cs[i + 1..].contains(c));
        }
        let expected = if a == AppAction::Delete {
            vec![ActionContext::Global, ActionContext::PianoRoll, ActionContext::Timeline]
        } else if a.category() == "Piano Roll" {
            vec![ActionContext::PianoRoll]
        } else if a.category() == "Timeline" {
            vec![ActionContext::Timeline]
        } else {
            vec![ActionContext::Global]
        };
        assert_eq!(cs, expected, "{a:?}");
    }
}
