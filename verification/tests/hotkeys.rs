use windex::config::settings::HotkeyConfig;
use windex::hotkey::binding::{parse_hotkey, parse_key_code, HotkeyBinding, HotkeyParseError};
use windex::hotkey::keys::{KeyCode, ModifierSet};
use windex::hotkey::manager::{
    parse_hotkey_combo, HotkeyBindings, HotkeyCombo, HotkeyManager, InputKey, KeyEvent,
    KeyboardState,
};
use windex::layout::action::LayoutAction;

fn defaults_in_order(config: &HotkeyConfig) -> Vec<&Option<String>> {
    vec![
        &config.snap_left_half,
        &config.snap_right_half,
        &config.snap_top_half,
        &config.snap_bottom_half,
        &config.snap_left_third,
        &config.snap_center_third,
        &config.snap_right_third,
        &config.snap_left_two_thirds,
        &config.snap_right_two_thirds,
        &config.snap_top_left,
        &config.snap_top_right,
        &config.snap_bottom_left,
        &config.snap_bottom_right,
        &config.maximize,
        &config.center,
        &config.move_to_next_monitor,
        &config.move_to_previous_monitor,
    ]
}

#[test]
fn every_default_binding_parses() {
    let config = HotkeyConfig::default();
    let defaults = defaults_in_order(&config);

    let mut seen = Vec::new();
    for binding in defaults {
        let binding = binding.as_ref().expect("default bindings are all set");
        let combo = parse_hotkey_combo(binding)
            .unwrap_or_else(|e| panic!("default binding {binding:?} does not parse: {e:?}"));
        assert!(
            !seen.contains(&combo),
            "two defaults share the combo {binding:?}"
        );
        seen.push(combo);
    }
}

#[test]
fn parses_a_full_modifier_stack() {
    let combo = parse_hotkey_combo("ctrl+shift+cmd+right").unwrap();
    assert!(combo.ctrl && combo.shift && combo.cmd && !combo.alt);
    assert_eq!(combo.key, KeyCode::ArrowRight);
}

#[test]
fn parses_aliases_and_case() {
    let combo = parse_hotkey_combo("Control+OPT+Super+Return").unwrap();
    assert_eq!(
        combo,
        HotkeyCombo { ctrl: true, alt: true, shift: false, cmd: true, key: KeyCode::Enter }
    );
    assert_eq!(parse_hotkey_combo("esc").unwrap().key, KeyCode::Escape);
    assert_eq!(parse_hotkey_combo("f12").unwrap().key, KeyCode::F12);
    assert_eq!(parse_hotkey_combo("alt+7").unwrap().key, KeyCode::Digit7);
    assert_eq!(parse_hotkey_combo("arrowup").unwrap().key, KeyCode::ArrowUp);
}

#[test]
fn lowercasing_is_unicode_aware() {
    // U+212A KELVIN SIGN lower-cases to an ASCII `k`.
    let combo = parse_hotkey_combo("ctrl+\u{212a}").unwrap();
    assert_eq!(combo.key, KeyCode::KeyK);
}

#[test]
fn reports_the_first_unknown_modifier() {
    match parse_hotkey_combo("ctrl+hyper+meh+x") {
        Err(HotkeyParseError::UnknownModifier(m)) => assert_eq!(m, "hyper"),
        other => panic!("unexpected {other:?}"),
    }
}

#[test]
fn reports_an_unknown_key() {
    match parse_hotkey("Ctrl+Alt+PageUp") {
        Err(HotkeyParseError::UnknownKey(k)) => assert_eq!(k, "pageup"),
        other => panic!("unexpected {other:?}"),
    }
    match parse_hotkey("") {
        Err(HotkeyParseError::UnknownKey(k)) => assert_eq!(k, ""),
        other => panic!("unexpected {other:?}"),
    }
    match parse_hotkey("ctrl+") {
        Err(HotkeyParseError::UnknownKey(k)) => assert_eq!(k, ""),
        other => panic!("unexpected {other:?}"),
    }
    match parse_key_code("kp1") {
        Err(HotkeyParseError::UnknownKey(k)) => assert_eq!(k, "kp1"),
        other => panic!("unexpected {other:?}"),
    }
}

#[test]
fn modifier_checked_before_key() {
    match parse_hotkey("bogus+nokey") {
        Err(HotkeyParseError::UnknownModifier(m)) => assert_eq!(m, "bogus"),
        other => panic!("unexpected {other:?}"),
    }
}

#[test]
fn hotkey_binding_keeps_its_action() {
    let b = HotkeyBinding::new("ctrl+alt+enter", LayoutAction::Maximize).unwrap();
    assert_eq!(b.action, LayoutAction::Maximize);
    assert_eq!(
        b.hotkey.mods,
        ModifierSet { ctrl: true, alt: true, shift: false, meta: false }
    );
    assert_eq!(b.hotkey.key, KeyCode::Enter);
    assert!(HotkeyBinding::new("ctrl+alt+nope", LayoutAction::Center).is_err());
}

#[test]
fn bindings_map_reads_back_writes() {
    let c1 = HotkeyCombo { ctrl: true, alt: true, shift: false, cmd: false, key: KeyCode::KeyA };
    let c2 = HotkeyCombo { ctrl: true, alt: false, shift: false, cmd: false, key: KeyCode::KeyA };
    let mut b = HotkeyBindings::new();
    assert_eq!(b.get(&c1), None);
    b.insert(c1, LayoutAction::Center);
    b.insert(c2, LayoutAction::Maximize);
    assert_eq!(b.get(&c1), Some(LayoutAction::Center));
    b.insert(c1, LayoutAction::SnapTopLeft);
    assert_eq!(b.get(&c1), Some(LayoutAction::SnapTopLeft));
    assert_eq!(b.get(&c2), Some(LayoutAction::Maximize));
}

#[test]
fn configured_hotkey_fires_its_action() {
    let (bindings, refused) = HotkeyManager::bindings(&HotkeyConfig::default());
    assert!(refused.is_empty());
    let mut state = KeyboardState::new();
    assert_eq!(state.handle(KeyEvent::Press(InputKey::ControlLeft), &bindings), None);
    assert_eq!(state.handle(KeyEvent::Press(InputKey::Alt), &bindings), None);
    assert_eq!(
        state.handle(KeyEvent::Press(InputKey::Named(KeyCode::ArrowLeft)), &bindings),
        Some(LayoutAction::SnapLeftHalf)
    );
    assert_eq!(state.handle(KeyEvent::Release(InputKey::Named(KeyCode::ArrowLeft)), &bindings), None);
    assert_eq!(
        state.handle(KeyEvent::Press(InputKey::Named(KeyCode::KeyN)), &bindings),
        Some(LayoutAction::MoveToNextMonitor)
    );
    // Releasing Alt leaves only Ctrl held: ctrl+left is not bound.
    assert_eq!(state.handle(KeyEvent::Release(InputKey::Alt), &bindings), None);
    assert_eq!(state, KeyboardState { ctrl: true, alt: false, shift: false, cmd: false });
    assert_eq!(state.handle(KeyEvent::Press(InputKey::Named(KeyCode::ArrowLeft)), &bindings), None);
    assert_eq!(state.handle(KeyEvent::Press(InputKey::Other), &bindings), None);
    assert_eq!(state.handle(KeyEvent::Other, &bindings), None);
}

#[test]
fn extra_modifiers_do_not_match() {
    let (bindings, _) = HotkeyManager::bindings(&HotkeyConfig::default());
    let mut state = KeyboardState::new();
    state.handle(KeyEvent::Press(InputKey::ControlRight), &bindings);
    state.handle(KeyEvent::Press(InputKey::AltGr), &bindings);
    state.handle(KeyEvent::Press(InputKey::ShiftLeft), &bindings);
    assert_eq!(state.handle(KeyEvent::Press(InputKey::Named(KeyCode::KeyC)), &bindings), None);
    state.handle(KeyEvent::Release(InputKey::ShiftLeft), &bindings);
    assert_eq!(
        state.handle(KeyEvent::Press(InputKey::Named(KeyCode::KeyC)), &bindings),
        Some(LayoutAction::Center)
    );
}

#[test]
fn refused_and_unbound_entries() {
    let mut config = HotkeyConfig::default();
    config.center = Some("ctrl+alt+zz".to_string());
    config.maximize = None;
    config.snap_top_left = Some("ctrl+alt+left".to_string());
    let (bindings, refused) = HotkeyManager::bindings(&config);
    assert_eq!(refused.len(), 1);
    assert_eq!(refused[0].0, LayoutAction::Center);
    let left = HotkeyCombo { ctrl: true, alt: true, shift: false, cmd: false, key: KeyCode::ArrowLeft };
    // The later action in the list wins a shared combination.
    assert_eq!(bindings.get(&left), Some(LayoutAction::SnapTopLeft));
    let enter = HotkeyCombo { ctrl: true, alt: true, shift: false, cmd: false, key: KeyCode::Enter };
    assert_eq!(bindings.get(&enter), None);
}
