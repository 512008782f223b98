use windex::config::defaults::DEFAULT_CONFIG_TOML;
use windex::config::settings::{
    default_duration, default_easing, default_launch_at_login, AnimationConfig, Config, GeneralConfig,
    HotkeyConfig,
};
use windex::layout::action::LayoutAction;

#[test]
fn defaults_match_the_readme() {
    let c = Config::default();
    assert!(!c.general.launch_at_login);
    assert_eq!(c.animation.duration_ms, 100);
    assert_eq!(c.animation.easing, "ease-out-cubic");
    assert_eq!(c.hotkeys.snap_left_half.as_deref(), Some("ctrl+alt+left"));
    assert_eq!(c.hotkeys.maximize.as_deref(), Some("ctrl+alt+enter"));
    assert_eq!(c.hotkeys.move_to_previous_monitor.as_deref(), Some("ctrl+alt+p"));
    assert!(!GeneralConfig::default().launch_at_login);
    assert_eq!(AnimationConfig::default().duration_ms, default_duration());
    assert_eq!(AnimationConfig::default().easing, default_easing());
    assert!(!default_launch_at_login());
    assert_eq!(default_launch_at_login(), GeneralConfig::default().launch_at_login);
}

#[test]
fn get_returns_each_action_binding() {
    let mut h = HotkeyConfig::default();
    h.center = None;
    assert_eq!(h.get(LayoutAction::Center), &None);
    assert_eq!(h.get(LayoutAction::SnapTopLeft).as_deref(), Some("ctrl+alt+u"));
    assert_eq!(h.get(LayoutAction::SnapRightTwoThirds).as_deref(), Some("ctrl+alt+t"));
}

#[test]
fn shipped_toml_matches_the_default_bindings() {
    let doc: toml::Value = toml::from_str(DEFAULT_CONFIG_TOML).unwrap();
    let hotkeys = doc.get("hotkeys").unwrap();
    let defaults = HotkeyConfig::default();
    for a in LayoutAction::all() {
        let in_file = hotkeys.get(a.config_key()).and_then(|v| v.as_str());
        assert_eq!(in_file, defaults.get(a).as_deref(), "{}", a.config_key());
    }
    assert_eq!(doc["general"]["launch_at_login"].as_bool(), Some(false));
    assert_eq!(doc["animation"]["duration_ms"].as_integer(), Some(100));
    assert_eq!(doc["animation"]["easing"].as_str(), Some("ease-out-cubic"));
}
