use windex::control::{checkbox_after_apply, menu_command, MenuCommand};
use windex::menu::tray::{default_icon_rgba, event_to_action, MenuAction, MenuIds};

fn ids() -> MenuIds {
    MenuIds {
        settings: "1".to_string(),
        accessibility: "2".to_string(),
        launch_at_login: "3".to_string(),
        about: "4".to_string(),
        quit: "5".to_string(),
    }
}

#[test]
fn menu_events_map_to_actions() {
    let ids = ids();
    assert_eq!(event_to_action(Some(&ids), "1"), MenuAction::Settings);
    assert_eq!(event_to_action(Some(&ids), "2"), MenuAction::AccessibilitySettings);
    assert_eq!(event_to_action(Some(&ids), "3"), MenuAction::LaunchAtLogin);
    assert_eq!(event_to_action(Some(&ids), "4"), MenuAction::About);
    assert_eq!(event_to_action(Some(&ids), "5"), MenuAction::Quit);
    assert_eq!(event_to_action(Some(&ids), "6"), MenuAction::Unknown);
    assert_eq!(event_to_action(None, "1"), MenuAction::Unknown);
}

#[test]
fn menu_commands() {
    assert_eq!(menu_command(MenuAction::Settings, false), MenuCommand::OpenConfig);
    assert_eq!(menu_command(MenuAction::LaunchAtLogin, true), MenuCommand::ApplyLaunchAtLogin(true));
    assert_eq!(menu_command(MenuAction::About, true), MenuCommand::ShowShortcuts);
    assert_eq!(menu_command(MenuAction::Quit, false), MenuCommand::Quit);
    assert_eq!(menu_command(MenuAction::Unknown, false), MenuCommand::Ignore);
    assert_eq!(
        menu_command(MenuAction::AccessibilitySettings, false),
        MenuCommand::OpenAccessibilitySettings
    );
    assert!(checkbox_after_apply(true, true));
    assert!(!checkbox_after_apply(true, false));
    assert!(checkbox_after_apply(false, false));
}

#[test]
fn icon_glyph_pixels() {
    let rgba = default_icon_rgba();
    assert_eq!(rgba.len(), 36 * 36 * 4);
    let alpha = |x: usize, y: usize| rgba[(y * 36 + x) * 4 + 3];
    // Outside the square and in the rounded corners nothing is drawn.
    assert_eq!(alpha(0, 0), 0);
    assert_eq!(alpha(4, 5), 0);
    assert_eq!(alpha(31, 30), 0);
    // Border, divider and pane interior.
    assert_eq!(alpha(5, 5), 255);
    assert_eq!(alpha(4, 6), 255);
    assert_eq!(alpha(18, 20), 255);
    assert_eq!(alpha(25, 17), 255);
    assert_eq!(alpha(10, 15), 0);
    assert_eq!(alpha(25, 25), 0);
    // Colour channels are black throughout.
    assert!(rgba.iter().enumerate().all(|(i, b)| i % 4 == 3 || *b == 0));
    assert!(rgba.iter().all(|b| *b == 0 || *b == 255));
}
