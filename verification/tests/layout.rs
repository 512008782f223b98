use windex::layout::action::LayoutAction;
use windex::layout::grid::{placement, Fraction, Placement};

#[derive(Debug, Clone, Copy, PartialEq)]
struct Rect {
    x: f64,
    y: f64,
    width: f64,
    height: f64,
}

fn part(len: f64, f: Fraction) -> f64 {
    len * f.num as f64 / f.den as f64
}

fn offset(origin: f64, len: f64, f: Fraction) -> f64 {
    if f.num == 0 {
        origin
    } else {
        origin + part(len, f)
    }
}

/// The frame a placement gives, computed the way the app computes it.
fn calculate_frame(action: LayoutAction, screen: Rect, current: Rect) -> Rect {
    match placement(action) {
        Placement::Cell(c) => Rect {
            x: offset(screen.x, screen.width, c.x),
            y: offset(screen.y, screen.height, c.y),
            width: part(screen.width, c.width),
            height: part(screen.height, c.height),
        },
        Placement::Centered => Rect {
            x: screen.x + (screen.width - current.width) / 2.0,
            y: screen.y + (screen.height - current.height) / 2.0,
            width: current.width,
            height: current.height,
        },
        Placement::Unchanged => current,
    }
}

fn test_screen() -> Rect {
    Rect { x: 0.0, y: 0.0, width: 1920.0, height: 1080.0 }
}

fn test_window() -> Rect {
    Rect { x: 100.0, y: 100.0, width: 800.0, height: 600.0 }
}

#[test]
fn test_left_half() {
    let result = calculate_frame(LayoutAction::SnapLeftHalf, test_screen(), test_window());
    assert_eq!(result.x, 0.0);
    assert_eq!(result.y, 0.0);
    assert_eq!(result.width, 960.0);
    assert_eq!(result.height, 1080.0);
}

#[test]
fn test_right_half() {
    let result = calculate_frame(LayoutAction::SnapRightHalf, test_screen(), test_window());
    assert_eq!(result.x, 960.0);
    assert_eq!(result.y, 0.0);
    assert_eq!(result.width, 960.0);
    assert_eq!(result.height, 1080.0);
}

#[test]
fn test_left_third() {
    let result = calculate_frame(LayoutAction::SnapLeftThird, test_screen(), test_window());
    assert_eq!(result.x, 0.0);
    assert_eq!(result.width, 640.0);
}

#[test]
fn test_center_third() {
    let result = calculate_frame(LayoutAction::SnapCenterThird, test_screen(), test_window());
    assert_eq!(result.x, 640.0);
    assert_eq!(result.width, 640.0);
}

#[test]
fn test_top_left_quarter() {
    let result = calculate_frame(LayoutAction::SnapTopLeft, test_screen(), test_window());
    assert_eq!(result.x, 0.0);
    assert_eq!(result.y, 0.0);
    assert_eq!(result.width, 960.0);
    assert_eq!(result.height, 540.0);
}

#[test]
fn test_maximize() {
    let result = calculate_frame(LayoutAction::Maximize, test_screen(), test_window());
    assert_eq!(result.x, 0.0);
    assert_eq!(result.y, 0.0);
    assert_eq!(result.width, 1920.0);
    assert_eq!(result.height, 1080.0);
}

#[test]
fn test_center() {
    let result = calculate_frame(LayoutAction::Center, test_screen(), test_window());
    // Window is 800x600, screen is 1920x1080
    // Center x: (1920 - 800) / 2 = 560
    // Center y: (1080 - 600) / 2 = 240
    assert_eq!(result.x, 560.0);
    assert_eq!(result.y, 240.0);
    assert_eq!(result.width, 800.0);
    assert_eq!(result.height, 600.0);
}

#[test]
fn remaining_cells_on_an_offset_screen() {
    let screen = Rect { x: 1920.0, y: 25.0, width: 1440.0, height: 900.0 };
    let w = test_window();
    let r = calculate_frame(LayoutAction::SnapRightThird, screen, w);
    assert_eq!((r.x, r.y, r.width, r.height), (1920.0 + 960.0, 25.0, 480.0, 900.0));
    let r = calculate_frame(LayoutAction::SnapLeftTwoThirds, screen, w);
    assert_eq!((r.x, r.width), (1920.0, 960.0));
    let r = calculate_frame(LayoutAction::SnapRightTwoThirds, screen, w);
    assert_eq!((r.x, r.width), (1920.0 + 480.0, 960.0));
    let r = calculate_frame(LayoutAction::SnapTopHalf, screen, w);
    assert_eq!((r.x, r.y, r.width, r.height), (1920.0, 25.0, 1440.0, 450.0));
    let r = calculate_frame(LayoutAction::SnapBottomHalf, screen, w);
    assert_eq!((r.y, r.height), (25.0 + 450.0, 450.0));
    let r = calculate_frame(LayoutAction::SnapBottomRight, screen, w);
    assert_eq!((r.x, r.y, r.width, r.height), (1920.0 + 720.0, 475.0, 720.0, 450.0));
    let r = calculate_frame(LayoutAction::SnapTopRight, screen, w);
    assert_eq!((r.x, r.y), (2640.0, 25.0));
    let r = calculate_frame(LayoutAction::SnapBottomLeft, screen, w);
    assert_eq!((r.x, r.y), (1920.0, 475.0));
    assert_eq!(calculate_frame(LayoutAction::MoveToNextMonitor, screen, w), w);
    assert_eq!(calculate_frame(LayoutAction::MoveToPreviousMonitor, screen, w), w);
}

#[test]
fn halves_and_thirds_tile_the_screen() {
    let s = test_screen();
    let w = test_window();
    let l = calculate_frame(LayoutAction::SnapLeftHalf, s, w);
    let r = calculate_frame(LayoutAction::SnapRightHalf, s, w);
    assert_eq!(l.x + l.width, r.x);
    assert_eq!(r.x + r.width, s.width);
    let a = calculate_frame(LayoutAction::SnapLeftThird, s, w);
    let b = calculate_frame(LayoutAction::SnapCenterThird, s, w);
    let c = calculate_frame(LayoutAction::SnapRightThird, s, w);
    assert_eq!(a.x + a.width, b.x);
    assert_eq!(b.x + b.width, c.x);
    assert_eq!(c.x + c.width, s.width);
}

#[test]
fn all_lists_every_action_once_with_its_key() {
    let all = LayoutAction::all();
    assert_eq!(all.len(), 17);
    for (i, a) in all.iter().enumerate() {
        assert!(!all[..i].contains(a));
    }
    assert_eq!(all[0].config_key(), "snap_left_half");
    assert_eq!(LayoutAction::SnapRightTwoThirds.config_key(), "snap_right_two_thirds");
    assert_eq!(LayoutAction::MoveToPreviousMonitor.config_key(), "move_to_previous_monitor");
    let mut keys: Vec<&str> = all.iter().map(|a| a.config_key()).collect();
    keys.sort();
    keys.dedup();
    assert_eq!(keys.len(), 17);
}
