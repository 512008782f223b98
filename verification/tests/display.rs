use windex::control::plan_action;
use windex::display::manager::{active_displays, DisplayManager, Monitor, MAX_DISPLAYS};
use windex::layout::action::LayoutAction;
use windex::layout::grid::Placement;

fn monitors(ids: &[(u32, bool)]) -> Vec<Monitor<&'static str>> {
    ids.iter()
        .map(|&(id, is_primary)| Monitor { id, is_primary, geometry: "frames" })
        .collect()
}

#[test]
fn wrap_around_handles_no_displays() {
    let manager: DisplayManager<()> = DisplayManager::new(Vec::new());
    assert!(manager.next_monitor(0).is_none());
    assert!(manager.previous_monitor(0).is_none());
    assert!(manager.primary().is_none());
}

#[test]
fn next_and_previous_wrap_around() {
    let manager = DisplayManager::new(monitors(&[(7, false), (3, true), (9, false)]));
    assert_eq!(manager.next_monitor(7).unwrap().id, 3);
    assert_eq!(manager.next_monitor(9).unwrap().id, 7);
    assert_eq!(manager.previous_monitor(7).unwrap().id, 9);
    assert_eq!(manager.previous_monitor(3).unwrap().id, 7);
    // An unknown id counts as the first monitor.
    assert_eq!(manager.next_monitor(42).unwrap().id, 3);
    assert_eq!(manager.previous_monitor(42).unwrap().id, 9);
    // Previous undoes next.
    for id in [7, 3, 9] {
        let n = manager.next_monitor(id).unwrap().id;
        assert_eq!(manager.previous_monitor(n).unwrap().id, id);
    }
}

#[test]
fn single_display_wraps_to_itself() {
    let manager = DisplayManager::new(monitors(&[(5, true)]));
    assert_eq!(manager.next_monitor(5).unwrap().id, 5);
    assert_eq!(manager.previous_monitor(5).unwrap().id, 5);
}

#[test]
fn primary_and_point_lookup() {
    let mut manager = DisplayManager::new(monitors(&[(1, false), (2, true), (4, true)]));
    assert_eq!(manager.primary().unwrap().id, 2);
    assert_eq!(manager.monitors().len(), 3);
    let found = manager.monitor_at(|g: &&str| *g == "frames").unwrap();
    assert_eq!(found.id, 1);
    assert!(manager.monitor_at(|_: &&str| false).is_none());
    manager.refresh(monitors(&[(8, false)]));
    assert!(manager.primary().is_none());
    assert_eq!(manager.monitor_position(|_: &&str| true), Some(0));
}

#[test]
fn plan_uses_the_window_monitor_or_the_primary() {
    let manager = DisplayManager::new(monitors(&[(1, false), (2, true), (4, false)]));
    let (m, how) = plan_action(&manager, LayoutAction::SnapLeftHalf, Some(2)).unwrap();
    assert_eq!(m.id, 4);
    assert!(matches!(how, Placement::Cell(_)));
    let (m, _) = plan_action(&manager, LayoutAction::Maximize, None).unwrap();
    assert_eq!(m.id, 2);
    let (m, how) = plan_action(&manager, LayoutAction::Center, Some(9)).unwrap();
    assert_eq!(m.id, 2);
    assert_eq!(how, Placement::Centered);
    let (m, how) = plan_action(&manager, LayoutAction::MoveToNextMonitor, Some(2)).unwrap();
    assert_eq!(m.id, 1);
    assert_eq!(how, Placement::Centered);
    let (m, _) = plan_action(&manager, LayoutAction::MoveToPreviousMonitor, Some(0)).unwrap();
    assert_eq!(m.id, 4);
    // Off every monitor, moves start from display id 0 (not present: the first).
    let (m, _) = plan_action(&manager, LayoutAction::MoveToNextMonitor, None).unwrap();
    assert_eq!(m.id, 2);

    let none_primary = DisplayManager::new(monitors(&[(1, false)]));
    assert!(plan_action(&none_primary, LayoutAction::SnapLeftHalf, None).is_none());
    let empty: DisplayManager<&str> = DisplayManager::new(Vec::new());
    assert!(plan_action(&empty, LayoutAction::MoveToNextMonitor, None).is_none());
}

#[test]
fn active_displays_keep_the_reported_ids_and_mark_the_main_one() {
    let mut ids = vec![0u32; MAX_DISPLAYS as usize];
    ids[0] = 7;
    ids[1] = 3;
    ids[2] = 9;
    let r = active_displays(&ids, 3, 0, 3);
    assert_eq!(r, vec![(7, false), (3, true), (9, false)]);
}

#[test]
fn active_displays_are_none_when_the_query_fails() {
    let ids = vec![5u32; MAX_DISPLAYS as usize];
    assert!(active_displays(&ids, 4, 1001, 5).is_empty());
}

#[test]
fn active_displays_never_read_past_the_buffer() {
    let ids = vec![1u32, 2, 3];
    let r = active_displays(&ids, 40, 0, 2);
    assert_eq!(r, vec![(1, false), (2, true), (3, false)]);
}
