//! The decisions of the main loop: what a layout action does to the focused
//! window, and what a menu choice asks the app to do.

use vstd::prelude::*;
use crate::display::manager::{target_index, DisplayManager, Monitor};
use crate::layout::action::LayoutAction;
use crate::layout::grid::{full_height, full_width, placement, placement_of, Placement};
use crate::menu::tray::MenuAction;

verus! {

/// How a layout action moves the window: on the monitor chosen by
/// `target_index`, centred (keeping its size) for the monitor moves, and
/// otherwise as `placement_of` says.
pub open spec fn planned_placement(action: LayoutAction) -> Placement {
    match action {
        LayoutAction::MoveToNextMonitor | LayoutAction::MoveToPreviousMonitor => Placement::Centered,
        _ => placement_of(action),
    }
}

/// Plans a layout action for the focused window, given `containing`, the
/// index of the monitor that holds the window's origin: the monitor whose
/// visible frame the window goes to and how it is placed there. `None` when
/// there is no such monitor, in which case the window is left alone.
pub fn plan_action<'a, G>(
    displays: &'a DisplayManager<G>,
    action: LayoutAction,
    containing: Option<usize>,
) -> (r: Option<(&'a Monitor<G>, Placement)>)
    ensures
        match target_index(displays@, action, containing) {
            Some(i) => r == Some((&displays@[i], planned_placement(action))),
            None => r is None,
        },
{
    match displays.target_monitor(action, containing) {
        Some(m) => {
            let how = match action {
                LayoutAction::MoveToNextMonitor | LayoutAction::MoveToPreviousMonitor => {
                    Placement::Centered
                },
                _ => placement(action),
            };
            Some((m, how))
        },
        None => None,
    }
}

/// Every action but the two monitor moves places the window as its own
/// grid placement says, so a snap fills its cell, Maximize fills the whole
/// visible frame (a full-width, full-height cell) and Center keeps the size;
/// the monitor moves keep the window's size and centre it on the target.
pub proof fn lemma_plan_follows_the_action(a: LayoutAction)
    ensures
        a != LayoutAction::MoveToNextMonitor && a != LayoutAction::MoveToPreviousMonitor
            ==> planned_placement(a) == placement_of(a),
        a == LayoutAction::MoveToNextMonitor || a == LayoutAction::MoveToPreviousMonitor
            ==> planned_placement(a) == Placement::Centered,
        planned_placement(LayoutAction::Maximize) matches Placement::Cell(c) && full_width(c)
            && full_height(c),
        planned_placement(LayoutAction::Center) == Placement::Centered,
{
}

/// What the app does for a menu choice.
#[derive(Debug, Clone, Copy, PartialEq, Eq, Structural)]
pub enum MenuCommand {
    /// Open the configuration file in the default editor.
    OpenConfig,
    /// Open System Settings at Privacy & Security, Accessibility.
    OpenAccessibilitySettings,
    /// Register (`true`) or unregister (`false`) the login item.
    ApplyLaunchAtLogin(bool),
    /// Show the keyboard shortcuts cheat sheet.
    ShowShortcuts,
    /// Leave the main loop.
    Quit,
    /// Nothing to do.
    Ignore,
}

/// The command for a menu choice. The launch-at-login checkbox has already
/// flipped itself when its choice arrives, so its new state, `checked`, is
/// the state to apply.
pub open spec fn command_for(action: MenuAction, checked: bool) -> MenuCommand {
    match action {
        MenuAction::Settings => MenuCommand::OpenConfig,
        MenuAction::AccessibilitySettings => MenuCommand::OpenAccessibilitySettings,
        MenuAction::LaunchAtLogin => MenuCommand::ApplyLaunchAtLogin(checked),
        MenuAction::About => MenuCommand::ShowShortcuts,
        MenuAction::Quit => MenuCommand::Quit,
        MenuAction::Unknown => MenuCommand::Ignore,
    }
}

/// The command for a menu choice, given the launch-at-login checkbox state.
pub fn menu_command(action: MenuAction, checked: bool) -> (r: MenuCommand)
    ensures
        r == command_for(action, checked),
{
    match action {
        MenuAction::Settings => MenuCommand::OpenConfig,
        MenuAction::AccessibilitySettings => MenuCommand::OpenAccessibilitySettings,
        MenuAction::LaunchAtLogin => MenuCommand::ApplyLaunchAtLogin(checked),
        MenuAction::About => MenuCommand::ShowShortcuts,
        MenuAction::Quit => MenuCommand::Quit,
        MenuAction::Unknown => MenuCommand::Ignore,
    }
}

/// The state the launch-at-login checkbox is left in after trying to apply
/// `desired`: `desired` when it was applied, otherwise put back.
pub fn checkbox_after_apply(desired: bool, applied: bool) -> (r: bool)
    ensures
        r == (if applied {
            desired
        } else {
            !desired
        }),
{
    if applied {
        desired
    } else {
        !desired
    }
}


/// The launch-at-login choice applies the checkbox's new state, whichever
/// it is: ticking registers the login item and unticking removes it.
pub proof fn lemma_launch_at_login_applies_the_checkbox(checked: bool, applied: bool)
    ensures
        command_for(MenuAction::LaunchAtLogin, checked) == MenuCommand::ApplyLaunchAtLogin(checked),
        command_for(MenuAction::LaunchAtLogin, true) != command_for(MenuAction::LaunchAtLogin, false),
{
}

/// Distinct menu choices ask for distinct things: no two entries of the
/// menu do the same, and only an unknown choice is ignored.
pub proof fn lemma_menu_choices_are_distinct(a: MenuAction, b: MenuAction, checked: bool)
    ensures
        a != b ==> command_for(a, checked) != command_for(b, checked),
        command_for(a, checked) == MenuCommand::Ignore <==> a == MenuAction::Unknown,
{
}

} // verus!
