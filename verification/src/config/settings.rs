//! The configuration the app reads from `config.toml`.

use vstd::prelude::*;
use crate::layout::action::LayoutAction;

verus! {

/// Main configuration structure.
#[derive(Debug, Clone)]
pub struct Config {
    pub general: GeneralConfig,
    pub hotkeys: HotkeyConfig,
    pub animation: AnimationConfig,
}

/// General application settings.
#[derive(Debug, Clone)]
pub struct GeneralConfig {
    pub launch_at_login: bool,
}

/// Hotkey bindings configuration: one optional binding string per action.
#[derive(Debug, Clone)]
pub struct HotkeyConfig {
    // Halves
    pub snap_left_half: Option<String>,
    pub snap_right_half: Option<String>,
    pub snap_top_half: Option<String>,
    pub snap_bottom_half: Option<String>,

    // Thirds
    pub snap_left_third: Option<String>,
    pub snap_center_third: Option<String>,
    pub snap_right_third: Option<String>,
    pub snap_left_two_thirds: Option<String>,
    pub snap_right_two_thirds: Option<String>,

    // Quarters
    pub snap_top_left: Option<String>,
    pub snap_top_right: Option<String>,
    pub snap_bottom_left: Option<String>,
    pub snap_bottom_right: Option<String>,

    // Special
    pub maximize: Option<String>,
    pub center: Option<String>,

    // Multi-monitor
    pub move_to_next_monitor: Option<String>,
    pub move_to_previous_monitor: Option<String>,
}

/// Animation settings.
#[derive(Debug, Clone)]
pub struct AnimationConfig {
    pub duration_ms: u64,
    pub easing: String,
}

/// The characters an optional string holds, if any.
pub open spec fn opt_view(o: Option<String>) -> Option<Seq<char>> {
    match o {
        Some(s) => Some(s@),
        None => None,
    }
}

/// The binding that ships for each action.
pub open spec fn default_binding_of(a: LayoutAction) -> Seq<char> {
    match a {
        LayoutAction::SnapLeftHalf => "ctrl+alt+left"@,
        LayoutAction::SnapRightHalf => "ctrl+alt+right"@,
        LayoutAction::SnapTopHalf => "ctrl+alt+up"@,
        LayoutAction::SnapBottomHalf => "ctrl+alt+down"@,
        LayoutAction::SnapLeftThird => "ctrl+alt+d"@,
        LayoutAction::SnapCenterThird => "ctrl+alt+f"@,
        LayoutAction::SnapRightThird => "ctrl+alt+g"@,
        LayoutAction::SnapLeftTwoThirds => "ctrl+alt+e"@,
        LayoutAction::SnapRightTwoThirds => "ctrl+alt+t"@,
        LayoutAction::SnapTopLeft => "ctrl+alt+u"@,
        LayoutAction::SnapTopRight => "ctrl+alt+i"@,
        LayoutAction::SnapBottomLeft => "ctrl+alt+j"@,
        LayoutAction::SnapBottomRight => "ctrl+alt+k"@,
        LayoutAction::Maximize => "ctrl+alt+enter"@,
        LayoutAction::Center => "ctrl+alt+c"@,
        LayoutAction::MoveToNextMonitor => "ctrl+alt+n"@,
        LayoutAction::MoveToPreviousMonitor => "ctrl+alt+p"@,
    }
}

impl HotkeyConfig {
    /// The binding configured for `a`.
    pub open spec fn binding_of(&self, a: LayoutAction) -> Option<String> {
        match a {
            LayoutAction::SnapLeftHalf => self.snap_left_half,
            LayoutAction::SnapRightHalf => self.snap_right_half,
            LayoutAction::SnapTopHalf => self.snap_top_half,
            LayoutAction::SnapBottomHalf => self.snap_bottom_half,
            LayoutAction::SnapLeftThird => self.snap_left_third,
            LayoutAction::SnapCenterThird => self.snap_center_third,
            LayoutAction::SnapRightThird => self.snap_right_third,
            LayoutAction::SnapLeftTwoThirds => self.snap_left_two_thirds,
            LayoutAction::SnapRightTwoThirds => self.snap_right_two_thirds,
            LayoutAction::SnapTopLeft => self.snap_top_left,
            LayoutAction::SnapTopRight => self.snap_top_right,
            LayoutAction::SnapBottomLeft => self.snap_bottom_left,
            LayoutAction::SnapBottomRight => self.snap_bottom_right,
            LayoutAction::Maximize => self.maximize,
            LayoutAction::Center => self.center,
            LayoutAction::MoveToNextMonitor => self.move_to_next_monitor,
            LayoutAction::MoveToPreviousMonitor => self.move_to_previous_monitor,
        }
    }

    /// The binding configured for `action`, if any.
    pub fn get(&self, action: LayoutAction) -> (r: &Option<String>)
        ensures
            *r == self.binding_of(action),
    {
        match action {
            LayoutAction::SnapLeftHalf => &self.snap_left_half,
            LayoutAction::SnapRightHalf => &self.snap_right_half,
            LayoutAction::SnapTopHalf => &self.snap_top_half,
            LayoutAction::SnapBottomHalf => &self.snap_bottom_half,
            LayoutAction::SnapLeftThird => &self.snap_left_third,
            LayoutAction::SnapCenterThird => &self.snap_center_third,
            LayoutAction::SnapRightThird => &self.snap_right_third,
            LayoutAction::SnapLeftTwoThirds => &self.snap_left_two_thirds,
            LayoutAction::SnapRightTwoThirds => &self.snap_right_two_thirds,
            LayoutAction::SnapTopLeft => &self.snap_top_left,
            LayoutAction::SnapTopRight => &self.snap_top_right,
            LayoutAction::SnapBottomLeft => &self.snap_bottom_left,
            LayoutAction::SnapBottomRight => &self.snap_bottom_right,
            LayoutAction::Maximize => &self.maximize,
            LayoutAction::Center => &self.center,
            LayoutAction::MoveToNextMonitor => &self.move_to_next_monitor,
            LayoutAction::MoveToPreviousMonitor => &self.move_to_previous_monitor,
        }
    }
}

fn owned(s: &str) -> (r: Option<String>)
    ensures
        opt_view(r) == Some(s@),
{
    Some(s.to_owned())
}

impl Default for HotkeyConfig {
    fn default() -> (r: Self)
        ensures
            forall|a: LayoutAction| #[trigger] opt_view(r.binding_of(a)) == Some(default_binding_of(a)),
    {
        let r = HotkeyConfig {
            snap_left_half: owned("ctrl+alt+left"),
            snap_right_half: owned("ctrl+alt+right"),
            snap_top_half: owned("ctrl+alt+up"),
            snap_bottom_half: owned("ctrl+alt+down"),
            snap_left_third: owned("ctrl+alt+d"),
            snap_center_third: owned("ctrl+alt+f"),
            snap_right_third: owned("ctrl+alt+g"),
            snap_left_two_thirds: owned("ctrl+alt+e"),
            snap_right_two_thirds: owned("ctrl+alt+t"),
            snap_top_left: owned("ctrl+alt+u"),
            snap_top_right: owned("ctrl+alt+i"),
            snap_bottom_left: owned("ctrl+alt+j"),
            snap_bottom_right: owned("ctrl+alt+k"),
            maximize: owned("ctrl+alt+enter"),
            center: owned("ctrl+alt+c"),
            move_to_next_monitor: owned("ctrl+alt+n"),
            move_to_previous_monitor: owned("ctrl+alt+p"),
        };
        assert forall|a: LayoutAction| #[trigger] opt_view(r.binding_of(a)) == Some(default_binding_of(a)) by {
            match a {
                LayoutAction::SnapLeftHalf => {},
                LayoutAction::SnapRightHalf => {},
                LayoutAction::SnapTopHalf => {},
                LayoutAction::SnapBottomHalf => {},
                LayoutAction::SnapLeftThird => {},
                LayoutAction::SnapCenterThird => {},
                LayoutAction::SnapRightThird => {},
                LayoutAction::SnapLeftTwoThirds => {},
                LayoutAction::SnapRightTwoThirds => {},
                LayoutAction::SnapTopLeft => {},
                LayoutAction::SnapTopRight => {},
                LayoutAction::SnapBottomLeft => {},
                LayoutAction::SnapBottomRight => {},
                LayoutAction::Maximize => {},
                LayoutAction::Center => {},
                LayoutAction::MoveToNextMonitor => {},
                LayoutAction::MoveToPreviousMonitor => {},
            }
        }
        r
    }
}

impl Default for GeneralConfig {
    fn default() -> (r: Self)
        ensures
            !r.launch_at_login,
    {
        GeneralConfig { launch_at_login: default_launch_at_login() }
    }
}

impl Default for AnimationConfig {
    fn default() -> (r: Self)
        ensures
            r.duration_ms == 100,
            r.easing@ == "ease-out-cubic"@,
    {
        AnimationConfig { duration_ms: default_duration(), easing: default_easing() }
    }
}

impl Default for Config {
    fn default() -> (r: Self)
        ensures
            !r.general.launch_at_login,
            forall|a: LayoutAction| #[trigger] opt_view(r.hotkeys.binding_of(a)) == Some(default_binding_of(a)),
            r.animation.duration_ms == 100,
            r.animation.easing@ == "ease-out-cubic"@,
    {
        Config {
            general: GeneralConfig::default(),
            hotkeys: HotkeyConfig::default(),
            animation: AnimationConfig::default(),
        }
    }
}

/// The value a configuration file that names no `launch_at_login` gets:
/// launch at login is opt-in, so it is off unless the file turns it on.
pub fn default_launch_at_login() -> (r: bool)
    ensures
        !r,
{
    false
}

/// The animation length a configuration file that names none gets.
pub fn default_duration() -> (r: u64)
    ensures
        r == 100,
{
    100
}

/// The easing a configuration file that names none gets.
pub fn default_easing() -> (r: String)
    ensures
        r@ == "ease-out-cubic"@,
{
    "ease-out-cubic".to_owned()
}

} // verus!
