//! The actions a hotkey can trigger.

use vstd::prelude::*;

verus! {

/// Layout actions that can be triggered by hotkeys.
#[derive(Debug, Clone, Copy, PartialEq, Eq, Hash, Structural)]
pub enum LayoutAction {
    // Halves
    SnapLeftHalf,
    SnapRightHalf,
    SnapTopHalf,
    SnapBottomHalf,

    // Thirds
    SnapLeftThird,
    SnapCenterThird,
    SnapRightThird,
    SnapLeftTwoThirds,
    SnapRightTwoThirds,

    // Quarters (corners)
    SnapTopLeft,
    SnapTopRight,
    SnapBottomLeft,
    SnapBottomRight,

    // Special actions
    Maximize,
    Center,

    // Multi-monitor
    MoveToNextMonitor,
    MoveToPreviousMonitor,
}

/// Every action, in the order the configuration file and the cheat sheet
/// list them.
pub open spec fn all_actions() -> Seq<LayoutAction> {
    seq![
        LayoutAction::SnapLeftHalf,
        LayoutAction::SnapRightHalf,
        LayoutAction::SnapTopHalf,
        LayoutAction::SnapBottomHalf,
        LayoutAction::SnapLeftThird,
        LayoutAction::SnapCenterThird,
        LayoutAction::SnapRightThird,
        LayoutAction::SnapLeftTwoThirds,
        LayoutAction::SnapRightTwoThirds,
        LayoutAction::SnapTopLeft,
        LayoutAction::SnapTopRight,
        LayoutAction::SnapBottomLeft,
        LayoutAction::SnapBottomRight,
        LayoutAction::Maximize,
        LayoutAction::Center,
        LayoutAction::MoveToNextMonitor,
        LayoutAction::MoveToPreviousMonitor,
    ]
}

/// The position of `a` in `all_actions()`.
pub open spec fn action_index(a: LayoutAction) -> int {
    match a {
        LayoutAction::SnapLeftHalf => 0,
        LayoutAction::SnapRightHalf => 1,
        LayoutAction::SnapTopHalf => 2,
        LayoutAction::SnapBottomHalf => 3,
        LayoutAction::SnapLeftThird => 4,
        LayoutAction::SnapCenterThird => 5,
        LayoutAction::SnapRightThird => 6,
        LayoutAction::SnapLeftTwoThirds => 7,
        LayoutAction::SnapRightTwoThirds => 8,
        LayoutAction::SnapTopLeft => 9,
        LayoutAction::SnapTopRight => 10,
        LayoutAction::SnapBottomLeft => 11,
        LayoutAction::SnapBottomRight => 12,
        LayoutAction::Maximize => 13,
        LayoutAction::Center => 14,
        LayoutAction::MoveToNextMonitor => 15,
        LayoutAction::MoveToPreviousMonitor => 16,
    }
}

/// The key that names `a` in the `[hotkeys]` table of the configuration.
pub open spec fn config_key_of(a: LayoutAction) -> Seq<char> {
    match a {
        LayoutAction::SnapLeftHalf => "snap_left_half"@,
        LayoutAction::SnapRightHalf => "snap_right_half"@,
        LayoutAction::SnapTopHalf => "snap_top_half"@,
        LayoutAction::SnapBottomHalf => "snap_bottom_half"@,
        LayoutAction::SnapLeftThird => "snap_left_third"@,
        LayoutAction::SnapCenterThird => "snap_center_third"@,
        LayoutAction::SnapRightThird => "snap_right_third"@,
        LayoutAction::SnapLeftTwoThirds => "snap_left_two_thirds"@,
        LayoutAction::SnapRightTwoThirds => "snap_right_two_thirds"@,
        LayoutAction::SnapTopLeft => "snap_top_left"@,
        LayoutAction::SnapTopRight => "snap_top_right"@,
        LayoutAction::SnapBottomLeft => "snap_bottom_left"@,
        LayoutAction::SnapBottomRight => "snap_bottom_right"@,
        LayoutAction::Maximize => "maximize"@,
        LayoutAction::Center => "center"@,
        LayoutAction::MoveToNextMonitor => "move_to_next_monitor"@,
        LayoutAction::MoveToPreviousMonitor => "move_to_previous_monitor"@,
    }
}

/// Every action occurs in `all_actions()`, exactly once, at `action_index`.
pub proof fn lemma_all_actions_enumerates(a: LayoutAction)
    ensures
        all_actions().len() == 17,
        0 <= action_index(a) < 17,
        all_actions()[action_index(a)] == a,
        forall|i: int| 0 <= i < 17 && all_actions()[i] == a ==> i == action_index(a),
{
}

/// Each action has its own configuration key.
pub proof fn lemma_config_keys_distinct(a: LayoutAction, b: LayoutAction)
    requires
        a != b,
    ensures
        config_key_of(a) != config_key_of(b),
{
    reveal_strlit("snap_left_half");
    reveal_strlit("snap_right_half");
    reveal_strlit("snap_top_half");
    reveal_strlit("snap_bottom_half");
    reveal_strlit("snap_left_third");
    reveal_strlit("snap_center_third");
    reveal_strlit("snap_right_third");
    reveal_strlit("snap_left_two_thirds");
    reveal_strlit("snap_right_two_thirds");
    reveal_strlit("snap_top_left");
    reveal_strlit("snap_top_right");
    reveal_strlit("snap_bottom_left");
    reveal_strlit("snap_bottom_right");
    reveal_strlit("maximize");
    reveal_strlit("center");
    reveal_strlit("move_to_next_monitor");
    reveal_strlit("move_to_previous_monitor");
    // Keys of equal length differ at one of these positions.
    if config_key_of(a) == config_key_of(b) {
        let x = config_key_of(a);
        assert(x.len() == config_key_of(b).len());
        assert(x[0] == config_key_of(b)[0]);
        assert(x[5] == config_key_of(b)[5]);
        assert(x[x.len() - 2] == config_key_of(b)[x.len() - 2]);
        assert(x[x.len() - 4] == config_key_of(b)[x.len() - 4]);
        assert(x[9] == config_key_of(b)[9]);
    }
}

impl LayoutAction {
    /// Returns all available layout actions.
    pub fn all() -> (r: Vec<LayoutAction>)
        ensures
            r@ == all_actions(),
    {
        let mut v: Vec<LayoutAction> = Vec::new();
        v.push(LayoutAction::SnapLeftHalf);
        v.push(LayoutAction::SnapRightHalf);
        v.push(LayoutAction::SnapTopHalf);
        v.push(LayoutAction::SnapBottomHalf);
        v.push(LayoutAction::SnapLeftThird);
        v.push(LayoutAction::SnapCenterThird);
        v.push(LayoutAction::SnapRightThird);
        v.push(LayoutAction::SnapLeftTwoThirds);
        v.push(LayoutAction::SnapRightTwoThirds);
        v.push(LayoutAction::SnapTopLeft);
        v.push(LayoutAction::SnapTopRight);
        v.push(LayoutAction::SnapBottomLeft);
        v.push(LayoutAction::SnapBottomRight);
        v.push(LayoutAction::Maximize);
        v.push(LayoutAction::Center);
        v.push(LayoutAction::MoveToNextMonitor);
        v.push(LayoutAction::MoveToPreviousMonitor);
        assert(v@ =~= all_actions());
        v
    }

    /// Get the config key name for this action.
    pub fn config_key(&self) -> (r: &'static str)
        ensures
            r@ == config_key_of(*self),
    {
        match self {
            LayoutAction::SnapLeftHalf => "snap_left_half",
            LayoutAction::SnapRightHalf => "snap_right_half",
            LayoutAction::SnapTopHalf => "snap_top_half",
            LayoutAction::SnapBottomHalf => "snap_bottom_half",
            LayoutAction::SnapLeftThird => "snap_left_third",
            LayoutAction::SnapCenterThird => "snap_center_third",
            LayoutAction::SnapRightThird => "snap_right_third",
            LayoutAction::SnapLeftTwoThirds => "snap_left_two_thirds",
            LayoutAction::SnapRightTwoThirds => "snap_right_two_thirds",
            LayoutAction::SnapTopLeft => "snap_top_left",
            LayoutAction::SnapTopRight => "snap_top_right",
            LayoutAction::SnapBottomLeft => "snap_bottom_left",
            LayoutAction::SnapBottomRight => "snap_bottom_right",
            LayoutAction::Maximize => "maximize",
            LayoutAction::Center => "center",
            LayoutAction::MoveToNextMonitor => "move_to_next_monitor",
            LayoutAction::MoveToPreviousMonitor => "move_to_previous_monitor",
        }
    }
}

} // verus!
