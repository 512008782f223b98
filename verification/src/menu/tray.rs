//! The menu bar item: its menu actions and its template glyph.

use vstd::prelude::*;
use crate::text::str_eq;

verus! {

/// Actions that can be triggered from the menu.
#[derive(Debug, Clone, Copy, PartialEq, Eq, Structural)]
pub enum MenuAction {
    Settings,
    AccessibilitySettings,
    LaunchAtLogin,
    About,
    Quit,
    Unknown,
}

/// The ids of the menu items that trigger actions.
#[derive(Debug, Clone)]
pub struct MenuIds {
    pub settings: String,
    pub accessibility: String,
    pub launch_at_login: String,
    pub about: String,
    pub quit: String,
}

/// The action a menu event with id `id` stands for: the first item whose id
/// matches, or `Unknown` (also before the menu exists).
pub open spec fn action_for_id(ids: Option<MenuIds>, id: Seq<char>) -> MenuAction {
    match ids {
        None => MenuAction::Unknown,
        Some(ids) => if id == ids.settings@ {
            MenuAction::Settings
        } else if id == ids.accessibility@ {
            MenuAction::AccessibilitySettings
        } else if id == ids.launch_at_login@ {
            MenuAction::LaunchAtLogin
        } else if id == ids.about@ {
            MenuAction::About
        } else if id == ids.quit@ {
            MenuAction::Quit
        } else {
            MenuAction::Unknown
        },
    }
}

/// Convert a menu event (by its item id) to a `MenuAction`.
pub fn event_to_action(ids: Option<&MenuIds>, event_id: &str) -> (r: MenuAction)
    ensures
        r == action_for_id(
            match ids {
                Some(i) => Some(*i),
                None => None,
            },
            event_id@,
        ),
{
    let ids = match ids {
        Some(ids) => ids,
        None => {
            return MenuAction::Unknown;
        },
    };
    if str_eq(event_id, ids.settings.as_str()) {
        MenuAction::Settings
    } else if str_eq(event_id, ids.accessibility.as_str()) {
        MenuAction::AccessibilitySettings
    } else if str_eq(event_id, ids.launch_at_login.as_str()) {
        MenuAction::LaunchAtLogin
    } else if str_eq(event_id, ids.about.as_str()) {
        MenuAction::About
    } else if str_eq(event_id, ids.quit.as_str()) {
        MenuAction::Quit
    } else {
        MenuAction::Unknown
    }
}

/// Side of the square glyph, in pixels (2x for Retina).
pub const ICON_SIZE: usize = 36;

/// Padding around the glyph inside the square.
pub const ICON_INSET: usize = 4;

/// Border and divider thickness.
pub const ICON_STROKE: usize = 3;

/// Whether the glyph's pixel at column `x`, row `y` is drawn: the outline of
/// a rounded window (its four corner pixels left out) split into a left pane
/// and, on the right, an upper and a lower pane.
pub open spec fn icon_pixel_on(x: int, y: int) -> bool {
    let left = 4int;
    let right = 31int;
    let top = 5int;
    let bottom = 30int;
    let split_x = 18int;
    let split_y = 17int;
    let corner = (x <= left && (y <= top || y >= bottom)) || (x >= right && (y <= top || y
        >= bottom));
    let on_border = x < left + 3 || x > right - 3 || y < top + 3 || y > bottom - 3;
    let on_divider = (x >= split_x && x < split_x + 3) || (x > split_x && y >= split_y && y
        < split_y + 3);
    &&& top <= y <= bottom
    &&& left <= x <= right
    &&& !corner
    &&& on_border || on_divider
}

/// The byte at channel `c` of the pixel at column `x`, row `y`: black
/// throughout, opaque exactly where the glyph is drawn.
pub open spec fn icon_byte(x: int, y: int, c: int) -> u8 {
    if c == 3 && icon_pixel_on(x, y) {
        255
    } else {
        0
    }
}

/// The menu bar glyph as RGBA rows, 36 by 36 pixels: the same three-pane
/// layout as the app icon, as a template image (only alpha matters).
pub fn default_icon_rgba() -> (rgba: Vec<u8>)
    ensures
        rgba.len() == 36 * 36 * 4,
        forall|x: int, y: int, c: int|
            0 <= x < 36 && 0 <= y < 36 && 0 <= c < 4 ==> #[trigger] rgba@[(y * 36 + x) * 4 + c]
                == icon_byte(x, y, c),
{
    let mut rgba: Vec<u8> = vec![0u8; ICON_SIZE * ICON_SIZE * 4];
    let left = ICON_INSET;
    let right = ICON_SIZE - ICON_INSET - 1;
    let top = ICON_INSET + 1;
    let bottom = ICON_SIZE - ICON_INSET - 2;
    let split_x = left + (right - left) * 52 / 100;
    let split_y = top + (bottom - top) / 2;
    assert(split_x == 18 && split_y == 17);
    let mut y = top;
    while y <= bottom
        invariant
            rgba.len() == 36 * 36 * 4,
            left == 4 && right == 31 && top == 5 && bottom == 30 && split_x == 18 && split_y == 17,
            top <= y <= bottom + 1,
            forall|i: int| 0 <= i < 36 * 36 * 4 && i % 4 != 3 ==> #[trigger] rgba@[i] == 0,
            forall|px: int, py: int|
                0 <= px < 36 && 0 <= py < 36 ==> #[trigger] rgba@[(py * 36 + px) * 4 + 3] == (if py
                    < y && icon_pixel_on(px, py) {
                    255u8
                } else {
                    0u8
                }),
        decreases bottom + 1 - y,
    {
        let mut x = left;
        while x <= right
            invariant
                rgba.len() == 36 * 36 * 4,
                left == 4 && right == 31 && top == 5 && bottom == 30 && split_x == 18 && split_y
                    == 17,
                top <= y <= bottom,
                left <= x <= right + 1,
                forall|i: int| 0 <= i < 36 * 36 * 4 && i % 4 != 3 ==> #[trigger] rgba@[i] == 0,
                forall|px: int, py: int|
                    0 <= px < 36 && 0 <= py < 36 ==> #[trigger] rgba@[(py * 36 + px) * 4 + 3] == (
                    if (py < y || (py == y && px < x)) && icon_pixel_on(px, py) {
                        255u8
                    } else {
                        0u8
                    }),
            decreases right + 1 - x,
        {
            let corner = (x <= left && (y <= top || y >= bottom)) || (x >= right && (y <= top || y
                >= bottom));
            if !corner {
                let on_border = x < left + ICON_STROKE || x > right - ICON_STROKE || y < top
                    + ICON_STROKE || y > bottom - ICON_STROKE;
                let on_divider = (x >= split_x && x < split_x + ICON_STROKE) || (x > split_x && y
                    >= split_y && y < split_y + ICON_STROKE);
                if on_border || on_divider {
                    let idx = (y * ICON_SIZE + x) * 4;
                    rgba.set(idx + 3, 255);
                }
            }
            assert forall|px: int, py: int|
                0 <= px < 36 && 0 <= py < 36 implies #[trigger] rgba@[(py * 36 + px) * 4 + 3] == (
                if (py < y || (py == y && px < x + 1)) && icon_pixel_on(px, py) {
                    255u8
                } else {
                    0u8
                }) by {
                assert(((py * 36 + px) * 4 + 3) % 4 == 3);
            }
            assert forall|i: int| 0 <= i < 36 * 36 * 4 && i % 4 != 3 implies #[trigger] rgba@[i]
                == 0 by {}
            x = x + 1;
        }
        y = y + 1;
    }
    assert forall|x: int, y: int, c: int|
        0 <= x < 36 && 0 <= y < 36 && 0 <= c < 4 implies #[trigger] rgba@[(y * 36 + x) * 4 + c]
            == icon_byte(x, y, c) by {
        if c != 3 {
            assert(((y * 36 + x) * 4 + c) % 4 == c);
        }
    }
    rgba
}

} // verus!
