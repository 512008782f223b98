//! The configuration file written on first run.

use vstd::prelude::*;

verus! {

/// Default configuration values as a TOML document.
pub const DEFAULT_CONFIG_TOML: &'static str = "\n\
    [general]\n\
    launch_at_login = false\n\
    \n\
    [hotkeys]\n\
    # Halves - use arrow keys\n\
    snap_left_half = \"ctrl+alt+left\"\n\
    snap_right_half = \"ctrl+alt+right\"\n\
    snap_top_half = \"ctrl+alt+up\"\n\
    snap_bottom_half = \"ctrl+alt+down\"\n\
    \n\
    # Thirds\n\
    snap_left_third = \"ctrl+alt+d\"\n\
    snap_center_third = \"ctrl+alt+f\"\n\
    snap_right_third = \"ctrl+alt+g\"\n\
    snap_left_two_thirds = \"ctrl+alt+e\"\n\
    snap_right_two_thirds = \"ctrl+alt+t\"\n\
    \n\
    # Quarters (corners)\n\
    snap_top_left = \"ctrl+alt+u\"\n\
    snap_top_right = \"ctrl+alt+i\"\n\
    snap_bottom_left = \"ctrl+alt+j\"\n\
    snap_bottom_right = \"ctrl+alt+k\"\n\
    \n\
    # Special actions\n\
    maximize = \"ctrl+alt+enter\"\n\
    center = \"ctrl+alt+c\"\n\
    \n\
    # Multi-monitor\n\
    move_to_next_monitor = \"ctrl+alt+n\"\n\
    move_to_previous_monitor = \"ctrl+alt+p\"\n\
    \n\
    [animation]\n\
    duration_ms = 100\n\
    easing = \"ease-out-cubic\"\n\
    ";

} // verus!
