//! The tray: its icon, a 32×32 rounded square in the theme blue, and what
//! each entry of its menu does.
use vstd::prelude::*;

verus! {

/// Width and height of the tray icon in pixels.
pub const ICON_SIDE: usize = 32;

/// Side of the transparent square cut from each corner.
pub const CORNER: usize = 6;

/// Whether pixel `(x, y)` lies in one of the four transparent corners.
pub open spec fn in_corner(x: int, y: int) -> bool {
    let left = x < 6;
    let right = x >= 32 - 6;
    let top = y < 6;
    let bottom = y >= 32 - 6;
    (left && top) || (right && top) || (left && bottom) || (right && bottom)
}

/// Channel `c` (red, green, blue, alpha) of an opaque pixel: the theme blue.
pub open spec fn theme_channel(c: int) -> u8 {
    if c == 0 {
        56
    } else if c == 1 {
        132
    } else {
        255
    }
}

/// Byte `b` of the icon, stored row by row, four bytes (RGBA) per pixel:
/// zero in the corners, the theme blue elsewhere.
pub open spec fn icon_byte(b: int) -> u8 {
    let p = b / 4;
    if in_corner(p % 32, p / 32) {
        0
    } else {
        theme_channel(b % 4)
    }
}

/// The tray icon as RGBA bytes, row by row.
pub fn tray_icon_rgba() -> (rgba: Vec<u8>)
    ensures
        rgba@.len() == 32 * 32 * 4,
        forall|b: int| 0 <= b < 32 * 32 * 4 ==> rgba@[b] == #[trigger] icon_byte(b),
{
    let mut rgba: Vec<u8> = Vec::new();
    let mut p: usize = 0;
    while p < ICON_SIDE * ICON_SIDE
        invariant
            0 <= p <= 1024,
            rgba@.len() == 4 * p,
            forall|b: int| 0 <= b < 4 * p ==> rgba@[b] == #[trigger] icon_byte(b),
        decreases 1024 - p,
    {
        let x = p % ICON_SIDE;
        let y = p / ICON_SIDE;
        let corner = x < CORNER && y < CORNER || x >= ICON_SIDE - CORNER && y < CORNER || x
            < CORNER && y >= ICON_SIDE - CORNER || x >= ICON_SIDE - CORNER && y >= ICON_SIDE
            - CORNER;
        let ghost start = 4 * p as int;
        if corner {
            rgba.push(0);
            rgba.push(0);
            rgba.push(0);
            rgba.push(0);
        } else {
            rgba.push(56);
            rgba.push(132);
            rgba.push(255);
            rgba.push(255);
        }
        proof {
            assert forall|b: int| 0 <= b < 4 * (p + 1) implies rgba@[b] == #[trigger] icon_byte(
                b,
            ) by {
                if b >= start {
                    let c = b - start;
                    assert((start + c) / 4 == p as int && (start + c) % 4 == c);
                }
            }
        }
        p = p + 1;
    }
    rgba
}

/// What choosing an entry of the tray menu does.
#[derive(Debug, Clone, Copy, PartialEq, Eq, Structural)]
pub enum TrayAction {
    /// Open (or bring forward) the settings window.
    OpenSettings,
    /// Show the toolbar for the text on the clipboard.
    ShowToolbar,
    /// Turn starting at login on or off.
    ToggleAutostart,
    /// Quit the application.
    Quit,
    /// An entry this menu does not know.
    Ignore,
}

/// The action of the menu entry with identifier `id`.
pub open spec fn tray_action_spec(id: Seq<char>) -> TrayAction {
    if id == "settings"@ {
        TrayAction::OpenSettings
    } else if id == "show"@ {
        TrayAction::ShowToolbar
    } else if id == "autostart"@ {
        TrayAction::ToggleAutostart
    } else if id == "quit"@ {
        TrayAction::Quit
    } else {
        TrayAction::Ignore
    }
}

/// The action of the menu entry with identifier `id`.
pub fn tray_menu_action(id: &str) -> (r: TrayAction)
    ensures
        r == tray_action_spec(id@),
{
    if crate::text::str_eq(id, "settings") {
        TrayAction::OpenSettings
    } else if crate::text::str_eq(id, "show") {
        TrayAction::ShowToolbar
    } else if crate::text::str_eq(id, "autostart") {
        TrayAction::ToggleAutostart
    } else if crate::text::str_eq(id, "quit") {
        TrayAction::Quit
    } else {
        TrayAction::Ignore
    }
}

} // verus!
