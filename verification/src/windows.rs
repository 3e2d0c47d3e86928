//! The three kinds of window: the toolbar that follows the selection, the
//! chat panel, and the settings window; how each is built and shown.
use vstd::prelude::*;

verus! {

/// The kinds of window the application opens.
#[derive(Debug, Clone, Copy, PartialEq, Eq, Structural)]
pub enum WindowKind {
    /// Follows the selection, never takes the focus, sized to its content.
    Toolbar,
    /// Focusable and draggable; stays on top while pinned.
    Panel,
    /// An ordinary focused window.
    Settings,
}

/// How a window of one kind is built. A field that is `None` is left at
/// the window system's default. Sizes are logical pixels.
#[derive(Debug, Clone, Copy, PartialEq, Eq, Structural)]
pub struct WindowRecipe {
    pub decorations: bool,
    pub transparent: Option<bool>,
    pub skip_taskbar: Option<bool>,
    pub focused: Option<bool>,
    pub resizable: Option<bool>,
    pub shadow: Option<bool>,
    pub width: u32,
    pub height: u32,
}

/// The recipe for each kind: the toolbar is an undecorated, transparent,
/// unfocused, fixed 280×44 strip without shadow; the panel an undecorated,
/// transparent, focused, resizable 420×540 window; settings a decorated
/// 760×600 window. Toolbar and panel stay off the taskbar.
pub open spec fn recipe_spec(kind: WindowKind) -> WindowRecipe {
    match kind {
        WindowKind::Toolbar => WindowRecipe {
            decorations: false,
            transparent: Some(true),
            skip_taskbar: Some(true),
            focused: Some(false),
            resizable: Some(false),
            shadow: Some(false),
            width: 280,
            height: 44,
        },
        WindowKind::Panel => WindowRecipe {
            decorations: false,
            transparent: Some(true),
            skip_taskbar: Some(true),
            focused: Some(true),
            resizable: Some(true),
            shadow: None,
            width: 420,
            height: 540,
        },
        WindowKind::Settings => WindowRecipe {
            decorations: true,
            transparent: None,
            skip_taskbar: None,
            focused: None,
            resizable: None,
            shadow: None,
            width: 760,
            height: 600,
        },
    }
}

/// How a window of `kind` is built.
pub fn window_recipe(kind: WindowKind) -> (r: WindowRecipe)
    ensures
        r == recipe_spec(kind),
{
    match kind {
        WindowKind::Toolbar => WindowRecipe {
            decorations: false,
            transparent: Some(true),
            skip_taskbar: Some(true),
            focused: Some(false),
            resizable: Some(false),
            shadow: Some(false),
            width: 280,
            height: 44,
        },
        WindowKind::Panel => WindowRecipe {
            decorations: false,
            transparent: Some(true),
            skip_taskbar: Some(true),
            focused: Some(true),
            resizable: Some(true),
            shadow: None,
            width: 420,
            height: 540,
        },
        WindowKind::Settings => WindowRecipe {
            decorations: true,
            transparent: None,
            skip_taskbar: None,
            focused: None,
            resizable: None,
            shadow: None,
            width: 760,
            height: 600,
        },
    }
}

/// Whether showing a window of `kind` also gives it the focus: only the
/// settings window is focused, so that opening it again brings the one
/// instance forward.
pub fn focus_on_show(kind: WindowKind) -> (r: bool)
    ensures
        r == (kind == WindowKind::Settings),
{
    match kind {
        WindowKind::Settings => true,
        _ => false,
    }
}

/// The label of the single window of `kind` and the page it loads.
pub fn window_target(kind: WindowKind) -> (r: (&'static str, &'static str))
    ensures
        kind == WindowKind::Toolbar ==> r.0@ == "toolbar"@ && r.1@ == "toolbar.html"@,
        kind == WindowKind::Panel ==> r.0@ == "panel"@ && r.1@ == "panel.html"@,
        kind == WindowKind::Settings ==> r.0@ == "settings"@ && r.1@ == "settings.html"@,
{
    match kind {
        WindowKind::Toolbar => ("toolbar", "toolbar.html"),
        WindowKind::Panel => ("panel", "panel.html"),
        WindowKind::Settings => ("settings", "settings.html"),
    }
}

} // verus!
