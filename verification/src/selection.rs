//! Selections and the dispatcher that turns selection events into toolbar
//! actions: blank, over-long and blacklisted selections are dropped, and the
//! toolbar appears only after the selection has been quiet for a while.
use vstd::prelude::*;

use crate::config::GeneralConfig;
use crate::position::PopupPosition;
use crate::text::{chars_of, contains, contains_exec, lowercase, to_lowercase, trim, trim_str};

verus! {

/// Selected text and its screen anchor.
#[derive(Debug, Clone)]
pub struct Selection {
    pub text: String,
    /// The end of the selection on screen, when known.
    pub anchor: Option<(i32, i32)>,
    /// Which channel reported it.
    pub source: SelectionSource,
}

/// The channel a selection came from.
#[derive(Debug, Clone, Copy, PartialEq, Eq, Structural)]
pub enum SelectionSource {
    /// macOS accessibility API.
    Ax,
    /// Windows UI Automation.
    Uia,
    /// Global shortcut reading the clipboard.
    Shortcut,
}

/// A change of the current selection.
#[derive(Debug)]
pub enum SelectionEvent {
    /// A selection is ready.
    Selected(Selection),
    /// The selection went away.
    Cleared,
}

/// A source of selection events.
pub trait SelectionProvider: Send + Sync {
    /// Reports selection changes as they happen.
    fn watch(&self, cb: impl Fn(SelectionEvent) + Send + 'static);

    /// The current selection, read on demand.
    fn current_selection(&self) -> Option<Selection>;
}

impl Selection {
    /// A copy of this selection.
    pub fn duplicate(&self) -> (r: Selection)
        ensures
            r == *self,
    {
        Selection { text: self.text.clone(), anchor: self.anchor, source: self.source }
    }
}

/// The selection read through the shortcut channel: the clipboard text,
/// trimmed, anchored at the mouse cursor; nothing when the clipboard holds
/// no text or only whitespace.
pub fn selection_from_clipboard_text(text: Option<String>, cursor: Option<(i32, i32)>) -> (r:
    Option<Selection>)
    ensures
        text matches Some(t) ==> (trim(t@).len() > 0 ==> (r matches Some(s) && s.text@ == trim(t@)
            && s.anchor == cursor && s.source == SelectionSource::Shortcut)),
        !(text matches Some(t) && trim(t@).len() > 0) ==> r is None,
{
    match text {
        Some(t) => {
            let trimmed = trim_str(t.as_str());
            if trimmed.is_empty() {
                None
            } else {
                Some(
                    Selection {
                        text: trimmed.to_string(),
                        anchor: cursor,
                        source: SelectionSource::Shortcut,
                    },
                )
            }
        },
        None => None,
    }
}

/// A selection read by a platform channel: the text as read (blank text is
/// no selection), with the anchor that channel found.
pub fn selection_from_text(text: String, anchor: Option<(i32, i32)>, source: SelectionSource) -> (r:
    Option<Selection>)
    ensures
        trim(text@).len() == 0 ==> r is None,
        trim(text@).len() > 0 ==> r == Some(Selection { text, anchor, source }),
{
    if trim_str(text.as_str()).is_empty() {
        None
    } else {
        Some(Selection { text, anchor, source })
    }
}

/// The centre of a caret rectangle, rounding toward zero as `i32` division
/// does; none for an empty rectangle.
pub fn caret_center(left: i32, top: i32, right: i32, bottom: i32) -> (r: Option<(i32, i32)>)
    requires
        crate::position::in_i32(left + right),
        crate::position::in_i32(top + bottom),
    ensures
        right <= left || bottom <= top ==> r is None,
        !(right <= left || bottom <= top) ==> r == Some(
            (
                crate::position::half(left + right) as i32,
                crate::position::half(top + bottom) as i32,
            ),
        ),
{
    if right <= left || bottom <= top {
        return None;
    }
    Some(((left + right) / 2, (top + bottom) / 2))
}

/// Whether selections are watched as they happen (`trigger_mode = "auto"`)
/// rather than only read on the shortcut.
pub fn auto_trigger(general: &GeneralConfig) -> (r: bool)
    ensures
        r == (general.trigger_mode@ == "auto"@),
{
    crate::text::str_eq(general.trigger_mode.as_str(), "auto")
}

/// Copied text that counts as a selection: anything but blank text.
pub fn nonblank_text(copied: Option<String>) -> (r: Option<String>)
    ensures
        copied matches Some(t) ==> (trim(t@).len() > 0 ==> r == copied),
        !(copied matches Some(t) && trim(t@).len() > 0) ==> r is None,
{
    match copied {
        Some(t) => {
            if trim_str(t.as_str()).is_empty() {
                None
            } else {
                Some(t)
            }
        },
        None => None,
    }
}

/// The popup side a `popup_position` setting asks for: `top-right`, or
/// below for any other value.
pub open spec fn popup_pref_spec(setting: Seq<char>) -> PopupPosition {
    if setting == "top-right"@ {
        PopupPosition::TopRight
    } else {
        PopupPosition::Below
    }
}

/// The popup side a `popup_position` setting asks for.
pub fn popup_pref(setting: &str) -> (r: PopupPosition)
    ensures
        r == popup_pref_spec(setting@),
{
    if crate::text::str_eq(setting, "top-right") {
        PopupPosition::TopRight
    } else {
        PopupPosition::Below
    }
}

/// How long a selection must stay unchanged before the toolbar appears.
pub const DEBOUNCE_MS: u64 = 220;

/// The foreground application matches a blacklist entry: its name contains
/// the entry, ignoring case.
pub open spec fn blacklisted(app: Seq<char>, blacklist: Seq<String>) -> bool {
    exists|i: int| 0 <= i < blacklist.len() && contains(lowercase(app), lowercase(#[trigger] blacklist[i]@))
}

/// A selection the toolbar may show: not blank, at most `max_chars`
/// characters once trimmed, and not made in a blacklisted application.
pub open spec fn accepted(
    text: Seq<char>,
    frontmost_app: Option<Seq<char>>,
    general: GeneralConfig,
) -> bool {
    &&& trim(text).len() > 0
    &&& trim(text).len() <= general.max_selection_chars
    &&& !(frontmost_app matches Some(app) && blacklisted(app, general.blacklist_apps@))
}

/// The text passes the blank and length filters.
pub open spec fn text_accepted(text: Seq<char>, general: GeneralConfig) -> bool {
    trim(text).len() > 0 && trim(text).len() <= general.max_selection_chars
}

/// Some entry occurs in the application name, both already lowercased.
pub open spec fn any_entry_in(app_lower: Seq<char>, entries_lower: Seq<String>) -> bool {
    exists|i: int| 0 <= i < entries_lower.len() && contains(app_lower, #[trigger] entries_lower[i]@)
}

/// Whether some (lowercased) blacklist entry occurs in the (lowercased)
/// application name.
pub fn matches_any_entry(app_lower: &str, entries_lower: &Vec<String>) -> (r: bool)
    ensures
        r == any_entry_in(app_lower@, entries_lower@),
{
    let app_chars = chars_of(app_lower);
    let mut i: usize = 0;
    while i < entries_lower.len()
        invariant
            app_chars@ == app_lower@,
            0 <= i <= entries_lower@.len(),
            forall|j: int| 0 <= j < i ==> !contains(app_lower@, #[trigger] entries_lower@[j]@),
        decreases entries_lower@.len() - i,
    {
        let entry_chars = chars_of(entries_lower[i].as_str());
        if contains_exec(&app_chars, &entry_chars) {
            return true;
        }
        i = i + 1;
    }
    false
}

/// Whether the foreground application `app` is blacklisted.
pub fn is_blacklisted(app: &str, blacklist: &Vec<String>) -> (r: bool)
    ensures
        r == blacklisted(app@, blacklist@),
{
    let app_lower = to_lowercase(app);
    let mut entries_lower: Vec<String> = Vec::new();
    let mut i: usize = 0;
    while i < blacklist.len()
        invariant
            0 <= i <= blacklist@.len(),
            entries_lower@.len() == i,
            forall|j: int| 0 <= j < i ==> #[trigger] entries_lower@[j]@ == lowercase(blacklist@[j]@),
        decreases blacklist@.len() - i,
    {
        entries_lower.push(to_lowercase(blacklist[i].as_str()));
        i = i + 1;
    }
    let r = matches_any_entry(app_lower.as_str(), &entries_lower);
    proof {
        if r {
            let k = choose|k: int|
                0 <= k < entries_lower@.len() && contains(app_lower@, #[trigger] entries_lower@[k]@);
            assert(contains(lowercase(app@), lowercase(blacklist@[k]@)));
        } else {
            assert forall|k: int| 0 <= k < blacklist@.len() implies !contains(
                lowercase(app@),
                lowercase(#[trigger] blacklist@[k]@),
            ) by {
                assert(entries_lower@[k]@ == lowercase(blacklist@[k]@));
            }
        }
    }
    r
}

/// What the dispatcher asks the window layer to do.
#[derive(Debug)]
pub enum DispatchAction {
    /// Nothing to do.
    Wait,
    /// Remember `selection` as the last one and show the toolbar at its
    /// anchor on the `pref` side.
    ShowToolbar { selection: Selection, pref: PopupPosition },
    /// Forget the last selection and hide the toolbar.
    HideToolbar,
}

/// An input of the dispatcher.
#[derive(Debug)]
pub enum DispatchInput {
    /// A selection arrived at `now_ms` while `frontmost_app` was in front.
    Selected { selection: Selection, frontmost_app: Option<String>, now_ms: u64 },
    /// The selection went away.
    Cleared,
    /// No event arrived for a while; the clock reads `now_ms`.
    Tick { now_ms: u64 },
}

/// The debouncing dispatcher: the latest accepted selection and when it
/// arrived.
#[derive(Debug)]
pub struct Dispatcher {
    pub pending: Option<Selection>,
    pub last_change_ms: Option<u64>,
}

/// The selection waiting to be shown passes the filters.
pub open spec fn dispatcher_wf(d: Dispatcher, general: GeneralConfig) -> bool {
    d.pending matches Some(s) ==> text_accepted(s.text@, general)
}

/// The quiet period has passed since the last change.
pub open spec fn quiet(last_change_ms: Option<u64>, now_ms: u64) -> bool {
    last_change_ms matches Some(t) && now_ms >= t && now_ms - t >= DEBOUNCE_MS
}

/// The dispatcher's next state and action: an accepted selection becomes
/// the pending one, stamped with its arrival time, and anything else it
/// receives is dropped; a clearing forgets it and hides the toolbar; a tick
/// after the quiet period shows the pending selection, if any.
pub open spec fn dispatch_spec(d: Dispatcher, input: DispatchInput, general: GeneralConfig) -> (
    Dispatcher,
    DispatchAction,
) {
    match input {
        DispatchInput::Selected { selection, frontmost_app, now_ms } => if accepted(
            selection.text@,
            opt_str_view(frontmost_app),
            general,
        ) {
            (Dispatcher { pending: Some(selection), last_change_ms: Some(now_ms) }, DispatchAction::Wait)
        } else {
            (d, DispatchAction::Wait)
        },
        DispatchInput::Cleared => (
            Dispatcher { pending: None, last_change_ms: None },
            DispatchAction::HideToolbar,
        ),
        DispatchInput::Tick { now_ms } => if quiet(d.last_change_ms, now_ms) {
            (
                Dispatcher { pending: None, last_change_ms: None },
                match d.pending {
                    Some(s) => DispatchAction::ShowToolbar {
                        selection: s,
                        pref: popup_pref_spec(general.popup_position@),
                    },
                    None => DispatchAction::Wait,
                },
            )
        } else {
            (d, DispatchAction::Wait)
        },
    }
}

/// The toolbar only ever shows a selection that passed the filters, and
/// only once the quiet period after its arrival has passed.
pub proof fn law_toolbar_shows_only_quiet_accepted(
    d: Dispatcher,
    input: DispatchInput,
    general: GeneralConfig,
)
    requires
        dispatcher_wf(d, general),
    ensures
        dispatch_spec(d, input, general).1 matches DispatchAction::ShowToolbar { selection, pref }
            ==> (input matches DispatchInput::Tick { now_ms } && quiet(d.last_change_ms, now_ms)
            && text_accepted(selection.text@, general) && d.pending == Some(selection)),
        dispatcher_wf(dispatch_spec(d, input, general).0, general),
{
}

/// A selection that arrives while the application in front is
/// blacklisted (its lowercased name contains the lowercased text of some
/// entry), or whose trimmed text is empty or longer than the limit, is
/// dropped: the dispatcher stays as it was and does nothing. Any other
/// selection becomes the pending one, stamped with its arrival time.
pub proof fn law_selection_filters(
    d: Dispatcher,
    selection: Selection,
    frontmost_app: Option<String>,
    now_ms: u64,
    general: GeneralConfig,
)
    ensures
        ({
            let out = dispatch_spec(
                d,
                DispatchInput::Selected { selection, frontmost_app, now_ms },
                general,
            );
            let in_blacklisted_app = frontmost_app matches Some(app) && exists|i: int|
                0 <= i < general.blacklist_apps@.len() && contains(
                    lowercase(app@),
                    lowercase(#[trigger] general.blacklist_apps@[i]@),
                );
            let n = trim(selection.text@).len();
            &&& out.1 is Wait
            &&& (in_blacklisted_app || n == 0 || n > general.max_selection_chars) ==> out.0 == d
            &&& !(in_blacklisted_app || n == 0 || n > general.max_selection_chars) ==> out.0
                == Dispatcher { pending: Some(selection), last_change_ms: Some(now_ms) }
        }),
{
}

/// Once the selection is cleared, no tick shows the toolbar until a new
/// selection arrives.
pub proof fn law_cleared_selection_never_shown(d: Dispatcher, now_ms: u64, general: GeneralConfig)
    ensures
        dispatch_spec(
            dispatch_spec(d, DispatchInput::Cleared, general).0,
            DispatchInput::Tick { now_ms },
            general,
        ).1 is Wait,
{
}

/// A selection is shown once: after the toolbar appeared, later ticks
/// leave it alone until a new selection arrives.
pub proof fn law_shown_once(d: Dispatcher, t1: u64, t2: u64, general: GeneralConfig)
    ensures
        dispatch_spec(d, DispatchInput::Tick { now_ms: t1 }, general).1 is ShowToolbar
            ==> dispatch_spec(
            dispatch_spec(d, DispatchInput::Tick { now_ms: t1 }, general).0,
            DispatchInput::Tick { now_ms: t2 },
            general,
        ).1 is Wait,
{
}

impl Dispatcher {
    /// Nothing pending.
    pub fn new() -> (r: Dispatcher)
        ensures
            r.pending is None,
            r.last_change_ms is None,
    {
        Dispatcher { pending: None, last_change_ms: None }
    }

    /// Handles one input and returns the action it calls for.
    pub fn step(&mut self, input: DispatchInput, general: &GeneralConfig) -> (r: DispatchAction)
        ensures
            dispatcher_wf(*old(self), *general) ==> dispatcher_wf(*final(self), *general),
            *final(self) == dispatch_spec(*old(self), input, *general).0,
            r == dispatch_spec(*old(self), input, *general).1,
    {
        match input {
            DispatchInput::Selected { selection, frontmost_app, now_ms } => {
                let trimmed = trim_str(selection.text.as_str());
                if trimmed.is_empty() || trimmed.unicode_len() > general.max_selection_chars {
                    return DispatchAction::Wait;
                }
                if let Some(app) = &frontmost_app {
                    if is_blacklisted(app.as_str(), &general.blacklist_apps) {
                        return DispatchAction::Wait;
                    }
                }
                self.pending = Some(selection);
                self.last_change_ms = Some(now_ms);
                DispatchAction::Wait
            },
            DispatchInput::Cleared => {
                self.pending = None;
                self.last_change_ms = None;
                DispatchAction::HideToolbar
            },
            DispatchInput::Tick { now_ms } => {
                let is_quiet = match self.last_change_ms {
                    Some(t) => now_ms >= t && now_ms - t >= DEBOUNCE_MS,
                    None => false,
                };
                if !is_quiet {
                    return DispatchAction::Wait;
                }
                self.last_change_ms = None;
                match self.pending.take() {
                    Some(selection) => {
                        let pref = popup_pref(general.popup_position.as_str());
                        DispatchAction::ShowToolbar { selection, pref }
                    },
                    None => DispatchAction::Wait,
                }
            },
        }
    }
}

/// The view of an optional string.
pub open spec fn opt_str_view(o: Option<String>) -> Option<Seq<char>> {
    match o {
        Some(s) => Some(s@),
        None => None,
    }
}

} // verus!
