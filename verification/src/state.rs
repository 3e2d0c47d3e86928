//! The application state shared by the commands: the configuration, the
//! last selection shown in the toolbar and the context handed to the panel.
use vstd::prelude::*;

use crate::config::AppConfig;
use crate::llm::Scenario;
use crate::position::PopupPosition;
use crate::selection::{popup_pref, popup_pref_spec, Selection};

verus! {

/// What a panel opens with: the selection and what to do with it.
#[derive(Debug, Clone)]
pub struct PanelContext {
    pub selection: Selection,
    pub scenario: Scenario,
}

/// The state the commands read and write.
#[derive(Debug)]
pub struct AppState {
    pub config: AppConfig,
    /// The selection the toolbar was last shown for.
    pub last_selection: Option<Selection>,
    /// The context waiting for the panel to pick it up.
    pub pending_panel: Option<PanelContext>,
}

/// What a toolbar button asks the window layer to do.
#[derive(Debug, Clone, Copy)]
pub enum ToolbarOutcome {
    /// Show the panel next to `anchor` on the `pref` side.
    ShowPanel { anchor: Option<(i32, i32)>, pref: PopupPosition },
    /// Open the settings window.
    OpenSettings,
    /// Nothing to do.
    Ignore,
}

/// The scenario a toolbar button starts, if it starts one.
pub open spec fn button_scenario(action: Seq<char>) -> Option<Scenario> {
    if action == "translate"@ {
        Some(Scenario::Translate)
    } else if action == "explain"@ {
        Some(Scenario::Explain)
    } else {
        None
    }
}

/// The state after a toolbar button is pressed: a scenario button with a
/// selection at hand leaves the selection and the scenario for the panel.
pub open spec fn after_toolbar_action(s: AppState, action: Seq<char>) -> AppState {
    match (button_scenario(action), s.last_selection) {
        (Some(scenario), Some(sel)) => AppState {
            pending_panel: Some(PanelContext { selection: sel, scenario }),
            ..s
        },
        _ => s,
    }
}

/// What a toolbar button asks for.
pub open spec fn toolbar_outcome(s: AppState, action: Seq<char>) -> ToolbarOutcome {
    match button_scenario(action) {
        Some(_) => match s.last_selection {
            Some(sel) => ToolbarOutcome::ShowPanel {
                anchor: sel.anchor,
                pref: popup_pref_spec(s.config.general.popup_position@),
            },
            None => ToolbarOutcome::Ignore,
        },
        None => if action == "settings"@ {
            ToolbarOutcome::OpenSettings
        } else {
            ToolbarOutcome::Ignore
        },
    }
}

/// The state once the panel has taken its context.
pub open spec fn after_take(s: AppState) -> AppState {
    AppState { pending_panel: None, ..s }
}

impl AppState {
    /// The state at start-up: no selection yet.
    pub fn new(config: AppConfig) -> (r: AppState)
        ensures
            r.config == config,
            r.last_selection is None,
            r.pending_panel is None,
    {
        AppState { config, last_selection: None, pending_panel: None }
    }

    /// Handles a toolbar button (`translate`, `explain` or `settings`).
    pub fn toolbar_action(&mut self, action: &str) -> (r: ToolbarOutcome)
        ensures
            *final(self) == after_toolbar_action(*old(self), action@),
            r == toolbar_outcome(*old(self), action@),
    {
        proof {
            reveal_strlit("translate");
            reveal_strlit("explain");
            reveal_strlit("settings");
        }
        let scenario = if crate::text::str_eq(action, "translate") {
            Some(Scenario::Translate)
        } else if crate::text::str_eq(action, "explain") {
            Some(Scenario::Explain)
        } else {
            None
        };
        match scenario {
            Some(scenario) => match &self.last_selection {
                Some(sel) => {
                    let selection = sel.duplicate();
                    let anchor = selection.anchor;
                    self.pending_panel = Some(PanelContext { selection, scenario });
                    let pref = popup_pref(self.config.general.popup_position.as_str());
                    ToolbarOutcome::ShowPanel { anchor, pref }
                },
                None => ToolbarOutcome::Ignore,
            },
            None => {
                if crate::text::str_eq(action, "settings") {
                    ToolbarOutcome::OpenSettings
                } else {
                    ToolbarOutcome::Ignore
                }
            },
        }
    }

    /// Hands the pending context to the panel, once.
    pub fn take_panel_context(&mut self) -> (r: Option<PanelContext>)
        ensures
            r == old(self).pending_panel,
            *final(self) == after_take(*old(self)),
    {
        self.pending_panel.take()
    }

    /// Remembers the selection the toolbar is shown for.
    pub fn remember_selection(&mut self, selection: Selection)
        ensures
            *final(self) == (AppState { last_selection: Some(selection), ..*old(self) }),
    {
        self.last_selection = Some(selection);
    }

    /// Records the selection the toolbar is about to show for, and returns
    /// where to show it: the selection's anchor, on the configured side.
    pub fn show_toolbar_for(&mut self, selection: Selection) -> (r: (Option<(i32, i32)>, PopupPosition))
        ensures
            *final(self) == (AppState { last_selection: Some(selection), ..*old(self) }),
            r == (selection.anchor, popup_pref_spec(old(self).config.general.popup_position@)),
    {
        let anchor = selection.anchor;
        let pref = popup_pref(self.config.general.popup_position.as_str());
        self.last_selection = Some(selection);
        (anchor, pref)
    }

    /// Forgets the last selection when it goes away.
    pub fn selection_cleared(&mut self)
        ensures
            *final(self) == (AppState { last_selection: None, ..*old(self) }),
    {
        self.last_selection = None;
    }

    /// Replaces the configuration after the settings were saved.
    pub fn set_config(&mut self, config: AppConfig)
        ensures
            *final(self) == (AppState { config, ..*old(self) }),
    {
        self.config = config;
    }
}

/// The panel receives exactly what the toolbar button left for it: the last
/// selection and the button's scenario, and it receives it once.
pub proof fn law_panel_gets_toolbar_context(s: AppState, action: Seq<char>)
    requires
        button_scenario(action) is Some,
        s.last_selection is Some,
    ensures
        after_toolbar_action(s, action).pending_panel == Some(
            PanelContext {
                selection: s.last_selection->0,
                scenario: button_scenario(action)->0,
            },
        ),
        after_take(after_toolbar_action(s, action)).pending_panel is None,
        toolbar_outcome(s, action) == (ToolbarOutcome::ShowPanel {
            anchor: s.last_selection->0.anchor,
            pref: popup_pref_spec(s.config.general.popup_position@),
        }),
{
}

/// Without a selection, a scenario button changes nothing and opens nothing.
pub proof fn law_no_selection_no_panel(s: AppState, action: Seq<char>)
    requires
        button_scenario(action) is Some,
        s.last_selection is None,
    ensures
        after_toolbar_action(s, action) == s,
        toolbar_outcome(s, action) == ToolbarOutcome::Ignore,
{
}

} // verus!
